//! A sell order as the marketplace shows it.

use vstd::prelude::*;
use crate::sub_type::SubType;

verus! {

/// A marketplace-visible order for an item, optionally in a variant, at a
/// price and for a quantity.
#[derive(Clone, Debug, PartialEq, Eq)]
pub struct Listing {
    /// Identifier the marketplace gave the order.
    pub id: String,
    /// Name of the trader who published the order.
    pub seller: String,
    pub price: i64,
    pub quantity: i64,
    pub sub_type: Option<SubType>,
}

} // verus!
