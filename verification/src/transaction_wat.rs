//! Row of the legacy transaction ledger.

use vstd::prelude::*;

verus! {

/// One ledger line as the legacy table stores it: what was traded, when, in
/// which direction and for how much.
#[derive(Clone, Debug, PartialEq, Eq)]
pub struct Model {
    pub id: i64,
    pub name: String,
    pub datetime: String,
    pub transaction_type: String,
    pub price: i32,
}

} // verus!
