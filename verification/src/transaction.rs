//! Record of a completed purchase or sale.

use vstd::prelude::*;
use crate::enums::{TransactionItemType, TransactionType};
use crate::sub_type::SubType;

verus! {

/// A trade: which item changed hands, in which variant, how many units at
/// what unit price, in which direction and with whom.
#[derive(Clone, Debug, PartialEq, Eq)]
pub struct Model {
    pub id: i64,
    pub wfm_id: String,
    pub wfm_url: String,
    pub item_name: String,
    pub item_type: TransactionItemType,
    pub item_unique_name: String,
    pub sub_type: Option<SubType>,
    pub tags: Vec<String>,
    pub transaction_type: TransactionType,
    pub quantity: i64,
    pub user_name: String,
    pub price: i64,
    /// Seconds since the Unix epoch; zero until the store stamps the row.
    pub created_at: i64,
    /// Seconds since the Unix epoch; zero until the store stamps the row.
    pub updated_at: i64,
}

impl Model {
    /// A trade that has not been stored yet: identifier and timestamps are
    /// zero, everything else is as given.
    pub fn new(
        wfm_id: String,
        wfm_url: String,
        item_name: String,
        item_type: TransactionItemType,
        item_unique_name: String,
        sub_type: Option<SubType>,
        tags: Vec<String>,
        transaction_type: TransactionType,
        quantity: i64,
        user_name: String,
        price: i64,
    ) -> (r: Self)
        ensures
            r == (Model {
                id: 0,
                wfm_id,
                wfm_url,
                item_name,
                item_type,
                item_unique_name,
                sub_type,
                tags,
                transaction_type,
                quantity,
                user_name,
                price,
                created_at: 0,
                updated_at: 0,
            }),
    {
        Model {
            id: 0,
            wfm_id,
            wfm_url,
            item_name,
            item_type,
            item_unique_name,
            sub_type,
            tags,
            transaction_type,
            quantity,
            user_name,
            price,
            created_at: 0,
            updated_at: 0,
        }
    }
}

} // verus!
