//! Decides which single remote operation, if any, brings the published
//! listing of a stock record in line with what the engine wants published.

use vstd::prelude::*;
use crate::listing::Listing;
use crate::sub_type::{opt_sub_type, SubTypeView};

verus! {

/// The one remote operation a record needs in a cycle, or none.
#[derive(Debug, PartialEq, Eq)]
pub enum ListingAction {
    /// Publish a new listing at `price` for `quantity` units.
    Create { price: i64, quantity: i64 },
    /// Change the price of the listing `listing_id` to `price`.
    Update { listing_id: String, price: i64 },
    /// Withdraw the listing `listing_id`.
    Delete { listing_id: String },
    /// Leave the marketplace as it is.
    Nothing,
}

impl Clone for ListingAction {
    fn clone(&self) -> (r: Self)
        ensures
            r == *self,
    {
        match self {
            ListingAction::Create { price, quantity } => ListingAction::Create {
                price: *price,
                quantity: *quantity,
            },
            ListingAction::Update { listing_id, price } => ListingAction::Update {
                listing_id: listing_id.clone(),
                price: *price,
            },
            ListingAction::Delete { listing_id } => ListingAction::Delete {
                listing_id: listing_id.clone(),
            },
            ListingAction::Nothing => ListingAction::Nothing,
        }
    }
}

impl ListingAction {
    /// Whether carrying the action out changes anything on the marketplace.
    pub open spec fn mutates(&self) -> bool {
        !(self is Nothing)
    }

    /// Decides [`ListingAction::mutates`].
    pub fn is_mutation(&self) -> (r: bool)
        ensures
            r == self.mutates(),
    {
        match self {
            ListingAction::Nothing => false,
            _ => true,
        }
    }
}

/// The decision table. With nothing held, an existing listing is withdrawn.
/// With stock held and no listing, one is created at the desired price for
/// the quantity held. With stock held and a listing, the listing is left
/// alone when the record already carries the desired price as its list
/// price, and repriced otherwise.
pub open spec fn decide(
    owned: i64,
    list_price: Option<i64>,
    remote: Option<Listing>,
    desired: i64,
) -> ListingAction {
    match remote {
        Some(listing) => if owned <= 0 {
            ListingAction::Delete { listing_id: listing.id }
        } else if list_price == Some(desired) {
            ListingAction::Nothing
        } else {
            ListingAction::Update { listing_id: listing.id, price: desired }
        },
        None => if owned <= 0 {
            ListingAction::Nothing
        } else {
            ListingAction::Create { price: desired, quantity: owned }
        },
    }
}

/// Computes the operation the decision table prescribes.
pub fn reconcile(owned: i64, list_price: Option<i64>, remote: &Option<Listing>, desired: i64) -> (action:
    ListingAction)
    ensures
        action == decide(owned, list_price, *remote, desired),
{
    match remote {
        Some(listing) => {
            if owned <= 0 {
                ListingAction::Delete { listing_id: listing.id.clone() }
            } else {
                let unchanged = match list_price {
                    Some(p) => p == desired,
                    None => false,
                };
                if unchanged {
                    ListingAction::Nothing
                } else {
                    ListingAction::Update { listing_id: listing.id.clone(), price: desired }
                }
            }
        },
        None => {
            if owned <= 0 {
                ListingAction::Nothing
            } else {
                ListingAction::Create { price: desired, quantity: owned }
            }
        },
    }
}

/// Whether `after` is what the marketplace shows for a record once `action`
/// was carried out on `before`: a created listing asks the given price in
/// the record's variant, a repriced listing differs from the old one in its
/// price only, a withdrawn listing is gone, and without an operation nothing
/// moved.
pub open spec fn reflects(
    action: ListingAction,
    variant: Option<SubTypeView>,
    before: Option<Listing>,
    after: Option<Listing>,
) -> bool {
    match action {
        ListingAction::Create { price, quantity } => {
            &&& after matches Some(listing)
            &&& listing.price == price
            &&& opt_sub_type(listing.sub_type) == variant
        },
        ListingAction::Update { listing_id, price } => {
            &&& before matches Some(old_listing)
            &&& after == Some(Listing { price, ..old_listing })
        },
        ListingAction::Delete { listing_id } => after is None,
        ListingAction::Nothing => after == before,
    }
}

} // verus!
