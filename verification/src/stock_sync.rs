//! Synchronisation of one stock record with the marketplace: what to ask,
//! which remote operation to issue, and what the record looks like once the
//! operation went through.

use vstd::prelude::*;
use crate::enums::StockStatus;
use crate::listing::Listing;
use crate::price_aggregator::{
    aggregate, competitor_prices, lemma_lowest_is_minimum, price_floor, record_price, with_sample,
};
use crate::price_history::{lemma_bounded_append_is_fifo, PriceHistory, PRICE_HISTORY_CAP};
use crate::reconcile::{decide, reconcile, reflects, ListingAction};
use crate::stock_item::{Model, ModelView};
use crate::sub_type::{opt_sub_type, same_number, variants_match};

verus! {

/// Which family of records a synchronisation pass works on.
#[derive(Clone, Copy, Debug, PartialEq, Eq, Structural)]
pub enum ModuleKind {
    /// Records that carry a variant descriptor.
    Variants,
    /// Records without a variant descriptor.
    Items,
}

/// Whether a pass of the given kind works on the record: the record is
/// neither hidden nor locked, and it carries a variant exactly when the
/// pass is the one for variants.
pub open spec fn in_scope(kind: ModuleKind, record: ModelView) -> bool {
    record.eligible() && ((kind == ModuleKind::Variants) == (record.sub_type is Some))
}

/// The remote listing that counts as the record's own. The pass for
/// variants accepts the user's listing only when its variant equals the
/// record's in every component; any other listing is treated as absent.
pub open spec fn target_listing(kind: ModuleKind, record: ModelView, mine: Option<Listing>) -> Option<
    Listing,
> {
    match mine {
        Some(listing) => if kind == ModuleKind::Variants && opt_sub_type(listing.sub_type)
            != record.sub_type {
            None
        } else {
            Some(listing)
        },
        None => None,
    }
}

/// The price the engine wants published for the record.
pub open spec fn planned_price(record: ModelView, live: Seq<Listing>, user: Seq<char>, undercut: u64) -> i64 {
    record_price(record, live, user, undercut) as i64
}

/// The remote operation a pass issues for a record: none for a record out
/// of scope, otherwise what the decision table says for the record's stock,
/// its list price, its own remote listing and the planned price.
pub open spec fn planned_action(
    kind: ModuleKind,
    record: ModelView,
    live: Seq<Listing>,
    mine: Option<Listing>,
    user: Seq<char>,
    undercut: u64,
) -> ListingAction {
    if in_scope(kind, record) {
        decide(
            record.owned,
            record.list_price,
            target_listing(kind, record, mine),
            planned_price(record, live, user, undercut),
        )
    } else {
        ListingAction::Nothing
    }
}

/// The record after planning: a record in scope with stock held gets the
/// planned price noted in its history; every other record is untouched.
pub open spec fn planned_record(
    kind: ModuleKind,
    record: ModelView,
    live: Seq<Listing>,
    user: Seq<char>,
    undercut: u64,
    now: i64,
) -> ModelView {
    if in_scope(kind, record) && record.owned > 0 {
        with_sample(record, planned_price(record, live, user, undercut), now)
    } else {
        record
    }
}

/// The record after the remote operation went through. A created listing
/// sets the list price and makes the record live; a repriced listing sets
/// the list price; a withdrawn listing clears the list price and makes the
/// record inactive. All writes are the guarded ones, so a locked record
/// keeps its list price and status. The update time moves to `now` exactly
/// when something changed.
pub open spec fn settled(record: ModelView, action: ListingAction, now: i64) -> ModelView {
    let after = match action {
        ListingAction::Create { price, quantity } => record.with_list_price(Some(price)).with_status(
            StockStatus::Live,
        ),
        ListingAction::Update { listing_id, price } => record.with_list_price(Some(price)),
        ListingAction::Delete { listing_id } => record.with_list_price(None).with_status(
            StockStatus::Inactive,
        ),
        ListingAction::Nothing => record,
    };
    if after == record {
        record
    } else {
        ModelView { updated_at: now, ..after }
    }
}

/// The planned price is a machine integer as it stands: it lies between the
/// floor and the larger of the floor and the market's suggestion.
pub proof fn lemma_planned_price_in_range(
    record: ModelView,
    live: Seq<Listing>,
    user: Seq<char>,
    undercut: u64,
)
    ensures
        planned_price(record, live, user, undercut) == record_price(record, live, user, undercut),
        price_floor(record.bought as int, record.minimum_price) <= planned_price(
            record,
            live,
            user,
            undercut,
        ),
{
    let competitors = competitor_prices(live, user);
    if competitors.len() > 0 {
        lemma_lowest_is_minimum(competitors);
    }
}

/// The planned price is never below the user's floor when one is set.
pub proof fn lemma_planned_price_respects_minimum(
    record: ModelView,
    live: Seq<Listing>,
    user: Seq<char>,
    undercut: u64,
)
    ensures
        record.minimum_price matches Some(m) ==> planned_price(record, live, user, undercut) >= m,
{
    lemma_planned_price_in_range(record, live, user, undercut);
}

/// A locked record keeps its list price and its status through planning and
/// through the settling of any remote operation, and planning issues no
/// operation for it.
pub proof fn lemma_locked_record_is_frozen(
    kind: ModuleKind,
    record: ModelView,
    live: Seq<Listing>,
    mine: Option<Listing>,
    user: Seq<char>,
    undercut: u64,
    now: i64,
    action: ListingAction,
)
    requires
        record.locked,
    ensures
        planned_action(kind, record, live, mine, user, undercut) is Nothing,
        planned_record(kind, record, live, user, undercut, now) == record,
        settled(record, action, now).list_price == record.list_price,
        settled(record, action, now).status == record.status,
        forall|p: Option<i64>| (#[trigger] record.with_list_price(p)).list_price == record.list_price,
        forall|s: StockStatus| (#[trigger] record.with_status(s)).status == record.status,
{
}

/// A second pass over a record finds nothing to do when the first pass's
/// operation went through and the competition did not move: whatever the
/// first pass issued, the operation planned afterwards is none.
pub proof fn lemma_second_pass_is_idle(
    kind: ModuleKind,
    record: ModelView,
    live: Seq<Listing>,
    mine: Option<Listing>,
    live_again: Seq<Listing>,
    mine_again: Option<Listing>,
    user: Seq<char>,
    undercut: u64,
    now: i64,
    later: i64,
)
    requires
        competitor_prices(live_again, user) == competitor_prices(live, user),
        reflects(
            planned_action(kind, record, live, mine, user, undercut),
            record.sub_type,
            target_listing(kind, record, mine),
            target_listing(kind, record, mine_again),
        ),
    ensures
        planned_action(
            kind,
            settled(
                planned_record(kind, record, live, user, undercut, now),
                planned_action(kind, record, live, mine, user, undercut),
                now,
            ),
            live_again,
            mine_again,
            user,
            undercut,
        ) is Nothing,
{
    let done = settled(
        planned_record(kind, record, live, user, undercut, now),
        planned_action(kind, record, live, mine, user, undercut),
        now,
    );
    if in_scope(kind, record) && record.owned > 0 {
        let price = planned_price(record, live, user, undercut);
        lemma_planned_price_in_range(record, live, user, undercut);
        lemma_planned_price_in_range(done, live_again, user, undercut);
        lemma_bounded_append_is_fifo(
            record.price_history,
            PriceHistory { created_at: now, price },
            PRICE_HISTORY_CAP as nat,
        );
    }
}

/// A record in scope with nothing held loses its remote listing: the pass
/// withdraws the listing that counts as the record's own, and once that
/// went through the record carries no list price and is inactive.
pub proof fn lemma_unheld_record_is_delisted(
    kind: ModuleKind,
    record: ModelView,
    live: Seq<Listing>,
    mine: Option<Listing>,
    after: Option<Listing>,
    user: Seq<char>,
    undercut: u64,
    now: i64,
)
    requires
        in_scope(kind, record),
        record.owned <= 0,
        target_listing(kind, record, mine) is Some,
        reflects(
            planned_action(kind, record, live, mine, user, undercut),
            record.sub_type,
            target_listing(kind, record, mine),
            after,
        ),
    ensures
        planned_action(kind, record, live, mine, user, undercut) == (ListingAction::Delete {
            listing_id: mine->0.id,
        }),
        after is None,
        settled(
            planned_record(kind, record, live, user, undercut, now),
            planned_action(kind, record, live, mine, user, undercut),
            now,
        ).list_price is None,
        settled(
            planned_record(kind, record, live, user, undercut, now),
            planned_action(kind, record, live, mine, user, undercut),
            now,
        ).status == StockStatus::Inactive,
{
}

/// Decides [`in_scope`].
pub fn is_in_scope(kind: ModuleKind, record: &Model) -> (r: bool)
    ensures
        r == in_scope(kind, record@),
{
    let wants_variant = match kind {
        ModuleKind::Variants => true,
        ModuleKind::Items => false,
    };
    record.is_eligible() && (wants_variant == record.sub_type.is_some())
}

/// Plans the synchronisation of one record: notes the planned price in the
/// record's history and returns the remote operation to issue.
pub fn plan(
    kind: ModuleKind,
    record: &mut Model,
    live: &Vec<Listing>,
    mine: &Option<Listing>,
    user: &String,
    undercut: u64,
    now: i64,
) -> (action: ListingAction)
    ensures
        action == planned_action(kind, old(record)@, live@, *mine, user@, undercut),
        final(record)@ == planned_record(kind, old(record)@, live@, user@, undercut, now),
        final(record)@.wf() || final(record)@ == old(record)@,
        final(record).list_price == old(record).list_price,
        final(record).status == old(record).status,
        old(record).locked || old(record).is_hidden ==> !action.mutates(),
{
    if !is_in_scope(kind, record) {
        return ListingAction::Nothing;
    }
    let accept = match mine {
        Some(listing) => match kind {
            ModuleKind::Variants => variants_match(&listing.sub_type, &record.sub_type),
            ModuleKind::Items => true,
        },
        None => false,
    };
    if record.owned <= 0 {
        if accept {
            reconcile(record.owned, record.list_price, mine, 0)
        } else {
            ListingAction::Nothing
        }
    } else {
        let price = aggregate(record, live, user, undercut, now);
        if accept {
            reconcile(record.owned, record.list_price, mine, price)
        } else {
            reconcile(record.owned, record.list_price, &None, price)
        }
    }
}

/// Brings the record up to date after the remote operation went through.
pub fn settle(record: &mut Model, action: &ListingAction, now: i64)
    ensures
        final(record)@ == settled(old(record)@, *action, now),
        old(record).locked ==> final(record).list_price == old(record).list_price,
        old(record).locked ==> final(record).status == old(record).status,
        final(record)@.wf() == old(record)@.wf(),
{
    let list_price_before = record.list_price;
    let status_before = record.status;
    match action {
        ListingAction::Create { price, quantity } => {
            record.set_list_price(Some(*price));
            record.set_status(StockStatus::Live);
        },
        ListingAction::Update { listing_id, price } => {
            record.set_list_price(Some(*price));
        },
        ListingAction::Delete { listing_id } => {
            record.set_list_price(None);
            record.set_status(StockStatus::Inactive);
        },
        ListingAction::Nothing => {},
    }
    let changed = !same_number(list_price_before, record.list_price) || status_before.index()
        != record.status.index();
    if changed {
        record.updated_at = now;
    }
}

} // verus!
