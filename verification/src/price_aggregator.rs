//! Derives the price to ask for a stock record from the competing listings
//! and keeps the record's bounded price history.

use vstd::prelude::*;
use crate::listing::Listing;
use crate::price_history::{bounded_append, PriceHistory, PriceHistoryVec, PRICE_HISTORY_CAP};
use crate::stock_item::{Model, ModelView};

verus! {

/// A listing competes with the user's own offers when somebody else
/// published it.
pub open spec fn is_competitor(listing: Listing, user: Seq<char>) -> bool {
    listing.seller@ != user
}

/// Prices of the competing listings, in the order the listings come.
pub open spec fn competitor_prices(live: Seq<Listing>, user: Seq<char>) -> Seq<i64>
    decreases live.len(),
{
    if live.len() == 0 {
        Seq::empty()
    } else {
        let rest = competitor_prices(live.drop_last(), user);
        if is_competitor(live.last(), user) {
            rest.push(live.last().price)
        } else {
            rest
        }
    }
}

/// The smallest of the given prices; only meaningful when there is one.
pub open spec fn lowest(prices: Seq<i64>) -> int
    decreases prices.len(),
{
    if prices.len() == 0 {
        0
    } else if prices.len() == 1 {
        prices[0] as int
    } else {
        let rest = lowest(prices.drop_last());
        if prices.last() < rest {
            prices.last() as int
        } else {
            rest
        }
    }
}

/// The price below which the engine never goes: the user's floor when one
/// is set (even below the acquisition price), the acquisition price
/// otherwise.
pub open spec fn price_floor(bought: int, minimum_price: Option<i64>) -> int {
    match minimum_price {
        Some(m) => m as int,
        None => bought,
    }
}

/// The price the market suggests before any floor applies: the lowest
/// competitor undercut by the increment; without competitors the latest
/// sample of the history; without history the acquisition price.
pub open spec fn candidate_price(
    competitors: Seq<i64>,
    history: Seq<PriceHistory>,
    bought: int,
    undercut: int,
) -> int {
    if competitors.len() > 0 {
        lowest(competitors) - undercut
    } else if history.len() > 0 {
        history.last().price as int
    } else {
        bought
    }
}

/// The recommended price: the candidate, raised to the floor where it falls
/// short of it.
pub open spec fn recommended_price(
    competitors: Seq<i64>,
    history: Seq<PriceHistory>,
    bought: int,
    minimum_price: Option<i64>,
    undercut: int,
) -> int {
    let candidate = candidate_price(competitors, history, bought, undercut);
    let floor = price_floor(bought, minimum_price);
    if candidate >= floor {
        candidate
    } else {
        floor
    }
}

/// The lowest of a non-empty sequence of prices occurs in it and no price
/// in it is lower.
pub proof fn lemma_lowest_is_minimum(prices: Seq<i64>)
    requires
        prices.len() > 0,
    ensures
        exists|i: int| 0 <= i < prices.len() && prices[i] == lowest(prices),
        forall|i: int| 0 <= i < prices.len() ==> lowest(prices) <= prices[i],
    decreases prices.len(),
{
    if prices.len() == 1 {
        assert(prices[0] == lowest(prices));
    } else {
        let front = prices.drop_last();
        lemma_lowest_is_minimum(front);
        let k = choose|i: int| 0 <= i < front.len() && front[i] == lowest(front);
        assert(front[k] == prices[k]);
        assert forall|i: int| 0 <= i < prices.len() implies lowest(prices) <= prices[i] by {
            if i < front.len() {
                assert(front[i] == prices[i]);
            }
        }
    }
}

/// Whether some listing published by somebody else asks the price `p`.
pub open spec fn asked_by_competitor(live: Seq<Listing>, user: Seq<char>, p: i64) -> bool {
    exists|i: int| 0 <= i < live.len() && is_competitor(#[trigger] live[i], user) && live[i].price == p
}

/// The competitor prices are exactly the prices asked by listings that
/// somebody else published.
pub proof fn lemma_competitor_prices_sound(live: Seq<Listing>, user: Seq<char>)
    ensures
        forall|p: i64|
            #[trigger] competitor_prices(live, user).contains(p) <==> asked_by_competitor(
                live,
                user,
                p,
            ),
    decreases live.len(),
{
    let all = competitor_prices(live, user);
    if live.len() == 0 {
        assert forall|p: i64| #[trigger] all.contains(p) <==> asked_by_competitor(
            live,
            user,
            p,
        ) by {
            if all.contains(p) {
                let j = choose|j: int| 0 <= j < all.len() && all[j] == p;
            }
        }
    } else {
        let front = live.drop_last();
        let rest = competitor_prices(front, user);
        lemma_competitor_prices_sound(front, user);
        assert forall|p: i64| #[trigger] all.contains(p) <==> asked_by_competitor(
            live,
            user,
            p,
        ) by {
            if all.contains(p) {
                let j = choose|j: int| 0 <= j < all.len() && all[j] == p;
                if j < rest.len() {
                    assert(rest.contains(p));
                    let i = choose|i: int|
                        0 <= i < front.len() && is_competitor(#[trigger] front[i], user)
                            && front[i].price == p;
                    assert(live[i] == front[i]);
                }
            }
            if asked_by_competitor(live, user, p) {
                let i = choose|i: int|
                    0 <= i < live.len() && is_competitor(#[trigger] live[i], user) && live[i].price
                        == p;
                if i < front.len() {
                    assert(front[i] == live[i]);
                    assert(rest.contains(p));
                    let j = choose|j: int| 0 <= j < rest.len() && rest[j] == p;
                    assert(all[j] == p);
                } else {
                    assert(all[all.len() - 1] == p);
                }
            }
        }
    }
}

/// The recommended price never falls below the user's floor when one is
/// set, and never below the acquisition price when none is.
pub proof fn lemma_recommended_respects_floor(
    competitors: Seq<i64>,
    history: Seq<PriceHistory>,
    bought: int,
    minimum_price: Option<i64>,
    undercut: int,
)
    ensures
        minimum_price matches Some(m) ==> recommended_price(
            competitors,
            history,
            bought,
            minimum_price,
            undercut,
        ) >= m,
        minimum_price is None ==> recommended_price(
            competitors,
            history,
            bought,
            minimum_price,
            undercut,
        ) >= bought,
{
}

/// Collects the prices of the listings that compete with `user`.
pub fn collect_competitor_prices(live: &Vec<Listing>, user: &String) -> (prices: Vec<i64>)
    ensures
        prices@ == competitor_prices(live@, user@),
{
    let mut prices: Vec<i64> = Vec::new();
    let mut i: usize = 0;
    while i < live.len()
        invariant
            i <= live.len(),
            prices@ == competitor_prices(live@.take(i as int), user@),
        decreases live.len() - i,
    {
        assert(live@.take(i + 1).drop_last() =~= live@.take(i as int));
        if live[i].seller != *user {
            prices.push(live[i].price);
        }
        i = i + 1;
    }
    assert(live@.take(i as int) =~= live@);
    prices
}

/// The smallest of the given prices, if there is any.
pub fn lowest_price(prices: &Vec<i64>) -> (r: Option<i64>)
    ensures
        prices@.len() == 0 ==> r is None,
        prices@.len() > 0 ==> r == Some(lowest(prices@) as i64),
        prices@.len() > 0 ==> i64::MIN <= lowest(prices@) <= i64::MAX,
{
    if prices.len() == 0 {
        return None;
    }
    let mut best: i64 = prices[0];
    let mut i: usize = 1;
    while i < prices.len()
        invariant
            1 <= i <= prices.len(),
            best == lowest(prices@.take(i as int)),
        decreases prices.len() - i,
    {
        assert(prices@.take(i + 1).drop_last() =~= prices@.take(i as int));
        if prices[i] < best {
            best = prices[i];
        }
        i = i + 1;
    }
    assert(prices@.take(i as int) =~= prices@);
    Some(best)
}

/// Recommends the price to ask, given the prices of the competitors, the
/// record's price history, what was paid for the item, the user's floor and
/// the undercut increment.
pub fn recommend_price(
    competitors: &Vec<i64>,
    history: &PriceHistoryVec,
    bought: i64,
    minimum_price: Option<i64>,
    undercut: u64,
) -> (price: i64)
    ensures
        price == recommended_price(
            competitors@,
            history@,
            bought as int,
            minimum_price,
            undercut as int,
        ),
        minimum_price matches Some(m) ==> price >= m,
        minimum_price is None ==> price >= bought,
{
    let floor: i64 = match minimum_price {
        Some(m) => m,
        None => bought,
    };
    let candidate: i128 = match lowest_price(competitors) {
        Some(low) => (low as i128) - (undercut as i128),
        None => match history.latest() {
            Some(sample) => sample.price as i128,
            None => bought as i128,
        },
    };
    if candidate >= floor as i128 {
        candidate as i64
    } else {
        floor
    }
}

/// The price recommended for a record in front of the given live listings.
pub open spec fn record_price(record: ModelView, live: Seq<Listing>, user: Seq<char>, undercut: u64) -> int {
    recommended_price(
        competitor_prices(live, user),
        record.price_history,
        record.bought as int,
        record.minimum_price,
        undercut as int,
    )
}

/// The record after a price was recommended at `now`: the sample joins the
/// bounded history, the update time moves to `now`, and the record is
/// dirty. Nothing else changes.
pub open spec fn with_sample(record: ModelView, price: i64, now: i64) -> ModelView {
    ModelView {
        price_history: bounded_append(
            record.price_history,
            PriceHistory { created_at: now, price },
            PRICE_HISTORY_CAP as nat,
        ),
        updated_at: now,
        is_dirty: true,
        ..record
    }
}

/// Recommends a price for the record in front of the live listings and
/// notes it in the record's history.
pub fn aggregate(record: &mut Model, live: &Vec<Listing>, user: &String, undercut: u64, now: i64) -> (price:
    i64)
    ensures
        price == record_price(old(record)@, live@, user@, undercut),
        final(record)@ == with_sample(old(record)@, price, now),
        final(record)@.wf(),
        old(record).minimum_price matches Some(m) ==> price >= m,
{
    let competitors = collect_competitor_prices(live, user);
    let price = recommend_price(
        &competitors,
        &record.price_history,
        record.bought,
        record.minimum_price,
        undercut,
    );
    record.price_history.record(PriceHistory { created_at: now, price });
    record.updated_at = now;
    record.is_dirty = true;
    price
}

} // verus!
