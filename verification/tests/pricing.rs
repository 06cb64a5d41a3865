use stock_engine::enums::StockStatus;
use stock_engine::listing::Listing;
use stock_engine::price_aggregator::{
    aggregate, collect_competitor_prices, lowest_price, recommend_price,
};
use stock_engine::price_history::{PriceHistory, PriceHistoryVec, PRICE_HISTORY_CAP};
use stock_engine::reconcile::{reconcile, ListingAction};
use stock_engine::stock_item::Model;
use stock_engine::stock_sync::{is_in_scope, plan, settle, ModuleKind};
use stock_engine::sub_type::SubType;

fn listing(id: &str, seller: &str, price: i64) -> Listing {
    Listing {
        id: id.to_string(),
        seller: seller.to_string(),
        price,
        quantity: 1,
        sub_type: None,
    }
}

fn variant_listing(id: &str, seller: &str, price: i64, rank: i64) -> Listing {
    Listing {
        id: id.to_string(),
        seller: seller.to_string(),
        price,
        quantity: 1,
        sub_type: Some(SubType::new(Some(rank), None, None, None)),
    }
}

fn record(owned: i64, bought: i64, minimum_price: Option<i64>) -> Model {
    Model::new(
        "item-1".to_string(),
        "lex_prime_set".to_string(),
        "Lex Prime Set".to_string(),
        "/Lotus/Weapons/Lex".to_string(),
        None,
        bought,
        minimum_price,
        owned,
        false,
    )
}

fn competitors() -> Vec<Listing> {
    vec![listing("a", "alice", 1200), listing("b", "bob", 1250)]
}

fn me() -> String {
    "me".to_string()
}

#[test]
fn recommended_price_undercuts_the_lowest_competitor() {
    let price = recommend_price(&vec![1200, 1250], &PriceHistoryVec::new(), 100, None, 1);
    assert_eq!(price, 1199);
}

#[test]
fn recommended_price_is_raised_to_the_minimum_price() {
    let price = recommend_price(&vec![1200, 1250], &PriceHistoryVec::new(), 100, Some(1205), 1);
    assert_eq!(price, 1205);
}

#[test]
fn recommended_price_never_goes_below_what_was_paid() {
    let price = recommend_price(&vec![80, 90], &PriceHistoryVec::new(), 100, None, 1);
    assert_eq!(price, 100);
}

#[test]
fn a_lower_minimum_price_overrides_the_acquisition_floor() {
    let price = recommend_price(&vec![80, 90], &PriceHistoryVec::new(), 100, Some(50), 1);
    assert_eq!(price, 79);
    let floor = recommend_price(&vec![40, 90], &PriceHistoryVec::new(), 100, Some(50), 1);
    assert_eq!(floor, 50);
}

#[test]
fn without_competitors_the_latest_sample_is_recommended() {
    let history = PriceHistoryVec(vec![
        PriceHistory { created_at: 1, price: 300 },
        PriceHistory { created_at: 2, price: 310 },
    ]);
    assert_eq!(recommend_price(&vec![], &history, 100, None, 1), 310);
    assert_eq!(recommend_price(&vec![], &history, 100, Some(400), 1), 400);
}

#[test]
fn without_competitors_and_history_what_was_paid_is_recommended() {
    assert_eq!(recommend_price(&vec![], &PriceHistoryVec::new(), 100, None, 1), 100);
    assert_eq!(recommend_price(&vec![], &PriceHistoryVec::new(), 100, Some(20), 1), 100);
}

#[test]
fn recommended_price_respects_the_minimum_for_many_markets() {
    let markets: Vec<Vec<i64>> = vec![
        vec![],
        vec![1],
        vec![5, 3, 9],
        vec![1000, 2000],
        vec![-5, 7],
        vec![i64::MIN, 0],
        vec![i64::MAX],
    ];
    for market in markets.iter() {
        for minimum in [0i64, 4, 1000, -10, i64::MAX] {
            for undercut in [0u64, 1, 50, u64::MAX] {
                let price =
                    recommend_price(market, &PriceHistoryVec::new(), 10, Some(minimum), undercut);
                assert!(price >= minimum);
            }
        }
    }
}

#[test]
fn recommended_price_survives_extreme_values() {
    let price = recommend_price(&vec![i64::MIN], &PriceHistoryVec::new(), -5, None, u64::MAX);
    assert_eq!(price, -5);
    let top = recommend_price(&vec![i64::MAX], &PriceHistoryVec::new(), 0, None, 0);
    assert_eq!(top, i64::MAX);
}

#[test]
fn zero_undercut_matches_the_lowest_competitor() {
    assert_eq!(recommend_price(&vec![700, 650], &PriceHistoryVec::new(), 100, None, 0), 650);
}

#[test]
fn lowest_price_finds_the_minimum() {
    assert_eq!(lowest_price(&vec![]), None);
    assert_eq!(lowest_price(&vec![5]), Some(5));
    assert_eq!(lowest_price(&vec![5, 3, 9, 3]), Some(3));
    assert_eq!(lowest_price(&vec![-1, i64::MIN, 4]), Some(i64::MIN));
}

#[test]
fn own_listings_are_no_competitors() {
    let live = vec![listing("a", "alice", 1200), listing("m", "me", 900), listing("b", "bob", 1250)];
    assert_eq!(collect_competitor_prices(&live, &me()), vec![1200, 1250]);
    assert_eq!(collect_competitor_prices(&vec![listing("m", "me", 900)], &me()), Vec::<i64>::new());
    assert_eq!(collect_competitor_prices(&vec![], &me()), Vec::<i64>::new());
}

#[test]
fn aggregate_notes_the_price_in_the_history() {
    let mut r = record(1, 100, None);
    r.mark_saved();
    let price = aggregate(&mut r, &competitors(), &me(), 1, 77);
    assert_eq!(price, 1199);
    assert_eq!(r.price_history.0, vec![PriceHistory { created_at: 77, price: 1199 }]);
    assert_eq!(r.updated_at, 77);
    assert!(r.is_dirty);
    assert_eq!(r.list_price, None);
    assert_eq!(r.status, StockStatus::Pending);
}

#[test]
fn aggregate_keeps_the_history_within_the_cap() {
    let mut r = record(1, 100, None);
    for t in 0..20 {
        aggregate(&mut r, &vec![listing("a", "alice", 1000 + t)], &me(), 1, t);
        assert!(r.price_history.len() <= PRICE_HISTORY_CAP);
    }
    assert_eq!(r.price_history.len(), PRICE_HISTORY_CAP);
    assert_eq!(r.price_history.0[0], PriceHistory { created_at: 15, price: 1014 });
    assert_eq!(r.price_history.0[4], PriceHistory { created_at: 19, price: 1018 });
}

#[test]
fn decision_table_withdraws_the_listing_of_an_unheld_record() {
    let remote = Some(listing("L1", "me", 500));
    assert_eq!(
        reconcile(0, Some(500), &remote, 480),
        ListingAction::Delete { listing_id: "L1".to_string() }
    );
}

#[test]
fn decision_table_creates_a_listing_where_none_exists() {
    assert_eq!(
        reconcile(3, None, &None, 1199),
        ListingAction::Create { price: 1199, quantity: 3 }
    );
}

#[test]
fn decision_table_leaves_an_equal_price_alone() {
    let remote = Some(listing("L1", "me", 1199));
    assert_eq!(reconcile(1, Some(1199), &remote, 1199), ListingAction::Nothing);
}

#[test]
fn decision_table_reprices_a_differing_listing() {
    let remote = Some(listing("L1", "me", 1300));
    assert_eq!(
        reconcile(1, Some(1300), &remote, 1199),
        ListingAction::Update { listing_id: "L1".to_string(), price: 1199 }
    );
    assert_eq!(
        reconcile(1, None, &remote, 1199),
        ListingAction::Update { listing_id: "L1".to_string(), price: 1199 }
    );
}

#[test]
fn decision_table_does_nothing_without_stock_and_listing() {
    assert_eq!(reconcile(0, None, &None, 1199), ListingAction::Nothing);
    assert_eq!(reconcile(-2, Some(5), &None, 1199), ListingAction::Nothing);
}

#[test]
fn listing_action_knows_whether_it_mutates() {
    assert!(ListingAction::Create { price: 1, quantity: 1 }.is_mutation());
    assert!(ListingAction::Update { listing_id: "x".to_string(), price: 1 }.is_mutation());
    assert!(ListingAction::Delete { listing_id: "x".to_string() }.is_mutation());
    assert!(!ListingAction::Nothing.is_mutation());
    let a = ListingAction::Update { listing_id: "x".to_string(), price: 1 };
    assert_eq!(a.clone(), a);
}

#[test]
fn scenario_create_listing_at_1199() {
    let mut r = record(1, 100, None);
    let action = plan(ModuleKind::Items, &mut r, &competitors(), &None, &me(), 1, 10);
    assert_eq!(action, ListingAction::Create { price: 1199, quantity: 1 });
    settle(&mut r, &action, 11);
    assert_eq!(r.list_price, Some(1199));
    assert_eq!(r.status, StockStatus::Live);
    assert_eq!(r.updated_at, 11);
}

#[test]
fn scenario_floor_enforced_at_1205() {
    let mut r = record(1, 100, Some(1205));
    let action = plan(ModuleKind::Items, &mut r, &competitors(), &None, &me(), 1, 10);
    assert_eq!(action, ListingAction::Create { price: 1205, quantity: 1 });
}

#[test]
fn scenario_locked_record_is_left_alone() {
    let mut r = record(1, 100, None);
    r.locked = true;
    r.list_price = Some(500);
    r.status = StockStatus::Live;
    r.mark_saved();
    let before = r.clone();
    let live = vec![listing("a", "alice", 301)];
    let mine = Some(listing("L1", "me", 500));
    let action = plan(ModuleKind::Items, &mut r, &live, &mine, &me(), 1, 10);
    assert_eq!(action, ListingAction::Nothing);
    assert_eq!(r.list_price, Some(500));
    assert_eq!(r, before);
    settle(&mut r, &ListingAction::Update { listing_id: "L1".to_string(), price: 300 }, 11);
    assert_eq!(r.list_price, Some(500));
    assert_eq!(r.status, StockStatus::Live);
    settle(&mut r, &ListingAction::Delete { listing_id: "L1".to_string() }, 12);
    assert_eq!(r, before);
}

#[test]
fn hidden_record_is_left_alone() {
    let mut r = record(1, 100, None);
    r.is_hidden = true;
    let before = r.clone();
    let action = plan(ModuleKind::Items, &mut r, &competitors(), &None, &me(), 1, 10);
    assert_eq!(action, ListingAction::Nothing);
    assert_eq!(r, before);
}

#[test]
fn second_pass_issues_no_operation() {
    let mut r = record(2, 100, None);
    let first = plan(ModuleKind::Items, &mut r, &competitors(), &None, &me(), 1, 10);
    assert_eq!(first, ListingAction::Create { price: 1199, quantity: 2 });
    settle(&mut r, &first, 10);
    let mut live = competitors();
    live.push(listing("L9", "me", 1199));
    let mine = Some(listing("L9", "me", 1199));
    let second = plan(ModuleKind::Items, &mut r, &live, &mine, &me(), 1, 20);
    assert_eq!(second, ListingAction::Nothing);
    let third = plan(ModuleKind::Items, &mut r, &live, &mine, &me(), 1, 30);
    assert_eq!(third, ListingAction::Nothing);
}

#[test]
fn second_pass_without_competitors_issues_no_operation() {
    let mut r = record(1, 100, Some(150));
    let first = plan(ModuleKind::Items, &mut r, &vec![], &None, &me(), 1, 10);
    assert_eq!(first, ListingAction::Create { price: 150, quantity: 1 });
    settle(&mut r, &first, 10);
    let mine = Some(listing("L9", "me", 150));
    let second = plan(ModuleKind::Items, &mut r, &vec![listing("L9", "me", 150)], &mine, &me(), 1, 20);
    assert_eq!(second, ListingAction::Nothing);
}

#[test]
fn unheld_record_loses_its_listing() {
    let mut r = record(0, 100, None);
    r.list_price = Some(500);
    r.status = StockStatus::Live;
    let mine = Some(listing("L1", "me", 500));
    let action = plan(ModuleKind::Items, &mut r, &competitors(), &mine, &me(), 1, 10);
    assert_eq!(action, ListingAction::Delete { listing_id: "L1".to_string() });
    assert_eq!(r.price_history.len(), 0);
    settle(&mut r, &action, 11);
    assert_eq!(r.list_price, None);
    assert_eq!(r.status, StockStatus::Inactive);
    let again = plan(ModuleKind::Items, &mut r, &competitors(), &None, &me(), 1, 20);
    assert_eq!(again, ListingAction::Nothing);
}

#[test]
fn repricing_sets_the_list_price_only() {
    let mut r = record(1, 100, None);
    r.list_price = Some(1300);
    let mine = Some(listing("L1", "me", 1300));
    let action = plan(ModuleKind::Items, &mut r, &competitors(), &mine, &me(), 1, 10);
    assert_eq!(action, ListingAction::Update { listing_id: "L1".to_string(), price: 1199 });
    settle(&mut r, &action, 11);
    assert_eq!(r.list_price, Some(1199));
    assert_eq!(r.status, StockStatus::Pending);
}

#[test]
fn settling_nothing_changes_nothing() {
    let mut r = record(1, 100, None);
    let before = r.clone();
    settle(&mut r, &ListingAction::Nothing, 99);
    assert_eq!(r, before);
}

#[test]
fn variant_pass_accepts_only_the_matching_listing() {
    let mut r = record(1, 100, None);
    r.sub_type = Some(SubType::new(Some(5), None, None, None));
    r.list_price = Some(1300);
    let other = Some(variant_listing("L0", "me", 1300, 0));
    let action = plan(ModuleKind::Variants, &mut r, &competitors(), &other, &me(), 1, 10);
    assert_eq!(action, ListingAction::Create { price: 1199, quantity: 1 });

    let mut s = record(1, 100, None);
    s.sub_type = Some(SubType::new(Some(5), None, None, None));
    s.list_price = Some(1300);
    let same = Some(variant_listing("L5", "me", 1300, 5));
    let action = plan(ModuleKind::Variants, &mut s, &competitors(), &same, &me(), 1, 10);
    assert_eq!(action, ListingAction::Update { listing_id: "L5".to_string(), price: 1199 });
}

#[test]
fn variant_pass_never_withdraws_another_variants_listing() {
    let mut r = record(0, 100, None);
    r.sub_type = Some(SubType::new(Some(5), None, None, None));
    let other = Some(variant_listing("L0", "me", 1300, 0));
    let action = plan(ModuleKind::Variants, &mut r, &competitors(), &other, &me(), 1, 10);
    assert_eq!(action, ListingAction::Nothing);
    let same = Some(variant_listing("L5", "me", 1300, 5));
    let action = plan(ModuleKind::Variants, &mut r, &competitors(), &same, &me(), 1, 10);
    assert_eq!(action, ListingAction::Delete { listing_id: "L5".to_string() });
}

#[test]
fn each_pass_only_works_on_its_own_family() {
    let plain = record(1, 100, None);
    let mut variant = record(1, 100, None);
    variant.sub_type = Some(SubType::new_empty());
    assert!(is_in_scope(ModuleKind::Items, &plain));
    assert!(!is_in_scope(ModuleKind::Variants, &plain));
    assert!(is_in_scope(ModuleKind::Variants, &variant));
    assert!(!is_in_scope(ModuleKind::Items, &variant));
    let before = variant.clone();
    let action = plan(ModuleKind::Items, &mut variant, &competitors(), &None, &me(), 1, 10);
    assert_eq!(action, ListingAction::Nothing);
    assert_eq!(variant, before);
}
