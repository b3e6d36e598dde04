use arb_watch::amount::{ScaledAmount, SignedAmount};
use arb_watch::evaluate::{Opportunity, SourceId};
use arb_watch::store::OpportunityStore;

fn sample(profit_units: u128) -> Opportunity {
    Opportunity {
        buy_source: SourceId::A,
        sell_source: SourceId::B,
        amount_in: ScaledAmount { units: 1000, decimals: 18 },
        amount_out_buy: ScaledAmount { units: 100, decimals: 6 },
        amount_out_sell: ScaledAmount { units: 110, decimals: 6 },
        profit: SignedAmount { negative: false, units: profit_units, decimals: 6 },
    }
}

#[test]
fn empty_store_lists_nothing() {
    let store = OpportunityStore::new();
    assert_eq!(store.len(), 0);
    assert!(store.list_descending().is_empty());
}

#[test]
fn round_trip_reverses_insertion_order() {
    let mut store = OpportunityStore::new();
    store.append(String::from("t1"), sample(1));
    store.append(String::from("t2"), sample(2));
    store.append(String::from("t3"), sample(3));
    assert_eq!(store.len(), 3);
    let listed = store.list_descending();
    assert_eq!(listed.len(), 3);
    assert_eq!(listed[0].timestamp, "t3");
    assert_eq!(listed[1].timestamp, "t2");
    assert_eq!(listed[2].timestamp, "t1");
    assert_eq!(listed[0].opportunity.profit.units, 3);
    assert_eq!(listed[1].opportunity.profit.units, 2);
    assert_eq!(listed[2].opportunity.profit.units, 1);
}

#[test]
fn interleaved_writers_each_appear_exactly_once() {
    // Two writers sharing the store take turns; every append lands exactly
    // once and listing stays strictly reverse-chronological.
    let mut store = OpportunityStore::new();
    for i in 0..4u128 {
        store.append(format!("a{}", i), sample(i));
        store.append(format!("b{}", i), sample(100 + i));
    }
    assert_eq!(store.len(), 8);
    let listed = store.list_descending();
    assert_eq!(listed.len(), 8);
    for i in 0..4u128 {
        let a = format!("a{}", i);
        let b = format!("b{}", i);
        assert_eq!(listed.iter().filter(|r| r.timestamp == a).count(), 1);
        assert_eq!(listed.iter().filter(|r| r.timestamp == b).count(), 1);
    }
    assert_eq!(listed[0].timestamp, "b3");
    assert_eq!(listed[7].timestamp, "a0");
}

#[test]
fn append_now_stamps_and_appends() {
    let mut store = OpportunityStore::new();
    store.append_now(sample(7));
    assert_eq!(store.len(), 1);
    let listed = store.list_descending();
    assert_eq!(listed[0].opportunity.profit.units, 7);
    // RFC 3339 wall-clock text: non-empty, with a date separator.
    assert!(listed[0].timestamp.contains('-'));
}

#[test]
fn listing_does_not_consume_the_store() {
    let mut store = OpportunityStore::new();
    store.append(String::from("t1"), sample(1));
    let first = store.list_descending();
    let second = store.list_descending();
    assert_eq!(first.len(), 1);
    assert_eq!(second.len(), 1);
    assert_eq!(store.len(), 1);
}
