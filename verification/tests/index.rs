use trading_cache::identifiers::{
    AccountId, ClientId, ClientOrderId, ComponentId, ExecAlgorithmId, Id, InstrumentId, PositionId,
    StrategyId, Venue, VenueOrderId,
};
use trading_cache::index::CacheIndex;
use trading_cache::validation::ValidationError;

fn order(value: &str) -> ClientOrderId {
    ClientOrderId::new(value).unwrap()
}

fn strategy(value: &str) -> StrategyId {
    StrategyId::new(value).unwrap()
}

fn client(value: &str) -> ClientId {
    ClientId::new(value).unwrap()
}

fn instrument(value: &str) -> InstrumentId {
    InstrumentId::new(value).unwrap()
}

fn position(value: &str) -> PositionId {
    PositionId::new(value).unwrap()
}

fn text<K>(id: Option<&Id<K>>) -> Option<&str> {
    id.map(|id| id.as_str())
}

#[test]
fn identifiers_compare_by_their_string() {
    assert!(order("O-1").same_as(&order("O-1")));
    assert!(!order("O-1").same_as(&order("O-2")));
    assert!(order("O-1").same_as(&order("O-1").duplicate()));
}

#[test]
fn identifiers_validate_their_string() {
    assert_eq!(order("O-1").as_str(), "O-1");
    assert_eq!(order("O-1").duplicate().as_str(), "O-1");
    assert_eq!(ClientOrderId::new("").err(), Some(ValidationError::InvalidIdentifier));
    assert_eq!(Venue::new("  ").err(), Some(ValidationError::InvalidIdentifier));
    assert_eq!(StrategyId::new("S-\u{fc}").err(), Some(ValidationError::InvalidIdentifier));
}

#[test]
fn linked_then_open_then_closed() {
    let mut index = CacheIndex::new();
    let o = order("O-1");
    let s = strategy("S-001");
    let i = instrument("AUDUSD.SIM");
    index.link_order(&o, &s, &client("C-1"), &i, None, None);
    index.mark_order_open(&o);
    assert!(index.is_order_open(&o));
    assert!(!index.is_order_closed(&o));
    index.mark_order_closed(&o);

    assert!(index.order_exists(&o));
    assert!(index.is_order_closed(&o));
    assert!(!index.is_order_open(&o));
    assert_eq!(text(index.strategy_for_order(&o)), Some("S-001"));
    assert!(index.strategy_has_order(&s, &o));
    assert!(index.instrument_has_order(&i, &o));
    assert_eq!(text(index.client_for_order(&o)), Some("C-1"));
}

#[test]
fn a_new_order_counts_as_open_until_it_is_closed() {
    let mut index = CacheIndex::new();
    let o = order("O-1");
    let s = strategy("S-1");
    let c = client("C-1");
    let i = instrument("I.V");
    index.link_order(&o, &s, &c, &i, None, None);
    assert!(index.order_exists(&o));
    assert!(index.is_order_open(&o));
    assert!(!index.is_order_closed(&o));
    assert_eq!(index.open_order_count(), 1);

    index.mark_order_closed(&o);
    index.link_order(&o, &s, &c, &i, None, None);
    assert!(index.is_order_closed(&o));
    assert!(!index.is_order_open(&o));
    assert_eq!(index.open_order_count(), 0);
}

#[test]
fn every_way_of_meeting_an_order_registers_it_as_open() {
    let v = Venue::new("SIM").unwrap();
    let e = ExecAlgorithmId::new("TWAP").unwrap();
    let vo = VenueOrderId::new("V-1").unwrap();
    let mut index = CacheIndex::new();
    index.link_venue_order(&v, &order("O-1"));
    index.link_spawned_order(&e, &order("O-2"));
    index.link_venue_order_id(&vo, &order("O-3"));
    index.mark_order_emulated(&order("O-4"));
    index.mark_order_inflight(&order("O-5"));
    index.mark_order_pending_cancel(&order("O-6"));
    index.mark_order_closed(&order("O-7"));
    for n in 1..=6 {
        let o = order(&format!("O-{n}"));
        assert!(index.order_exists(&o));
        assert!(index.is_order_open(&o));
        assert!(!index.is_order_closed(&o));
    }
    assert!(index.is_order_closed(&order("O-7")));
    assert!(!index.is_order_open(&order("O-7")));
    assert_eq!(index.open_order_count(), 6);

    index.link_venue_position(&v, &position("P-1"));
    index.link_order(
        &order("O-1"),
        &strategy("S-1"),
        &client("C-1"),
        &instrument("I.V"),
        Some(&position("P-2")),
        None,
    );
    assert!(index.is_position_open(&position("P-1")));
    assert!(index.is_position_open(&position("P-2")));
    assert_eq!(index.open_position_count(), 2);
}

#[test]
fn linking_twice_changes_nothing() {
    let mut index = CacheIndex::new();
    let o = order("O-1");
    let s = strategy("S-1");
    let c = client("C-1");
    let i = instrument("I.V");
    let p = position("P-1");
    let e = ExecAlgorithmId::new("TWAP").unwrap();
    index.link_order(&o, &s, &c, &i, Some(&p), Some(&e));
    index.link_order(&o, &s, &c, &i, Some(&p), Some(&e));
    assert_eq!(text(index.strategy_for_order(&o)), Some("S-1"));
    assert_eq!(text(index.position_for_order(&o)), Some("P-1"));
    assert!(index.position_has_order(&p, &o));
    assert!(index.position_exists(&p));
    assert!(index.exec_algorithm_manages(&e, &o));
    assert!(!index.exec_algorithm_spawned(&e, &o));
}

#[test]
fn strategy_client_and_position_are_set_once() {
    let mut index = CacheIndex::new();
    let o = order("O-1");
    let i = instrument("I.V");
    index.link_order(&o, &strategy("S-1"), &client("C-1"), &i, Some(&position("P-1")), None);
    index.link_order(&o, &strategy("S-2"), &client("C-2"), &i, Some(&position("P-2")), None);
    assert_eq!(text(index.strategy_for_order(&o)), Some("S-1"));
    assert_eq!(text(index.client_for_order(&o)), Some("C-1"));
    assert_eq!(text(index.position_for_order(&o)), Some("P-1"));
    assert!(index.strategy_has_order(&strategy("S-1"), &o));
    assert!(!index.strategy_has_order(&strategy("S-2"), &o));
    assert!(index.position_has_order(&position("P-1"), &o));
    assert!(!index.position_has_order(&position("P-2"), &o));
    assert!(!index.position_exists(&position("P-2")));
}

#[test]
fn position_is_added_by_a_later_link() {
    let mut index = CacheIndex::new();
    let o = order("O-1");
    let i = instrument("I.V");
    index.link_order(&o, &strategy("S-1"), &client("C-1"), &i, None, None);
    assert_eq!(text(index.position_for_order(&o)), None);
    index.link_order(&o, &strategy("S-1"), &client("C-1"), &i, Some(&position("P-7")), None);
    assert_eq!(text(index.position_for_order(&o)), Some("P-7"));
}

#[test]
fn positions_are_linked_and_marked() {
    let mut index = CacheIndex::new();
    let p = position("P-1");
    let s = strategy("S-1");
    let i = instrument("I.V");
    index.link_position(&p, &s, &i);
    index.link_position(&p, &strategy("S-9"), &i);
    assert!(index.position_exists(&p));
    assert_eq!(text(index.strategy_for_position(&p)), Some("S-1"));
    assert!(index.strategy_has_position(&s, &p));
    assert!(!index.strategy_has_position(&strategy("S-9"), &p));
    assert!(index.instrument_has_position(&i, &p));
    assert!(index.is_position_open(&p));
    assert!(!index.is_position_closed(&p));
    assert_eq!(index.open_position_count(), 1);
    index.mark_position_closed(&p);
    assert!(index.is_position_closed(&p));
    assert!(!index.is_position_open(&p));
    assert_eq!(index.open_position_count(), 0);
    index.mark_position_open(&p);
    assert!(index.is_position_open(&p));
    assert!(!index.is_position_closed(&p));
}

#[test]
fn marking_registers_an_unseen_order() {
    let mut index = CacheIndex::new();
    let o = order("O-5");
    index.mark_order_open(&o);
    assert!(index.order_exists(&o));
    assert!(index.is_order_open(&o));
    assert_eq!(index.open_order_count(), 1);
}

#[test]
fn tags_flip_and_leave_open_and_closed_alone() {
    let mut index = CacheIndex::new();
    let o = order("O-1");
    index.mark_order_open(&o);
    assert!(index.mark_order_emulated(&o));
    assert!(index.mark_order_inflight(&o));
    assert!(index.mark_order_pending_cancel(&o));
    assert!(index.is_order_emulated(&o));
    assert!(index.is_order_inflight(&o));
    assert!(index.is_order_pending_cancel(&o));
    assert!(index.is_order_open(&o));

    assert!(!index.mark_order_inflight(&o));
    assert!(!index.is_order_inflight(&o));
    assert!(index.is_order_emulated(&o));
    assert!(index.is_order_pending_cancel(&o));
    assert!(index.is_order_open(&o));
    assert!(!index.mark_order_emulated(&o));
    assert!(!index.mark_order_pending_cancel(&o));
    assert!(!index.is_order_emulated(&o));
    assert!(!index.is_order_pending_cancel(&o));
}

#[test]
fn venue_links_and_accounts() {
    let mut index = CacheIndex::new();
    let v = Venue::new("SIM").unwrap();
    let o = order("O-1");
    let p = position("P-1");
    index.link_venue_order(&v, &o);
    index.link_venue_position(&v, &p);
    assert!(index.venue_has_order(&v, &o));
    assert!(index.venue_has_position(&v, &p));
    assert!(!index.venue_has_order(&Venue::new("OTHER").unwrap(), &o));
    assert!(index.order_exists(&o));
    assert!(index.position_exists(&p));

    assert_eq!(text(index.account_for_venue(&v)), None);
    index.set_venue_account(&v, &AccountId::new("SIM-001").unwrap());
    index.set_venue_account(&v, &AccountId::new("SIM-002").unwrap());
    assert_eq!(text(index.account_for_venue(&v)), Some("SIM-002"));

    let vo = VenueOrderId::new("V-1").unwrap();
    index.link_venue_order_id(&vo, &o);
    assert_eq!(text(index.client_order_id(&vo)), Some("O-1"));
}

#[test]
fn spawned_orders_are_managed_too() {
    let mut index = CacheIndex::new();
    let e = ExecAlgorithmId::new("TWAP").unwrap();
    let o = order("O-1");
    index.link_spawned_order(&e, &o);
    assert!(index.exec_algorithm_spawned(&e, &o));
    assert!(index.exec_algorithm_manages(&e, &o));
    assert!(index.order_exists(&o));
}

#[test]
fn registries_hold_what_was_registered() {
    let mut index = CacheIndex::new();
    let a = ComponentId::new("Actor-1").unwrap();
    let s = strategy("S-1");
    let e = ExecAlgorithmId::new("TWAP").unwrap();
    assert!(!index.actor_exists(&a));
    index.register_actor(&a);
    index.register_strategy(&s);
    index.register_exec_algorithm(&e);
    assert!(index.actor_exists(&a));
    assert!(index.strategy_exists(&s));
    assert!(index.exec_algorithm_exists(&e));
}

#[test]
fn clear_forgets_every_key() {
    let mut index = CacheIndex::new();
    let o = order("O-1");
    let s = strategy("S-1");
    let c = client("C-1");
    let i = instrument("I.V");
    let p = position("P-1");
    let e = ExecAlgorithmId::new("TWAP").unwrap();
    let v = Venue::new("SIM").unwrap();
    let vo = VenueOrderId::new("V-1").unwrap();
    let a = ComponentId::new("Actor-1").unwrap();
    index.link_order(&o, &s, &c, &i, Some(&p), Some(&e));
    index.link_position(&p, &s, &i);
    index.link_spawned_order(&e, &o);
    index.link_venue_order(&v, &o);
    index.link_venue_position(&v, &p);
    index.set_venue_account(&v, &AccountId::new("SIM-001").unwrap());
    index.link_venue_order_id(&vo, &o);
    index.register_actor(&a);
    index.register_strategy(&s);
    index.register_exec_algorithm(&e);
    index.mark_order_open(&o);
    index.mark_order_emulated(&o);
    index.mark_order_inflight(&o);
    index.mark_order_pending_cancel(&o);
    index.mark_position_open(&p);

    index.clear();

    assert!(!index.order_exists(&o));
    assert!(!index.is_order_open(&o));
    assert!(!index.is_order_closed(&o));
    assert!(!index.is_order_emulated(&o));
    assert!(!index.is_order_inflight(&o));
    assert!(!index.is_order_pending_cancel(&o));
    assert!(!index.position_exists(&p));
    assert!(!index.is_position_open(&p));
    assert!(!index.is_position_closed(&p));
    assert!(!index.actor_exists(&a));
    assert!(!index.strategy_exists(&s));
    assert!(!index.exec_algorithm_exists(&e));
    assert_eq!(text(index.account_for_venue(&v)), None);
    assert_eq!(text(index.client_order_id(&vo)), None);
    assert_eq!(text(index.position_for_order(&o)), None);
    assert_eq!(text(index.strategy_for_order(&o)), None);
    assert_eq!(text(index.client_for_order(&o)), None);
    assert_eq!(text(index.strategy_for_position(&p)), None);
    assert!(!index.venue_has_order(&v, &o));
    assert!(!index.venue_has_position(&v, &p));
    assert!(!index.position_has_order(&p, &o));
    assert!(!index.instrument_has_order(&i, &o));
    assert!(!index.instrument_has_position(&i, &p));
    assert!(!index.strategy_has_order(&s, &o));
    assert!(!index.strategy_has_position(&s, &p));
    assert!(!index.exec_algorithm_manages(&e, &o));
    assert!(!index.exec_algorithm_spawned(&e, &o));
    assert_eq!(index.open_order_count(), 0);
    assert_eq!(index.open_position_count(), 0);
}
