use hap::accessory::lightbulb;
use hap::db::AccessoryList;
use hap::transport::http::{EventSubscriptions, Status, WriteObject};
use hap::transport::registry::SubscriptionRegistry;
use hap::{Accessory, Emitter, Event, Information, Perm, Value};

fn bulbs() -> AccessoryList<Accessory> {
    let mut list = AccessoryList::new(Emitter::new());
    list.add_accessory(lightbulb::new(Information::default()).unwrap()).unwrap();
    list.add_accessory(lightbulb::new(Information::default()).unwrap()).unwrap();
    list
}

fn sorted(mut sessions: Vec<u64>) -> Vec<u64> {
    sessions.sort();
    sessions
}

fn flag(aid: u64, iid: u64, ev: bool) -> WriteObject {
    WriteObject { iid, aid, ev: Some(ev), value: None }
}

#[test]
fn a_set_keeps_the_order_of_subscription() {
    let mut set = EventSubscriptions::new();
    set.reconcile(2, 10, true);
    set.reconcile(1, 8, true);
    set.reconcile(2, 11, true);
    assert_eq!(set.pairs(), &vec![(2, 10), (1, 8), (2, 11)]);
    assert_eq!(set.position(1, 8), Some(1));
    assert_eq!(set.position(1, 9), None);
    assert!(set.contains(2, 11));
    set.reconcile(1, 8, false);
    assert_eq!(set.pairs(), &vec![(2, 10), (2, 11)]);
    assert!(!set.contains(1, 8));
}

#[test]
fn subscribing_twice_is_subscribing_once() {
    let mut set = EventSubscriptions::new();
    set.reconcile(2, 10, true);
    set.reconcile(3, 10, true);
    let once = set.pairs().clone();
    set.reconcile(2, 10, true);
    assert_eq!(set.pairs(), &once);
    set.reconcile(2, 10, false);
    let once = set.pairs().clone();
    assert_eq!(once, vec![(3, 10)]);
    set.reconcile(2, 10, false);
    assert_eq!(set.pairs(), &once);
}

#[test]
fn a_set_drops_the_pairs_of_an_accessory() {
    let mut set = EventSubscriptions::new();
    for (aid, iid) in [(1, 1), (2, 1), (1, 2), (3, 1), (2, 2)] {
        set.reconcile(aid, iid, true);
    }
    set.drop_accessory(2);
    assert_eq!(set.pairs(), &vec![(1, 1), (1, 2), (3, 1)]);
    set.drop_accessory(7);
    assert_eq!(set.pairs(), &vec![(1, 1), (1, 2), (3, 1)]);
}

#[test]
fn writing_the_flag_twice_leaves_the_subscriptions() {
    let mut list = bulbs();
    let mut session = EventSubscriptions::new();
    assert_eq!(list.write_characteristic(flag(1, 8, true), &mut session).status, 0);
    let once = session.pairs().clone();
    assert_eq!(once, vec![(1, 8)]);
    assert_eq!(list.write_characteristic(flag(1, 8, true), &mut session).status, 0);
    assert_eq!(session.pairs(), &once);
    assert_eq!(list.read_characteristic(1, 8, false, false, false, true).ev, Some(true));
    assert_eq!(list.write_characteristic(flag(1, 8, false), &mut session).status, 0);
    assert!(session.pairs().is_empty());
    assert_eq!(list.write_characteristic(flag(1, 8, false), &mut session).status, 0);
    assert!(session.pairs().is_empty());
    assert_eq!(list.read_characteristic(1, 8, false, false, false, true).ev, Some(false));
}

#[test]
fn subscription_needs_the_events_permission() {
    let mut list = AccessoryList::new(Emitter::new());
    let mut services = lightbulb::new(Information::default()).unwrap().services;
    services[1].characteristics[0].perms = vec![Perm::PairedRead, Perm::PairedWrite];
    list.add_accessory(Accessory::new(services)).unwrap();
    let mut session = EventSubscriptions::new();
    let refused = WriteObject { iid: 8, aid: 1, ev: Some(true), value: Some(Value::Bool(true)) };
    let response = list.write_characteristic(refused, &mut session);
    assert_eq!(response.status, Status::NotificationNotSupported.code());
    assert_eq!(response.status, -70406);
    assert!(session.pairs().is_empty());
    let read = list.read_characteristic(1, 8, false, false, false, true);
    assert_eq!(read.value, Some(Value::Bool(false)));
    assert_eq!(read.ev, None);
    assert_eq!(list.event_emitter().pending_count(), 0);
}

#[test]
fn the_flag_is_applied_before_the_value() {
    let mut list = AccessoryList::new(Emitter::new());
    let mut services = lightbulb::new(Information::default()).unwrap().services;
    services[1].characteristics[0].perms = vec![Perm::PairedRead, Perm::Events];
    list.add_accessory(Accessory::new(services)).unwrap();
    let mut session = EventSubscriptions::new();
    let both = WriteObject { iid: 8, aid: 1, ev: Some(true), value: Some(Value::Bool(true)) };
    let response = list.write_characteristic(both, &mut session);
    assert_eq!(response.status, -70404);
    assert_eq!(session.pairs(), &vec![(1, 8)]);
    let read = list.read_characteristic(1, 8, false, false, false, true);
    assert_eq!(read.value, Some(Value::Bool(false)));
    assert_eq!(read.ev, Some(true));
}

#[test]
fn a_value_that_does_not_fit_is_refused() {
    let mut list = bulbs();
    let mut session = EventSubscriptions::new();
    let text = WriteObject { iid: 8, aid: 1, ev: None, value: Some(Value::Str("on".to_string())) };
    assert_eq!(list.write_characteristic(text, &mut session).status, -70410);
    let number = WriteObject { iid: 8, aid: 1, ev: None, value: Some(Value::UInt(2)) };
    assert_eq!(list.write_characteristic(number, &mut session).status, -70410);
    assert_eq!(list.read_characteristic(1, 8, false, false, false, false).value, Some(Value::Bool(false)));
    let one = WriteObject { iid: 8, aid: 1, ev: None, value: Some(Value::UInt(1)) };
    assert_eq!(list.write_characteristic(one, &mut session).status, 0);
    assert_eq!(list.read_characteristic(1, 8, false, false, false, false).value, Some(Value::Bool(true)));
}

#[test]
fn the_registry_keeps_sessions_apart() {
    let mut registry = SubscriptionRegistry::new();
    registry.subscribe(7, 2, 10);
    registry.subscribe(4, 2, 10);
    registry.subscribe(7, 3, 10);
    registry.subscribe(7, 2, 10);
    assert_eq!(registry.subscriptions_of(7), vec![(2, 10), (3, 10)]);
    assert_eq!(registry.subscriptions_of(4), vec![(2, 10)]);
    assert_eq!(registry.subscriptions_of(5), vec![]);
    assert_eq!(sorted(registry.subscribers_of(2, 10)), vec![4, 7]);
    assert_eq!(sorted(registry.subscribers_of(3, 10)), vec![7]);
    assert_eq!(registry.subscribers_of(3, 11), Vec::<u64>::new());
    registry.unsubscribe(7, 2, 10);
    registry.unsubscribe(7, 2, 10);
    registry.unsubscribe(9, 2, 10);
    assert_eq!(registry.subscriptions_of(7), vec![(3, 10)]);
    assert_eq!(sorted(registry.subscribers_of(2, 10)), vec![4]);
}

#[test]
fn a_dropped_session_receives_nothing() {
    let mut registry = SubscriptionRegistry::new();
    registry.subscribe(1, 2, 10);
    registry.subscribe(2, 2, 10);
    registry.subscribe(3, 2, 10);
    registry.drop_session(2);
    registry.drop_session(8);
    assert_eq!(sorted(registry.subscribers_of(2, 10)), vec![1, 3]);
    assert_eq!(registry.subscriptions_of(2), vec![]);
    let event = Event::CharacteristicValueChanged { aid: 2, iid: 10, value: Value::UInt(1) };
    assert_eq!(sorted(registry.notification_targets(&event)), vec![1, 3]);
    let id = "c".to_string();
    assert_eq!(registry.notification_targets(&Event::ControllerPaired { id }), Vec::<u64>::new());
}

#[test]
fn the_registry_drops_an_accessory_everywhere() {
    let mut registry = SubscriptionRegistry::new();
    registry.subscribe(1, 2, 10);
    registry.subscribe(1, 3, 8);
    registry.subscribe(2, 2, 11);
    registry.drop_accessory(2);
    assert_eq!(registry.subscriptions_of(1), vec![(3, 8)]);
    assert_eq!(registry.subscriptions_of(2), vec![]);
}

#[test]
fn a_session_is_taken_out_and_put_back() {
    let mut registry = SubscriptionRegistry::new();
    registry.subscribe(1, 2, 10);
    registry.subscribe(2, 2, 10);
    let mut taken = registry.take_session(1);
    assert_eq!(taken.pairs(), &vec![(2, 10)]);
    assert_eq!(registry.subscriptions_of(1), vec![]);
    taken.reconcile(3, 10, true);
    registry.put_session(1, taken);
    assert_eq!(registry.subscriptions_of(1), vec![(2, 10), (3, 10)]);
    assert_eq!(sorted(registry.subscribers_of(2, 10)), vec![1, 2]);
    let fresh = registry.take_session(5);
    assert!(fresh.pairs().is_empty());
    registry.put_session(6, fresh);
    registry.subscribe(5, 2, 10);
    registry.subscribe(6, 2, 10);
    assert_eq!(sorted(registry.subscribers_of(2, 10)), vec![1, 2, 5, 6]);
}
