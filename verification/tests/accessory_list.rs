use hap::accessory::{bridge, lightbulb};
use hap::db::{AccessoryHandle, AccessoryList, AccessoryListMember};
use hap::transport::characteristics::{get_characteristics, put_characteristics};
use hap::transport::http::{EventSubscriptions, WriteObject};
use hap::transport::registry::SubscriptionRegistry;
use hap::{
    Accessory, Characteristic, Emitter, Event, Format, HapError, Information, Perm, Service, Value,
};

fn named(name: &str) -> Information {
    Information { name: name.to_string(), ..Default::default() }
}

fn full(name: &str) -> Information {
    Information {
        name: name.to_string(),
        hardware_revision: Some("1.0".to_string()),
        accessory_flags: Some(0),
        ..Default::default()
    }
}

fn home() -> AccessoryList<Accessory> {
    let mut list = AccessoryList::new(Emitter::new());
    list.add_accessory(bridge::new(full("Bridge")).unwrap()).unwrap();
    list.add_accessory(lightbulb::new(full("Bulb 1")).unwrap()).unwrap();
    list.add_accessory(lightbulb::new(full("Bulb 2")).unwrap()).unwrap();
    list
}

fn write(aid: u64, iid: u64, value: Option<Value>, ev: Option<bool>) -> WriteObject {
    WriteObject { iid, aid, ev, value }
}

fn sensor() -> Accessory {
    let level = Characteristic::new(
        "00000011-0000-1000-8000-0026BB765291".to_string(),
        Format::UInt8,
        vec![Perm::PairedRead],
        Value::UInt(20),
        None,
        Some(Value::UInt(100)),
        Some(Value::UInt(0)),
        Some(Value::UInt(5)),
        None,
    )
    .unwrap();
    Accessory::new(vec![Service::new("0000008A-0000-1000-8000-0026BB765291".to_string(), vec![level])])
}

#[test]
fn new_list_is_empty() {
    let list: AccessoryList<Accessory> = AccessoryList::new(Emitter::new());
    assert_eq!(list.accessories().len(), 0);
    assert_eq!(list.as_bytes().unwrap(), b"{\"accessories\":[]}".to_vec());
}

#[test]
fn accessory_ids_count_from_one() {
    let mut list = AccessoryList::new(Emitter::new());
    let a = list.add_accessory(bridge::new(named("Bridge")).unwrap()).unwrap();
    let b = list.add_accessory(lightbulb::new(named("Bulb 1")).unwrap()).unwrap();
    let c = list.add_accessory(lightbulb::new(named("Bulb 2")).unwrap()).unwrap();
    assert_eq!(a, AccessoryHandle { aid: 1 });
    assert_eq!(b, AccessoryHandle { aid: 2 });
    assert_eq!(c, AccessoryHandle { aid: 3 });
    let ids: Vec<u64> = list.accessories().iter().map(|a| a.get_id()).collect();
    assert_eq!(ids, vec![1, 2, 3]);
}

#[test]
fn instance_ids_follow_the_walk() {
    let mut list = AccessoryList::new(Emitter::new());
    list.add_accessory(lightbulb::new(named("Bulb")).unwrap()).unwrap();
    let bulb = &list.accessories()[0];
    let information = &bulb.services[0];
    let ids: Vec<u64> = information.characteristics.iter().map(|c| c.id).collect();
    assert_eq!(ids, vec![1, 2, 3, 4, 5, 6]);
    assert_eq!(information.id, 7);
    assert_eq!(bulb.services[1].characteristics[0].id, 8);
    assert_eq!(bulb.services[1].id, 9);
    assert!(information.characteristics.iter().all(|c| c.accessory_id == 1));
}

#[test]
fn instance_ids_are_pairwise_distinct() {
    let list = home();
    for accessory in list.accessories().iter() {
        let mut ids: Vec<u64> = Vec::new();
        for service in accessory.get_services().iter() {
            ids.push(service.id);
            for c in service.characteristics.iter() {
                ids.push(c.id);
            }
        }
        let count = ids.len();
        ids.sort();
        ids.dedup();
        assert_eq!(ids.len(), count);
        assert!(ids.iter().all(|id| *id >= 1));
    }
}

#[test]
fn an_added_accessory_is_refused() {
    let mut list = AccessoryList::new(Emitter::new());
    let mut bulb = lightbulb::new(named("Bulb")).unwrap();
    bulb.id = 7;
    assert_eq!(list.add_accessory(bulb), Err(HapError::DuplicateAccessory));
    assert_eq!(list.accessories().len(), 0);
    let fresh = list.add_accessory(lightbulb::new(named("Bulb")).unwrap()).unwrap();
    assert_eq!(fresh.aid, 1);
}

#[test]
fn removed_ids_are_not_used_again() {
    let mut list = home();
    let mut registry = SubscriptionRegistry::new();
    assert_eq!(list.remove_accessory(&AccessoryHandle { aid: 2 }, &mut registry), Ok(()));
    let ids: Vec<u64> = list.accessories().iter().map(|a| a.get_id()).collect();
    assert_eq!(ids, vec![1, 3]);
    let again = list.add_accessory(lightbulb::new(named("Bulb 3")).unwrap()).unwrap();
    assert_eq!(again.aid, 4);
    let ids: Vec<u64> = list.accessories().iter().map(|a| a.get_id()).collect();
    assert_eq!(ids, vec![1, 3, 4]);
    let read = list.read_characteristic(2, 10, false, false, false, false);
    assert_eq!(read.status, Some(-70409));
}

#[test]
fn removing_an_unknown_accessory_fails() {
    let mut list = home();
    let mut registry = SubscriptionRegistry::new();
    registry.subscribe(5, 2, 10);
    assert_eq!(
        list.remove_accessory(&AccessoryHandle { aid: 9 }, &mut registry),
        Err(HapError::NotFound)
    );
    assert_eq!(list.accessories().len(), 3);
    assert_eq!(registry.subscriptions_of(5), vec![(2, 10)]);
    assert_eq!(HapError::NotFound.message(), "couldn't find the Accessory to remove");
}

#[test]
fn removal_drops_the_subscriptions_of_the_accessory() {
    let mut list = home();
    let mut registry = SubscriptionRegistry::new();
    registry.subscribe(5, 2, 10);
    registry.subscribe(5, 3, 10);
    registry.subscribe(6, 2, 10);
    list.remove_accessory(&AccessoryHandle { aid: 2 }, &mut registry).unwrap();
    assert_eq!(registry.subscriptions_of(5), vec![(3, 10)]);
    assert_eq!(registry.subscriptions_of(6), vec![]);
    assert_eq!(registry.subscribers_of(2, 10), Vec::<u64>::new());
    assert_eq!(registry.subscribers_of(3, 10), vec![5]);
}

#[test]
fn read_of_a_readable_characteristic() {
    let list = home();
    let plain = list.read_characteristic(2, 10, false, false, false, false);
    assert_eq!(plain.aid, 2);
    assert_eq!(plain.iid, 10);
    assert_eq!(plain.status, Some(0));
    assert_eq!(plain.value, Some(Value::Bool(false)));
    assert_eq!(plain.format, None);
    assert_eq!(plain.perms, None);
    assert_eq!(plain.hap_type, None);
    assert_eq!(plain.ev, None);
    let all = list.read_characteristic(2, 10, true, true, true, true);
    assert_eq!(all.format, Some(Format::Bool));
    assert_eq!(all.perms, Some(vec![Perm::PairedRead, Perm::PairedWrite, Perm::Events]));
    assert_eq!(all.hap_type, Some("00000025-0000-1000-8000-0026BB765291".to_string()));
    assert_eq!(all.ev, None);
    assert_eq!(all.unit, None);
    assert_eq!(all.max_len, None);
}

#[test]
fn read_hands_out_the_metadata() {
    let mut list = AccessoryList::new(Emitter::new());
    list.add_accessory(sensor()).unwrap();
    let without = list.read_characteristic(1, 1, false, true, true, true);
    assert_eq!(without.value, Some(Value::UInt(20)));
    assert_eq!(without.max_value, None);
    assert_eq!(without.min_value, None);
    assert_eq!(without.step_value, None);
    let with = list.read_characteristic(1, 1, true, false, false, false);
    assert_eq!(with.format, Some(Format::UInt8));
    assert_eq!(with.max_value, Some(Value::UInt(100)));
    assert_eq!(with.min_value, Some(Value::UInt(0)));
    assert_eq!(with.step_value, Some(Value::UInt(5)));
}

#[test]
fn read_of_a_write_only_characteristic() {
    let list = home();
    let identify = list.read_characteristic(2, 1, true, true, true, true);
    assert_eq!(identify.status, Some(-70405));
    assert_eq!(identify.value, None);
    assert_eq!(identify.format, None);
    assert_eq!(identify.perms, None);
    assert_eq!(identify.hap_type, None);
    assert_eq!(identify.ev, None);
}

#[test]
fn read_of_a_service_id_finds_nothing() {
    let list = home();
    assert_eq!(list.read_characteristic(2, 9, false, false, false, false).status, Some(-70409));
    assert_eq!(list.read_characteristic(2, 11, false, false, false, false).status, Some(-70409));
    assert_eq!(list.read_characteristic(2, 0, false, false, false, false).status, Some(-70409));
}

#[test]
fn write_sets_the_value_of_the_lightbulb() {
    let mut list = home();
    let mut session = EventSubscriptions::new();
    let writes = vec![write(2, 10, Some(Value::Bool(true)), None)];
    let (status, entries) = put_characteristics(&mut list, &writes, &mut session);
    assert_eq!(status, 204);
    assert_eq!(entries.len(), 1);
    assert_eq!((entries[0].aid, entries[0].iid, entries[0].status), (2, 10, 0));
    let (status, entries) = get_characteristics(&list, &vec![(2, 10)], false, false, false, false);
    assert_eq!(status, 200);
    assert_eq!(entries[0].value, Some(Value::Bool(true)));
    let other = list.read_characteristic(3, 10, false, false, false, false);
    assert_eq!(other.value, Some(Value::Bool(false)));
}

#[test]
fn write_to_a_read_only_characteristic() {
    let mut list = AccessoryList::new(Emitter::new());
    list.add_accessory(bridge::new(named("Bridge")).unwrap()).unwrap();
    let mut services = lightbulb::new(full("Bulb")).unwrap().services;
    services[1].characteristics[0].perms = vec![Perm::PairedRead];
    list.add_accessory(Accessory::new(services)).unwrap();
    let mut session = EventSubscriptions::new();
    let writes = vec![write(2, 10, Some(Value::Bool(true)), None)];
    let (status, entries) = put_characteristics(&mut list, &writes, &mut session);
    assert_eq!(status, 207);
    assert_eq!((entries[0].aid, entries[0].iid, entries[0].status), (2, 10, -70404));
    let read = list.read_characteristic(2, 10, false, false, false, false);
    assert_eq!(read.value, Some(Value::Bool(false)));
    assert_eq!(list.event_emitter().pending_count(), 0);
}

#[test]
fn write_of_a_notification_flag_subscribes_the_session() {
    let mut list = home();
    let mut registry = SubscriptionRegistry::new();
    let mut first = registry.take_session(1);
    let writes = vec![write(2, 10, None, Some(true))];
    let (status, _) = put_characteristics(&mut list, &writes, &mut first);
    assert_eq!(status, 204);
    assert_eq!(first.pairs(), &vec![(2, 10)]);
    registry.put_session(1, first);
    registry.subscribe(2, 3, 10);
    let mut third = registry.take_session(3);
    let writes = vec![write(2, 10, Some(Value::Bool(true)), None)];
    let (status, _) = put_characteristics(&mut list, &writes, &mut third);
    assert_eq!(status, 204);
    registry.put_session(3, third);
    let read = list.read_characteristic(2, 10, false, false, false, true);
    assert_eq!(read.ev, Some(true));
    let dispatch = list.next_dispatch().unwrap();
    assert_eq!(
        dispatch.event,
        Event::CharacteristicValueChanged { aid: 2, iid: 10, value: Value::Bool(true) }
    );
    assert_eq!(list.next_dispatch(), None);
    assert_eq!(registry.notification_targets(&dispatch.event), vec![1]);
    assert_eq!(registry.subscriptions_of(3), vec![]);
    assert_eq!(registry.notification_targets(&Event::DevicePaired), Vec::<u64>::new());
}

#[test]
fn read_of_a_missing_accessory() {
    let list = home();
    let (status, entries) = get_characteristics(&list, &vec![(9, 9)], false, false, false, false);
    assert_eq!(status, 207);
    assert_eq!(entries.len(), 1);
    assert_eq!((entries[0].aid, entries[0].iid), (9, 9));
    assert_eq!(entries[0].status, Some(-70409));
    assert_eq!(entries[0].value, None);
}

#[test]
fn write_to_a_missing_characteristic() {
    let mut list = home();
    let mut session = EventSubscriptions::new();
    let writes = vec![write(9, 9, Some(Value::Bool(true)), Some(true))];
    let (status, entries) = put_characteristics(&mut list, &writes, &mut session);
    assert_eq!(status, 207);
    assert_eq!(entries[0].status, -70409);
    assert!(session.pairs().is_empty());
    assert_eq!(list.event_emitter().pending_count(), 0);
}

#[test]
fn a_response_mixes_successes_and_failures() {
    let mut list = home();
    let (status, entries) =
        get_characteristics(&list, &vec![(2, 10), (2, 1), (7, 1)], false, false, false, false);
    assert_eq!(status, 207);
    let statuses: Vec<Option<i32>> = entries.iter().map(|e| e.status).collect();
    assert_eq!(statuses, vec![Some(0), Some(-70405), Some(-70409)]);
    let mut session = EventSubscriptions::new();
    let writes = vec![
        write(2, 10, Some(Value::Bool(true)), None),
        write(2, 2, Some(Value::Str("x".to_string())), None),
        write(3, 10, Some(Value::UInt(1)), Some(true)),
    ];
    let (status, entries) = put_characteristics(&mut list, &writes, &mut session);
    assert_eq!(status, 207);
    let statuses: Vec<i32> = entries.iter().map(|e| e.status).collect();
    assert_eq!(statuses, vec![0, -70404, 0]);
    assert_eq!(session.pairs(), &vec![(3, 10)]);
    assert_eq!(list.read_characteristic(3, 10, false, false, false, false).value, Some(Value::Bool(true)));
}

#[test]
fn no_request_gives_the_plain_status() {
    let mut list = home();
    let mut session = EventSubscriptions::new();
    assert_eq!(get_characteristics(&list, &vec![], true, true, true, true).0, 200);
    assert_eq!(put_characteristics(&mut list, &vec![], &mut session).0, 204);
}

#[test]
fn every_error_has_its_text() {
    assert_eq!(HapError::DuplicateAccessory.message(), "the Accessory has already been added");
    assert_eq!(HapError::IdSpaceExhausted.message(), "no instance id is left");
    assert_eq!(HapError::Serialization.message(), "couldn't serialize the value");
}

#[test]
fn instance_ids_are_counted_and_assigned() {
    let mut services = lightbulb::new(named("Bulb")).unwrap().services;
    assert_eq!(hap::db::iid::count_ids(&services), Some(9));
    assert_eq!(hap::db::iid::count_ids(&Vec::new()), Some(0));
    assert_eq!(hap::db::iid::assign_iids(&mut services, 4), Ok(()));
    assert_eq!(services[0].id, 7);
    assert_eq!(services[1].id, 9);
    assert_eq!(services[1].characteristics[0].id, 8);
    assert_eq!(services[1].characteristics[0].accessory_id, 4);
    let mut bulb = lightbulb::new(named("Bulb")).unwrap();
    bulb.set_id(3);
    assert_eq!(bulb.init_iids(3), Ok(()));
    assert_eq!(bulb.get_id(), 3);
    assert_eq!(bulb.get_services()[0].get_id(), 7);
    assert_eq!(bulb.get_mut_services()[1].get_characteristics()[0].id, 8);
    bulb.get_mut_services()[1].get_mut_characteristics()[0].set_event_notifications(Some(true));
    bulb.get_mut_services()[1].set_id(12);
    assert_eq!(bulb.services[1].characteristics[0].event_notifications, Some(true));
    assert_eq!(bulb.services[1].id, 12);
}

#[test]
fn information_that_is_too_long_is_refused() {
    let long = Information { name: "n".repeat(65), ..Default::default() };
    assert_eq!(bridge::new(long).err(), Some(HapError::InvalidValue));
    let long = Information { hardware_revision: Some("r".repeat(65)), ..Default::default() };
    assert_eq!(lightbulb::new(long).err(), Some(HapError::InvalidValue));
    let fits = Information { name: "n".repeat(64), ..Default::default() };
    let bulb = lightbulb::new(fits).unwrap();
    assert_eq!(bulb.services.len(), 2);
    assert_eq!(bulb.services[0].characteristics.len(), 6);
    assert_eq!(bulb.services[0].characteristics[3].value, Value::Str("n".repeat(64)));
    assert_eq!(bulb.services[0].characteristics[1].value, Value::Str("undefined".to_string()));
    let flagged = bridge::new(full("Bridge")).unwrap();
    assert_eq!(flagged.services.len(), 1);
    assert_eq!(flagged.services[0].characteristics.len(), 8);
    assert_eq!(flagged.services[0].characteristics[6].value, Value::Str("1.0".to_string()));
    assert_eq!(flagged.services[0].characteristics[7].value, Value::UInt(0));
    assert_eq!(flagged.services[0].characteristics[7].format, Format::UInt32);
}

#[test]
fn an_accessory_sets_its_own_value() {
    let mut list = AccessoryList::new(Emitter::new());
    let handle = list.add_accessory(sensor()).unwrap();
    let mut session = EventSubscriptions::new();
    let refused = list.write_characteristic(write(1, 1, Some(Value::UInt(25)), None), &mut session);
    assert_eq!(refused.status, -70404);
    assert_eq!(list.set_value(&handle, 1, Value::Int(25)), Ok(true));
    assert_eq!(list.read_characteristic(1, 1, false, false, false, false).value, Some(Value::UInt(25)));
    assert_eq!(
        list.next_dispatch().unwrap().event,
        Event::CharacteristicValueChanged { aid: 1, iid: 1, value: Value::UInt(25) }
    );
    assert_eq!(list.set_value(&handle, 1, Value::UInt(25)), Ok(false));
    assert_eq!(list.next_dispatch(), None);
}

#[test]
fn an_accessory_cannot_set_what_does_not_fit() {
    let mut list = AccessoryList::new(Emitter::new());
    let handle = list.add_accessory(sensor()).unwrap();
    assert_eq!(list.set_value(&handle, 1, Value::UInt(26)), Err(HapError::InvalidValue));
    assert_eq!(list.set_value(&handle, 1, Value::UInt(105)), Err(HapError::InvalidValue));
    assert_eq!(list.set_value(&handle, 1, Value::Str("25".to_string())), Err(HapError::InvalidValue));
    assert_eq!(list.set_value(&handle, 2, Value::UInt(25)), Err(HapError::NotFound));
    assert_eq!(list.set_value(&handle, 9, Value::UInt(25)), Err(HapError::NotFound));
    assert_eq!(list.set_value(&AccessoryHandle { aid: 2 }, 1, Value::UInt(25)), Err(HapError::NotFound));
    assert_eq!(list.read_characteristic(1, 1, false, false, false, false).value, Some(Value::UInt(20)));
    assert_eq!(list.event_emitter().pending_count(), 0);
}

#[test]
fn serializing_twice_gives_the_same_bytes() {
    let list = home();
    let first = list.as_bytes().unwrap();
    let second = list.as_bytes().unwrap();
    assert_eq!(first, second);
    assert!(std::str::from_utf8(&first).is_ok());
    assert_eq!(list.serialize().unwrap().into_bytes(), first);
    assert_eq!(list.accessories().len(), 3);
}

#[test]
fn a_handle_leads_to_its_accessory() {
    let mut list = home();
    let bulb = AccessoryHandle { aid: 2 };
    assert_eq!(list.get_accessory(&bulb).unwrap().get_id(), 2);
    assert_eq!(list.get_accessory(&bulb).unwrap().services.len(), 2);
    assert!(list.get_accessory(&AccessoryHandle { aid: 4 }).is_none());
    let mut registry = SubscriptionRegistry::new();
    list.remove_accessory(&bulb, &mut registry).unwrap();
    assert!(list.get_accessory(&bulb).is_none());
    assert_eq!(list.set_value(&bulb, 10, Value::Bool(true)), Err(HapError::NotFound));
}
