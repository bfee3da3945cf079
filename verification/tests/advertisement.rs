use hap::transport::bonjour::{FeatureFlag, StatusFlag};
use hap::transport::ip::AdvertisementController;
use hap::{Category, Config, Event};

fn config() -> Config {
    Config::new(
        "Acme Lighting".to_string(),
        "AA:BB:CC:DD:EE:FF".to_string(),
        "Acme Bridge".to_string(),
        Category::Bridge,
    )
}

#[test]
fn a_new_configuration_is_not_paired() {
    let c = config();
    assert_eq!(c.port, 32000);
    assert_eq!(c.configuration_number, 1);
    assert_eq!(c.txt_records()[4], "pv=1.1");
    assert_eq!(c.txt_records()[5], "s#=1");
    assert_eq!(c.status_flag, StatusFlag::NotPaired);
    assert_eq!(c.feature_flag, FeatureFlag::Zero);
}

#[test]
fn the_records_come_in_their_order() {
    let mut c = config();
    c.configuration_number = 12;
    assert_eq!(
        c.txt_records(),
        vec!["c#=12", "ff=0", "id=AA:BB:CC:DD:EE:FF", "md=Acme Bridge", "pv=1.1", "s#=1", "sf=1", "ci=2"]
    );
    c.status_flag = StatusFlag::Zero;
    c.feature_flag = FeatureFlag::MfiCompliant;
    c.category = Category::Dehumidifier;
    let records = c.txt_records();
    assert_eq!(records[1], "ff=1");
    assert_eq!(records[6], "sf=0");
    assert_eq!(records[7], "ci=23");
}

#[test]
fn the_configuration_number_only_grows() {
    let mut c = config();
    c.note_schema_change();
    c.note_schema_change();
    assert_eq!(c.configuration_number, 3);
    c.configuration_number = u64::MAX;
    c.note_schema_change();
    assert_eq!(c.configuration_number, u64::MAX);
    assert_eq!(c.txt_records()[0], "c#=18446744073709551615");
}

#[test]
fn a_changed_hash_raises_the_configuration_number() {
    let mut c = config();
    assert_eq!(c.config_hash, None);
    c.update_hash(7);
    assert_eq!((c.config_hash, c.configuration_number), (Some(7), 1));
    c.update_hash(7);
    assert_eq!((c.config_hash, c.configuration_number), (Some(7), 1));
    c.update_hash(8);
    assert_eq!((c.config_hash, c.configuration_number), (Some(8), 2));
    c.configuration_number = u64::MAX;
    c.update_hash(9);
    assert_eq!((c.config_hash, c.configuration_number), (Some(9), u64::MAX));
}

#[test]
fn the_service_type_is_fixed() {
    assert_eq!(hap::transport::bonjour::service_type(), "_hap._tcp.");
}

#[test]
fn codes_of_the_flags_and_categories() {
    assert_eq!(StatusFlag::Zero.as_u8(), 0);
    assert_eq!(StatusFlag::NotPaired.as_u8(), 1);
    assert_eq!(StatusFlag::NotConfiguredForWifi.as_u8(), 2);
    assert_eq!(StatusFlag::ProblemDetected.as_u8(), 4);
    assert_eq!(Category::Other.as_u8(), 1);
    assert_eq!(Category::Lightbulb.as_u8(), 5);
    assert_eq!(Category::Sensor.as_u8(), 10);
    assert_eq!(Category::IpCamera.as_u8(), 17);
}

#[test]
fn pairing_is_advertised() {
    let mut controller = AdvertisementController::new(config());
    let published = controller.handle(&Event::DevicePaired, Some(1)).unwrap();
    assert!(published.contains(&"sf=0".to_string()));
    assert_eq!(published.len(), 8);
    assert_eq!(controller.config.status_flag, StatusFlag::Zero);
    assert_eq!(published, controller.config.txt_records());
}

#[test]
fn unpairing_is_advertised() {
    let mut paired = config();
    paired.status_flag = StatusFlag::Zero;
    let mut controller = AdvertisementController::new(paired);
    let published = controller.handle(&Event::DeviceUnpaired, Some(0)).unwrap();
    assert!(published.contains(&"sf=1".to_string()));
    assert_eq!(controller.config.status_flag, StatusFlag::NotPaired);
    let published = controller.handle(&Event::DevicePaired, Some(3)).unwrap();
    assert!(published.contains(&"sf=0".to_string()));
    assert_eq!(controller.config.status_flag, StatusFlag::Zero);
}

#[test]
fn the_count_decides() {
    let mut controller = AdvertisementController::new(config());
    assert_eq!(controller.handle(&Event::DevicePaired, Some(0)), None);
    assert_eq!(controller.handle(&Event::DevicePaired, None), None);
    assert_eq!(controller.config.status_flag, StatusFlag::NotPaired);
    controller.config.status_flag = StatusFlag::Zero;
    assert_eq!(controller.handle(&Event::DeviceUnpaired, Some(2)), None);
    assert_eq!(controller.handle(&Event::DeviceUnpaired, None), None);
    assert_eq!(controller.config.status_flag, StatusFlag::Zero);
}

#[test]
fn other_events_are_ignored() {
    let mut controller = AdvertisementController::new(config());
    let events = vec![
        Event::ControllerPaired { id: "a".to_string() },
        Event::ControllerUnpaired { id: "a".to_string() },
        Event::CharacteristicValueChanged { aid: 1, iid: 1, value: hap::Value::Bool(true) },
    ];
    for event in events.iter() {
        assert!(!AdvertisementController::wants_pairings(event));
        assert_eq!(controller.handle(event, Some(0)), None);
        assert_eq!(controller.handle(event, Some(5)), None);
    }
    assert!(AdvertisementController::wants_pairings(&Event::DevicePaired));
    assert!(AdvertisementController::wants_pairings(&Event::DeviceUnpaired));
    assert_eq!(controller.config, config());
}
