use hap::accessory::{bridge, lightbulb};
use hap::db::AccessoryList;
use hap::json::{push_characteristic, push_encoded, push_json_string, push_service, push_value};
use hap::{
    Accessory, Characteristic, Emitter, Format, HapError, Information, Perm, Service, Unit, Value,
};

fn named(name: &str) -> Information {
    Information { name: name.to_string(), ..Default::default() }
}

fn temperature() -> Characteristic {
    Characteristic::new(
        "00000011-0000-1000-8000-0026BB765291".to_string(),
        Format::Float,
        vec![Perm::PairedRead, Perm::Events],
        Value::Float(21_500_000),
        Some(Unit::Celsius),
        Some(Value::Float(100_000_000)),
        Some(Value::Float(0)),
        Some(Value::Float(100_000)),
        None,
    )
    .unwrap()
}

fn json_of(c: &Characteristic) -> String {
    let mut out = String::new();
    push_characteristic(&mut out, c).unwrap();
    out
}

#[test]
fn strings_are_escaped() {
    let mut out = String::from("x");
    push_json_string(&mut out, "a\"b\\c\nd\te\u{1}f\u{1f}g\u{7f}\u{e9}").unwrap();
    assert_eq!(out, "x\"a\\\"b\\\\c\\nd\\te\\u0001f\\u001fg\u{7f}\u{e9}\"");
    let mut out = String::new();
    push_json_string(&mut out, "\u{8}\u{c}\r/").unwrap();
    assert_eq!(out, "\"\\b\\f\\r/\"");
    let mut out = String::new();
    push_json_string(&mut out, "").unwrap();
    assert_eq!(out, "\"\"");
}

#[test]
fn a_failure_of_the_encoder_is_reported() {
    let mut out = String::from("kept");
    let failed = serde_json::from_str::<String>("no json");
    assert_eq!(push_encoded(&mut out, failed), Err(HapError::Serialization));
    assert_eq!(out, "kept");
    assert_eq!(push_encoded(&mut out, Ok("\"a\"".to_string())), Ok(()));
    assert_eq!(out, "kept\"a\"");
}

#[test]
fn values_in_json() {
    let cases = vec![
        (Value::Bool(true), "true"),
        (Value::Bool(false), "false"),
        (Value::UInt(0), "0"),
        (Value::UInt(u64::MAX), "18446744073709551615"),
        (Value::Int(-42), "-42"),
        (Value::Int(i64::MIN), "-9223372036854775808"),
        (Value::Float(21_500_000), "21.5"),
        (Value::Float(-500_000), "-0.5"),
        (Value::Float(3_000_000), "3"),
        (Value::Float(1), "0.000001"),
        (Value::Float(1_000_001), "1.000001"),
        (Value::Float(10_050_000), "10.05"),
        (Value::Float(0), "0"),
        (Value::Float(i64::MIN), "-9223372036854.775808"),
        (Value::Str("on".to_string()), "\"on\""),
    ];
    for (value, expected) in cases {
        let mut out = String::new();
        push_value(&mut out, &value).unwrap();
        assert_eq!(out, expected);
    }
}

#[test]
fn characteristic_members_come_in_order() {
    let mut c = temperature();
    c.id = 9;
    c.event_notifications = Some(true);
    assert_eq!(
        json_of(&c),
        "{\"iid\":9,\"type\":\"00000011-0000-1000-8000-0026BB765291\",\"perms\":[\"pr\",\"ev\"],\
         \"format\":\"float\",\"value\":21.5,\"ev\":true,\"unit\":\"celsius\",\"maxValue\":100,\
         \"minValue\":0,\"minStep\":0.1}"
    );
}

#[test]
fn value_is_left_out_without_paired_read() {
    let c = Characteristic::new(
        "00000014-0000-1000-8000-0026BB765291".to_string(),
        Format::Bool,
        vec![Perm::PairedWrite],
        Value::Bool(false),
        None,
        None,
        None,
        None,
        None,
    )
    .unwrap();
    assert_eq!(
        json_of(&c),
        "{\"iid\":0,\"type\":\"00000014-0000-1000-8000-0026BB765291\",\"perms\":[\"pw\"],\
         \"format\":\"bool\"}"
    );
}

#[test]
fn text_characteristic_carries_its_length() {
    let c = Characteristic::new(
        "23".to_string(),
        Format::String,
        vec![],
        Value::Str("a".to_string()),
        None,
        None,
        None,
        None,
        Some(64),
    )
    .unwrap();
    assert_eq!(json_of(&c), "{\"iid\":0,\"type\":\"23\",\"perms\":[],\"format\":\"string\",\"maxLen\":64}");
}

#[test]
fn every_permission_format_and_unit_has_its_name() {
    let perms = vec![
        Perm::PairedRead,
        Perm::PairedWrite,
        Perm::Events,
        Perm::AdditionalAuthorization,
        Perm::TimedWrite,
        Perm::Hidden,
    ];
    let c = Characteristic::new(
        "t".to_string(),
        Format::UInt16,
        perms,
        Value::UInt(7),
        Some(Unit::Lux),
        None,
        None,
        None,
        None,
    )
    .unwrap();
    assert_eq!(
        json_of(&c),
        "{\"iid\":0,\"type\":\"t\",\"perms\":[\"pr\",\"pw\",\"ev\",\"aa\",\"tw\",\"hd\"],\
         \"format\":\"uint16\",\"value\":7,\"unit\":\"lux\"}"
    );
    assert_eq!(hap::json::format_text(Format::Bool), "\"bool\"");
    assert_eq!(hap::json::format_text(Format::UInt8), "\"uint8\"");
    assert_eq!(hap::json::format_text(Format::UInt32), "\"uint32\"");
    assert_eq!(hap::json::format_text(Format::UInt64), "\"uint64\"");
    assert_eq!(hap::json::format_text(Format::Int), "\"int\"");
    assert_eq!(hap::json::format_text(Format::String), "\"string\"");
    assert_eq!(hap::json::format_text(Format::Tlv8), "\"tlv8\"");
    assert_eq!(hap::json::format_text(Format::Data), "\"data\"");
    assert_eq!(hap::json::unit_text(Unit::Celsius), "\"celsius\"");
    assert_eq!(hap::json::unit_text(Unit::Percentage), "\"percentage\"");
    assert_eq!(hap::json::unit_text(Unit::ArcDegrees), "\"arcdegrees\"");
    assert_eq!(hap::json::unit_text(Unit::Seconds), "\"seconds\"");
}

#[test]
fn service_in_json() {
    let mut out = String::new();
    push_service(&mut out, &Service::new("43".to_string(), vec![])).unwrap();
    assert_eq!(out, "{\"iid\":0,\"type\":\"43\",\"characteristics\":[]}");
}

#[test]
fn document_of_a_small_list() {
    let on = Characteristic::new(
        "25".to_string(),
        Format::Bool,
        vec![Perm::PairedRead, Perm::PairedWrite],
        Value::Bool(true),
        None,
        None,
        None,
        None,
        None,
    )
    .unwrap();
    let name = Characteristic::new(
        "23".to_string(),
        Format::String,
        vec![Perm::PairedRead],
        Value::Str("Lamp \"1\"".to_string()),
        None,
        None,
        None,
        None,
        None,
    )
    .unwrap();
    let mut list = AccessoryList::new(Emitter::new());
    list.add_accessory(Accessory::new(vec![Service::new("43".to_string(), vec![on, name])])).unwrap();
    list.add_accessory(Accessory::new(vec![])).unwrap();
    let expected = "{\"accessories\":[{\"aid\":1,\"services\":[{\"iid\":3,\"type\":\"43\",\
                    \"characteristics\":[{\"iid\":1,\"type\":\"25\",\"perms\":[\"pr\",\"pw\"],\
                    \"format\":\"bool\",\"value\":true},{\"iid\":2,\"type\":\"23\",\"perms\":[\"pr\"],\
                    \"format\":\"string\",\"value\":\"Lamp \\\"1\\\"\"}]}]},{\"aid\":2,\"services\":[]}]}";
    assert_eq!(list.serialize().unwrap(), expected);
    assert_eq!(list.as_bytes().unwrap(), expected.as_bytes().to_vec());
}

#[test]
fn document_of_a_bridge_with_two_lightbulbs() {
    let mut list = AccessoryList::new(Emitter::new());
    list.add_accessory(bridge::new(named("Bridge")).unwrap()).unwrap();
    list.add_accessory(lightbulb::new(named("Bulb 1")).unwrap()).unwrap();
    list.add_accessory(lightbulb::new(named("Bulb 2")).unwrap()).unwrap();
    let document: serde_json::Value = serde_json::from_slice(&list.as_bytes().unwrap()).unwrap();
    let object = document.as_object().unwrap();
    assert_eq!(object.len(), 1);
    let accessories = object["accessories"].as_array().unwrap();
    assert_eq!(accessories.len(), 3);
    let aids: Vec<u64> = accessories.iter().map(|a| a["aid"].as_u64().unwrap()).collect();
    assert_eq!(aids, vec![1, 2, 3]);
    let first = &accessories[0]["services"][0];
    assert_eq!(first["type"].as_str().unwrap(), "0000003E-0000-1000-8000-0026BB765291");
    let types: Vec<&str> = first["characteristics"]
        .as_array()
        .unwrap()
        .iter()
        .map(|c| c["type"].as_str().unwrap())
        .collect();
    for wanted in ["14", "20", "21", "23", "30", "52"] {
        let uuid = format!("000000{}-0000-1000-8000-0026BB765291", wanted);
        assert!(types.contains(&uuid.as_str()));
    }
    let name = &first["characteristics"][3];
    assert_eq!(name["value"].as_str().unwrap(), "Bridge");
    assert_eq!(name["format"].as_str().unwrap(), "string");
    assert_eq!(name["maxLen"].as_u64().unwrap(), 64);
    let identify = first["characteristics"][0].as_object().unwrap();
    assert!(!identify.contains_key("value"));
    let keys: Vec<&str> = name.as_object().unwrap().keys().map(|k| k.as_str()).collect();
    assert_eq!(keys, vec!["iid", "type", "perms", "format", "value", "maxLen"]);
    let bulb = &accessories[1]["services"][1];
    assert_eq!(bulb["type"].as_str().unwrap(), "00000043-0000-1000-8000-0026BB765291");
    assert_eq!(bulb["characteristics"][0]["value"].as_bool().unwrap(), false);
}

#[test]
fn document_survives_a_round_trip() {
    let mut list = AccessoryList::new(Emitter::new());
    list.add_accessory(bridge::new(named("Bridge \"A\"\n")).unwrap()).unwrap();
    let full = Information {
        name: "Bulb \u{e9}\t1".to_string(),
        hardware_revision: Some("1.0".to_string()),
        accessory_flags: Some(3),
        ..Default::default()
    };
    list.add_accessory(lightbulb::new(full).unwrap()).unwrap();
    list.add_accessory(Accessory::new(vec![Service::new("8A".to_string(), vec![temperature()])]))
        .unwrap();
    let bytes = list.as_bytes().unwrap();
    let parsed: serde_json::Value = serde_json::from_slice(&bytes).unwrap();
    assert_eq!(serde_json::to_vec(&parsed).unwrap(), bytes);
    let again: serde_json::Value = serde_json::from_slice(&serde_json::to_vec(&parsed).unwrap()).unwrap();
    assert_eq!(again, parsed);
    let name = &parsed["accessories"][1]["services"][0]["characteristics"][3]["value"];
    assert_eq!(name.as_str().unwrap(), "Bulb \u{e9}\t1");
    let temperature = &parsed["accessories"][2]["services"][0]["characteristics"][0];
    assert_eq!(temperature["value"].as_f64().unwrap(), 21.5);
    assert_eq!(temperature["minStep"].as_f64().unwrap(), 0.1);
}
