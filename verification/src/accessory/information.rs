use vstd::prelude::*;
use vstd::string::StringExecFns;

use crate::characteristic::{Characteristic, Format, Perm, Value};
use crate::error::HapError;
use crate::hap_type::HapType;
use crate::service::Service;

verus! {

/// The greatest length of a text of the accessory information.
pub const TEXT_LIMIT: u16 = 64;

/// What an accessory says of itself.
#[derive(Debug, PartialEq, Eq)]
pub struct Information {
    pub manufacturer: String,
    pub model: String,
    pub name: String,
    pub serial_number: String,
    pub firmware_revision: String,
    pub hardware_revision: Option<String>,
    pub accessory_flags: Option<u32>,
}

impl Default for Information {
    fn default() -> (made: Information)
        ensures
            made.manufacturer@ == "undefined"@,
            made.model@ == "undefined"@,
            made.name@ == "undefined"@,
            made.serial_number@ == "undefined"@,
            made.firmware_revision@ == "undefined"@,
            made.hardware_revision is None,
            made.accessory_flags is None,
    {
        Information {
            manufacturer: String::from_str("undefined"),
            model: String::from_str("undefined"),
            name: String::from_str("undefined"),
            serial_number: String::from_str("undefined"),
            firmware_revision: String::from_str("undefined"),
            hardware_revision: None,
            accessory_flags: None,
        }
    }
}

/// Whether `c` is a fresh characteristic without unit and numeric bounds that has
/// the given type, format, permissions, value and greatest length.
pub open spec fn is_plain_characteristic(
    c: Characteristic,
    hap_type: HapType,
    format: Format,
    perms: Seq<Perm>,
    value: Value,
    max_len: Option<u16>,
) -> bool {
    &&& c.wf()
    &&& c.id == 0
    &&& c.accessory_id == 0
    &&& c.hap_type@ == hap_type.uuid_spec()
    &&& c.format == format
    &&& c.perms@ == perms
    &&& c.event_notifications is None
    &&& c.value == value
    &&& c.unit is None
    &&& c.max_value is None
    &&& c.min_value is None
    &&& c.step_value is None
    &&& c.max_len == max_len
}

/// Whether `c` is a fresh characteristic that holds a text for reading.
pub open spec fn is_text_characteristic(c: Characteristic, hap_type: HapType, text: String) -> bool {
    is_plain_characteristic(
        c,
        hap_type,
        Format::String,
        seq![Perm::PairedRead],
        Value::Str(text),
        Some(TEXT_LIMIT),
    )
}

/// Whether every text of the information is short enough for its characteristic.
pub open spec fn information_fits(info: Information) -> bool {
    &&& info.manufacturer@.len() <= TEXT_LIMIT
    &&& info.model@.len() <= TEXT_LIMIT
    &&& info.name@.len() <= TEXT_LIMIT
    &&& info.serial_number@.len() <= TEXT_LIMIT
    &&& info.firmware_revision@.len() <= TEXT_LIMIT
    &&& info.hardware_revision matches Some(text) ==> text@.len() <= TEXT_LIMIT
}

/// The number of characteristics of the accessory information service.
pub open spec fn information_len(info: Information) -> int {
    6 + if info.hardware_revision is Some {
        1int
    } else {
        0int
    } + if info.accessory_flags is Some {
        1int
    } else {
        0int
    }
}

/// Whether `s` is the fresh accessory information service of `info`: `Identify`,
/// `Manufacturer`, `Model`, `Name`, `SerialNumber` and `FirmwareRevision`, then
/// `HardwareRevision` and `AccessoryFlags` where the information has them.
pub open spec fn is_information_service(s: Service, info: Information) -> bool {
    let cs = s.characteristics@;
    let flags_at = if info.hardware_revision is Some {
        7int
    } else {
        6int
    };
    &&& s.id == 0
    &&& s.hap_type@ == HapType::AccessoryInformation.uuid_spec()
    &&& cs.len() == information_len(info)
    &&& is_plain_characteristic(
        cs[0],
        HapType::Identify,
        Format::Bool,
        seq![Perm::PairedWrite],
        Value::Bool(false),
        None,
    )
    &&& is_text_characteristic(cs[1], HapType::Manufacturer, info.manufacturer)
    &&& is_text_characteristic(cs[2], HapType::Model, info.model)
    &&& is_text_characteristic(cs[3], HapType::Name, info.name)
    &&& is_text_characteristic(cs[4], HapType::SerialNumber, info.serial_number)
    &&& is_text_characteristic(cs[5], HapType::FirmwareRevision, info.firmware_revision)
    &&& info.hardware_revision matches Some(text) ==> is_text_characteristic(
        cs[6],
        HapType::HardwareRevision,
        text,
    )
    &&& info.accessory_flags matches Some(flags) ==> is_plain_characteristic(
        cs[flags_at],
        HapType::AccessoryFlags,
        Format::UInt32,
        seq![Perm::PairedRead, Perm::Events],
        Value::UInt(flags as u64),
        None,
    )
}

/// Makes a characteristic that holds a text for reading. A text of more than
/// `TEXT_LIMIT` characters is refused with `HapError::InvalidValue`.
pub fn text_characteristic(hap_type: HapType, text: String) -> (made: Result<Characteristic, HapError>)
    ensures
        made is Ok <==> text@.len() <= TEXT_LIMIT,
        made matches Ok(c) ==> is_text_characteristic(c, hap_type, text),
        made matches Err(e) ==> e == HapError::InvalidValue,
{
    let mut perms: Vec<Perm> = Vec::new();
    perms.push(Perm::PairedRead);
    Characteristic::new(
        hap_type.uuid(),
        Format::String,
        perms,
        Value::Str(text),
        None,
        None,
        None,
        None,
        Some(TEXT_LIMIT),
    )
}

/// Makes the accessory information service of `info`. A text of more than
/// `TEXT_LIMIT` characters is refused with `HapError::InvalidValue`.
pub fn information_service(info: Information) -> (made: Result<Service, HapError>)
    ensures
        made is Ok <==> information_fits(info),
        made matches Ok(s) ==> is_information_service(s, info),
        made matches Err(e) ==> e == HapError::InvalidValue,
{
    let mut characteristics: Vec<Characteristic> = Vec::new();
    let mut identify_perms: Vec<Perm> = Vec::new();
    identify_perms.push(Perm::PairedWrite);
    let identify = Characteristic::new(
        HapType::Identify.uuid(),
        Format::Bool,
        identify_perms,
        Value::Bool(false),
        None,
        None,
        None,
        None,
        None,
    )?;
    characteristics.push(identify);
    characteristics.push(text_characteristic(HapType::Manufacturer, info.manufacturer)?);
    characteristics.push(text_characteristic(HapType::Model, info.model)?);
    characteristics.push(text_characteristic(HapType::Name, info.name)?);
    characteristics.push(text_characteristic(HapType::SerialNumber, info.serial_number)?);
    characteristics.push(text_characteristic(HapType::FirmwareRevision, info.firmware_revision)?);
    if let Some(text) = info.hardware_revision {
        characteristics.push(text_characteristic(HapType::HardwareRevision, text)?);
    }
    if let Some(flags) = info.accessory_flags {
        let mut flag_perms: Vec<Perm> = Vec::new();
        flag_perms.push(Perm::PairedRead);
        flag_perms.push(Perm::Events);
        assert(flag_perms@ =~= seq![Perm::PairedRead, Perm::Events]);
        let accessory_flags = Characteristic::new(
            HapType::AccessoryFlags.uuid(),
            Format::UInt32,
            flag_perms,
            Value::UInt(flags as u64),
            None,
            None,
            None,
            None,
            None,
        )?;
        characteristics.push(accessory_flags);
    }
    Ok(Service::new(HapType::AccessoryInformation.uuid(), characteristics))
}

} // verus!
