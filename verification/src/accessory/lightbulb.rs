use vstd::prelude::*;

use crate::accessory::information::{
    information_fits, information_service, is_information_service, is_plain_characteristic,
    Information,
};
use crate::accessory::Accessory;
use crate::characteristic::{Characteristic, Format, Perm, Value};
use crate::error::HapError;
use crate::hap_type::HapType;
use crate::service::Service;

verus! {

/// Whether `s` is a fresh lightbulb service: its one characteristic is `On`, a
/// boolean that starts as `false` and may be read, written and subscribed to.
pub open spec fn is_lightbulb_service(s: Service) -> bool {
    &&& s.id == 0
    &&& s.hap_type@ == HapType::Lightbulb.uuid_spec()
    &&& s.characteristics@.len() == 1
    &&& is_plain_characteristic(
        s.characteristics@[0],
        HapType::On,
        Format::Bool,
        seq![Perm::PairedRead, Perm::PairedWrite, Perm::Events],
        Value::Bool(false),
        None,
    )
}

/// Makes a lightbulb service.
pub fn lightbulb_service() -> (made: Service)
    ensures
        is_lightbulb_service(made),
{
    let mut perms: Vec<Perm> = Vec::new();
    perms.push(Perm::PairedRead);
    perms.push(Perm::PairedWrite);
    perms.push(Perm::Events);
    assert(perms@ =~= seq![Perm::PairedRead, Perm::PairedWrite, Perm::Events]);
    let on = Characteristic {
        id: 0,
        accessory_id: 0,
        hap_type: HapType::On.uuid(),
        format: Format::Bool,
        perms,
        event_notifications: None,
        value: Value::Bool(false),
        unit: None,
        max_value: None,
        min_value: None,
        step_value: None,
        max_len: None,
    };
    let mut characteristics: Vec<Characteristic> = Vec::new();
    characteristics.push(on);
    Service::new(HapType::Lightbulb.uuid(), characteristics)
}

/// Makes a lightbulb: an accessory with the accessory information and a
/// lightbulb service.
///
/// A text of the information of more than 64 characters is refused with
/// `HapError::InvalidValue`.
pub fn new(information: Information) -> (made: Result<Accessory, HapError>)
    ensures
        made is Ok <==> information_fits(information),
        made matches Ok(a) ==> {
            &&& a.id == 0
            &&& a.services@.len() == 2
            &&& is_information_service(a.services@[0], information)
            &&& is_lightbulb_service(a.services@[1])
        },
        made matches Err(e) ==> e == HapError::InvalidValue,
{
    let mut services: Vec<Service> = Vec::new();
    services.push(information_service(information)?);
    services.push(lightbulb_service());
    Ok(Accessory::new(services))
}

} // verus!
