pub mod bridge;
pub mod information;
pub mod lightbulb;

use vstd::prelude::*;

use crate::db::accessory_list::AccessoryListMember;
use crate::db::iid::assign_iids;
use crate::error::HapError;
use crate::service::Service;

verus! {

/// The category under which an accessory is advertised.
#[derive(Clone, Copy, Debug, PartialEq, Eq, Structural)]
pub enum Category {
    Other,
    Bridge,
    Fan,
    GarageDoorOpener,
    Lightbulb,
    DoorLock,
    Outlet,
    Switch,
    Thermostat,
    Sensor,
    SecuritySystem,
    Door,
    Window,
    WindowCovering,
    ProgrammableSwitch,
    RangeExtender,
    IpCamera,
    VideoDoorBell,
    AirPurifier,
    Heater,
    AirConditioner,
    Humidifier,
    Dehumidifier,
}

impl Category {
    /// The number that stands for the category in a TXT record.
    pub open spec fn code_spec(self) -> u8 {
        match self {
            Category::Other => 1,
            Category::Bridge => 2,
            Category::Fan => 3,
            Category::GarageDoorOpener => 4,
            Category::Lightbulb => 5,
            Category::DoorLock => 6,
            Category::Outlet => 7,
            Category::Switch => 8,
            Category::Thermostat => 9,
            Category::Sensor => 10,
            Category::SecuritySystem => 11,
            Category::Door => 12,
            Category::Window => 13,
            Category::WindowCovering => 14,
            Category::ProgrammableSwitch => 15,
            Category::RangeExtender => 16,
            Category::IpCamera => 17,
            Category::VideoDoorBell => 18,
            Category::AirPurifier => 19,
            Category::Heater => 20,
            Category::AirConditioner => 21,
            Category::Humidifier => 22,
            Category::Dehumidifier => 23,
        }
    }

    /// Returns the number that stands for the category in a TXT record.
    #[verifier::when_used_as_spec(code_spec)]
    pub fn as_u8(self) -> (code: u8)
        ensures
            code == self.code_spec(),
    {
        match self {
            Category::Other => 1,
            Category::Bridge => 2,
            Category::Fan => 3,
            Category::GarageDoorOpener => 4,
            Category::Lightbulb => 5,
            Category::DoorLock => 6,
            Category::Outlet => 7,
            Category::Switch => 8,
            Category::Thermostat => 9,
            Category::Sensor => 10,
            Category::SecuritySystem => 11,
            Category::Door => 12,
            Category::Window => 13,
            Category::WindowCovering => 14,
            Category::ProgrammableSwitch => 15,
            Category::RangeExtender => 16,
            Category::IpCamera => 17,
            Category::VideoDoorBell => 18,
            Category::AirPurifier => 19,
            Category::Heater => 20,
            Category::AirConditioner => 21,
            Category::Humidifier => 22,
            Category::Dehumidifier => 23,
        }
    }
}

/// An accessory: an ordered list of services under one accessory id.
///
/// `id` is 0 until the accessory joins a list.
#[derive(Debug, PartialEq, Eq)]
pub struct Accessory {
    pub id: u64,
    pub services: Vec<Service>,
}

impl Accessory {
    /// Makes an accessory that belongs to no list yet.
    pub fn new(services: Vec<Service>) -> (made: Accessory)
        ensures
            made.id == 0,
            made.services == services,
    {
        Accessory { id: 0, services }
    }
}

impl AccessoryListMember for Accessory {
    open spec fn spec_id(&self) -> u64 {
        self.id
    }

    open spec fn spec_services(&self) -> Seq<Service> {
        self.services@
    }

    fn get_id(&self) -> (id: u64) {
        self.id
    }

    fn set_id(&mut self, id: u64) {
        self.id = id;
    }

    fn get_services(&self) -> (services: &Vec<Service>) {
        &self.services
    }

    fn get_mut_services(&mut self) -> (services: &mut Vec<Service>) {
        &mut self.services
    }

    fn init_iids(&mut self, accessory_id: u64) -> (done: Result<(), HapError>) {
        assign_iids(&mut self.services, accessory_id)
    }
}

} // verus!
