use vstd::prelude::*;
use vstd::string::StringExecFns;

verus! {

/// The types of the services and characteristics that the library builds.
#[derive(Clone, Copy, Debug, PartialEq, Eq, Structural)]
pub enum HapType {
    AccessoryInformation,
    Lightbulb,
    Identify,
    Manufacturer,
    Model,
    Name,
    SerialNumber,
    FirmwareRevision,
    HardwareRevision,
    AccessoryFlags,
    On,
}

impl HapType {
    /// The UUID of the type, as text.
    pub open spec fn uuid_spec(self) -> Seq<char> {
        match self {
            HapType::AccessoryInformation => "0000003E-0000-1000-8000-0026BB765291"@,
            HapType::Lightbulb => "00000043-0000-1000-8000-0026BB765291"@,
            HapType::Identify => "00000014-0000-1000-8000-0026BB765291"@,
            HapType::Manufacturer => "00000020-0000-1000-8000-0026BB765291"@,
            HapType::Model => "00000021-0000-1000-8000-0026BB765291"@,
            HapType::Name => "00000023-0000-1000-8000-0026BB765291"@,
            HapType::SerialNumber => "00000030-0000-1000-8000-0026BB765291"@,
            HapType::FirmwareRevision => "00000052-0000-1000-8000-0026BB765291"@,
            HapType::HardwareRevision => "00000053-0000-1000-8000-0026BB765291"@,
            HapType::AccessoryFlags => "000000A6-0000-1000-8000-0026BB765291"@,
            HapType::On => "00000025-0000-1000-8000-0026BB765291"@,
        }
    }

    /// Returns the UUID of the type, as text.
    pub fn uuid(self) -> (text: String)
        ensures
            text@ == self.uuid_spec(),
    {
        match self {
            HapType::AccessoryInformation => String::from_str("0000003E-0000-1000-8000-0026BB765291"),
            HapType::Lightbulb => String::from_str("00000043-0000-1000-8000-0026BB765291"),
            HapType::Identify => String::from_str("00000014-0000-1000-8000-0026BB765291"),
            HapType::Manufacturer => String::from_str("00000020-0000-1000-8000-0026BB765291"),
            HapType::Model => String::from_str("00000021-0000-1000-8000-0026BB765291"),
            HapType::Name => String::from_str("00000023-0000-1000-8000-0026BB765291"),
            HapType::SerialNumber => String::from_str("00000030-0000-1000-8000-0026BB765291"),
            HapType::FirmwareRevision => String::from_str("00000052-0000-1000-8000-0026BB765291"),
            HapType::HardwareRevision => String::from_str("00000053-0000-1000-8000-0026BB765291"),
            HapType::AccessoryFlags => String::from_str("000000A6-0000-1000-8000-0026BB765291"),
            HapType::On => String::from_str("00000025-0000-1000-8000-0026BB765291"),
        }
    }
}

} // verus!
