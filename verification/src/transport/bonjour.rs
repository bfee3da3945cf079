use vstd::prelude::*;

verus! {

/// Returns the service type under which an accessory server is advertised.
pub fn service_type() -> (text: &'static str)
    ensures
        text@ == "_hap._tcp."@,
{
    "_hap._tcp."
}

/// The status flag of the advertisement.
#[derive(Clone, Copy, Debug, PartialEq, Eq, Structural)]
pub enum StatusFlag {
    /// The accessory is paired.
    Zero,
    /// The accessory is not paired.
    NotPaired,
    NotConfiguredForWifi,
    ProblemDetected,
}

impl StatusFlag {
    /// The number that stands for the flag in a TXT record.
    pub open spec fn code_spec(self) -> u8 {
        match self {
            StatusFlag::Zero => 0,
            StatusFlag::NotPaired => 1,
            StatusFlag::NotConfiguredForWifi => 2,
            StatusFlag::ProblemDetected => 4,
        }
    }

    /// Returns the number that stands for the flag in a TXT record.
    #[verifier::when_used_as_spec(code_spec)]
    pub fn as_u8(self) -> (code: u8)
        ensures
            code == self.code_spec(),
    {
        match self {
            StatusFlag::Zero => 0,
            StatusFlag::NotPaired => 1,
            StatusFlag::NotConfiguredForWifi => 2,
            StatusFlag::ProblemDetected => 4,
        }
    }
}

/// The feature flag of the advertisement.
#[derive(Clone, Copy, Debug, PartialEq, Eq, Structural)]
pub enum FeatureFlag {
    Zero,
    MfiCompliant,
}

impl FeatureFlag {
    /// The number that stands for the flag in a TXT record.
    pub open spec fn code_spec(self) -> u8 {
        match self {
            FeatureFlag::Zero => 0,
            FeatureFlag::MfiCompliant => 1,
        }
    }

    /// Returns the number that stands for the flag in a TXT record.
    #[verifier::when_used_as_spec(code_spec)]
    pub fn as_u8(self) -> (code: u8)
        ensures
            code == self.code_spec(),
    {
        match self {
            FeatureFlag::Zero => 0,
            FeatureFlag::MfiCompliant => 1,
        }
    }
}

} // verus!
