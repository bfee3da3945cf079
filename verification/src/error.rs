use vstd::prelude::*;
use vstd::string::StringExecFns;

verus! {

/// What can go wrong in an operation on the accessory database.
#[derive(Clone, Copy, Debug, PartialEq, Eq, Structural)]
pub enum HapError {
    /// The accessory handed to a list already carries an accessory id.
    DuplicateAccessory,
    /// No accessory of the list has the id that was asked for.
    NotFound,
    /// A value does not fit the format or the bounds of its characteristic.
    InvalidValue,
    /// No further instance id can be assigned.
    IdSpaceExhausted,
    /// The JSON encoder reported a failure.
    Serialization,
}

impl HapError {
    /// The text that describes the error.
    pub open spec fn message_spec(self) -> Seq<char> {
        match self {
            HapError::DuplicateAccessory => "the Accessory has already been added"@,
            HapError::NotFound => "couldn't find the Accessory to remove"@,
            HapError::InvalidValue => "the value doesn't fit the Characteristic"@,
            HapError::IdSpaceExhausted => "no instance id is left"@,
            HapError::Serialization => "couldn't serialize the value"@,
        }
    }

    /// Returns the text that describes the error.
    pub fn message(&self) -> (text: String)
        ensures
            text@ == self.message_spec(),
    {
        match self {
            HapError::DuplicateAccessory => String::from_str("the Accessory has already been added"),
            HapError::NotFound => String::from_str("couldn't find the Accessory to remove"),
            HapError::InvalidValue => String::from_str("the value doesn't fit the Characteristic"),
            HapError::IdSpaceExhausted => String::from_str("no instance id is left"),
            HapError::Serialization => String::from_str("couldn't serialize the value"),
        }
    }
}

} // verus!
