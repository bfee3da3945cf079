use vstd::prelude::*;

use crate::characteristic::Characteristic;

verus! {

/// A group of characteristics of one service type.
///
/// `id` is 0 until the accessory joins a list.
#[derive(Debug, PartialEq, Eq)]
pub struct Service {
    pub id: u64,
    pub hap_type: String,
    pub characteristics: Vec<Characteristic>,
}

impl Service {
    /// Makes a service that belongs to no accessory yet.
    pub fn new(hap_type: String, characteristics: Vec<Characteristic>) -> (made: Service)
        ensures
            made.id == 0,
            made.hap_type == hap_type,
            made.characteristics == characteristics,
    {
        Service { id: 0, hap_type, characteristics }
    }

    /// Every characteristic of the service is well-formed.
    pub open spec fn wf(&self) -> bool {
        forall|k: int| 0 <= k < self.characteristics.len() ==> (#[trigger] self.characteristics[k]).wf()
    }

    /// Returns the instance id.
    pub fn get_id(&self) -> (id: u64)
        ensures
            id == self.id,
    {
        self.id
    }

    /// Sets the instance id.
    pub fn set_id(&mut self, id: u64)
        ensures
            *final(self) == (Service { id, ..*old(self) }),
    {
        self.id = id;
    }

    /// Returns the characteristics.
    pub fn get_characteristics(&self) -> (characteristics: &Vec<Characteristic>)
        ensures
            *characteristics == self.characteristics,
    {
        &self.characteristics
    }

    /// Returns the characteristics for a change.
    pub fn get_mut_characteristics(&mut self) -> (characteristics: &mut Vec<Characteristic>)
        ensures
            *characteristics == old(self).characteristics,
            *final(self) == (Service { characteristics: *final(characteristics), ..*old(self) }),
    {
        &mut self.characteristics
    }
}

} // verus!
