use vstd::prelude::*;

use crate::config::{texts, txt_records, Config};
use crate::event::Event;
use crate::transport::bonjour::StatusFlag;

verus! {

/// Whether the advertisement depends on the number of pairings after an event:
/// after `DevicePaired` and `DeviceUnpaired` it does.
pub open spec fn wants_pairings_spec(event: Event) -> bool {
    event is DevicePaired || event is DeviceUnpaired
}

/// The status flag that the advertisement takes after an event, given the number
/// of pairings that are stored then; `None` where the advertisement stays as it
/// is.
///
/// After `DevicePaired` with at least one pairing the flag is `Zero`; after
/// `DeviceUnpaired` with no pairing it is `NotPaired`. Every other event, and
/// either event where the number of pairings is not known, changes nothing.
pub open spec fn advertised_flag(event: Event, pairings: Option<u64>) -> Option<StatusFlag> {
    match event {
        Event::DevicePaired => match pairings {
            Some(count) => if count > 0 {
                Some(StatusFlag::Zero)
            } else {
                None
            },
            None => None,
        },
        Event::DeviceUnpaired => match pairings {
            Some(count) => if count == 0 {
                Some(StatusFlag::NotPaired)
            } else {
                None
            },
            None => None,
        },
        _ => None,
    }
}

/// Keeps the advertisement in step with the pairing state.
///
/// The controller owns the configuration. Its owner hands it every event of the
/// emitter together with the number of stored pairings, and publishes the TXT
/// records that it returns.
pub struct AdvertisementController {
    pub config: Config,
}

impl AdvertisementController {
    /// Makes a controller for a configuration.
    pub fn new(config: Config) -> (made: AdvertisementController)
        ensures
            made.config == config,
    {
        AdvertisementController { config }
    }

    /// Whether the number of pairings is needed to handle an event.
    pub fn wants_pairings(event: &Event) -> (wanted: bool)
        ensures
            wanted == wants_pairings_spec(*event),
    {
        match event {
            Event::DevicePaired => true,
            Event::DeviceUnpaired => true,
            _ => false,
        }
    }

    /// Handles an event, given the number of pairings that are stored now, or
    /// `None` where it could not be had.
    ///
    /// Where the event changes the pairing state as `advertised_flag` says, the
    /// status flag of the configuration is set and the full set of TXT records
    /// is returned for publishing. Otherwise nothing changes and nothing is
    /// returned.
    pub fn handle(&mut self, event: &Event, pairings: Option<u64>) -> (publish: Option<Vec<String>>)
        ensures
            match advertised_flag(*event, pairings) {
                Some(flag) => {
                    &&& final(self).config == (Config { status_flag: flag, ..old(self).config })
                    &&& publish matches Some(records) && texts(records@) == txt_records(final(self).config)
                },
                None => {
                    &&& final(self).config == old(self).config
                    &&& publish is None
                },
            },
    {
        let flag = match event {
            Event::DevicePaired => match pairings {
                Some(count) => if count > 0 {
                    Some(StatusFlag::Zero)
                } else {
                    None
                },
                None => None,
            },
            Event::DeviceUnpaired => match pairings {
                Some(count) => if count == 0 {
                    Some(StatusFlag::NotPaired)
                } else {
                    None
                },
                None => None,
            },
            _ => None,
        };
        match flag {
            Some(f) => {
                self.config.status_flag = f;
                Some(self.config.txt_records())
            },
            None => None,
        }
    }
}

/// After `DevicePaired` with at least one pairing the TXT records of the
/// configuration hold `sf=0`; after `DeviceUnpaired` with no pairing they hold
/// `sf=1`.
pub proof fn lemma_pairing_state_is_advertised(config: Config, event: Event, pairings: u64)
    requires
        (event is DevicePaired && pairings > 0) || (event is DeviceUnpaired && pairings == 0),
    ensures
        advertised_flag(event, Some(pairings)) is Some,
        event is DevicePaired ==> txt_records(
            (Config { status_flag: advertised_flag(event, Some(pairings)).unwrap(), ..config }),
        ).contains("sf=0"@),
        event is DeviceUnpaired ==> txt_records(
            (Config { status_flag: advertised_flag(event, Some(pairings)).unwrap(), ..config }),
        ).contains("sf=1"@),
{
    reveal_strlit("sf=");
    reveal_strlit("sf=0");
    reveal_strlit("sf=1");
    let after = Config { status_flag: advertised_flag(event, Some(pairings)).unwrap(), ..config };
    let records = txt_records(after);
    if event is DevicePaired {
        assert(records[6] =~= "sf=0"@);
    } else {
        assert(records[6] =~= "sf=1"@);
    }
}

} // verus!
