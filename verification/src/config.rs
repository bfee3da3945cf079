use vstd::prelude::*;
use vstd::string::StringExecFns;

use crate::accessory::Category;
use crate::text::{decimal, push_decimal};
use crate::transport::bonjour::{FeatureFlag, StatusFlag};

verus! {

/// What the advertisement of an accessory server says of it.
#[derive(Debug, PartialEq, Eq)]
pub struct Config {
    /// The name of the service instance.
    pub name: String,
    /// The port of the server.
    pub port: u16,
    /// The device id, in the form of a MAC address.
    pub device_id: String,
    /// The model name.
    pub model: String,
    /// Grows whenever the accessories, services or characteristics change.
    pub configuration_number: u64,
    /// The category of the accessory.
    pub category: Category,
    /// The hash of the configuration when it was last held against its hash;
    /// `None` before the first time.
    pub config_hash: Option<u64>,
    /// Whether the accessory is paired.
    pub status_flag: StatusFlag,
    /// The features of the accessory.
    pub feature_flag: FeatureFlag,
}

/// The TXT records of a configuration, each a key, `=` and a value: `c#`, `ff`,
/// `id`, `md`, `pv`, `s#`, `sf` and `ci`, in this order. The protocol version is
/// always 1.1 and the state number always 1.
pub open spec fn txt_records(c: Config) -> Seq<Seq<char>> {
    seq![
        "c#="@ + decimal(c.configuration_number as nat),
        "ff="@ + decimal(c.feature_flag.code_spec() as nat),
        "id="@ + c.device_id@,
        "md="@ + c.model@,
        "pv=1.1"@,
        "s#=1"@,
        "sf="@ + decimal(c.status_flag.code_spec() as nat),
        "ci="@ + decimal(c.category.code_spec() as nat),
    ]
}

/// The texts of a list of strings.
pub open spec fn texts(strings: Seq<String>) -> Seq<Seq<char>> {
    Seq::new(strings.len(), |i: int| strings[i]@)
}

/// Returns a record: a key with its `=`, and a number.
fn number_record(key: &str, n: u64) -> (record: String)
    ensures
        record@ == key@ + decimal(n as nat),
{
    let mut record = String::from_str(key);
    push_decimal(&mut record, n);
    record
}

/// Returns a record: a key with its `=`, and a text.
fn text_record(key: &str, text: &String) -> (record: String)
    ensures
        record@ == key@ + text@,
{
    let mut record = String::from_str(key);
    record.append(text.as_str());
    record
}

impl Config {
    /// Makes the configuration of a server that is not paired: port 32000,
    /// configuration number 1, no feature.
    pub fn new(name: String, device_id: String, model: String, category: Category) -> (made: Config)
        ensures
            made.name == name,
            made.port == 32000,
            made.device_id == device_id,
            made.model == model,
            made.configuration_number == 1,
            made.config_hash is None,
            made.category == category,
            made.status_flag == StatusFlag::NotPaired,
            made.feature_flag == FeatureFlag::Zero,
    {
        Config {
            name,
            port: 32000,
            device_id,
            model,
            configuration_number: 1,
            config_hash: None,
            category,
            status_flag: StatusFlag::NotPaired,
            feature_flag: FeatureFlag::Zero,
        }
    }

    /// Notes a change of the accessories, services or characteristics: the
    /// configuration number grows by one, and stays where it cannot grow.
    pub fn note_schema_change(&mut self)
        ensures
            *final(self) == (Config {
                configuration_number: if old(self).configuration_number < u64::MAX {
                    (old(self).configuration_number + 1) as u64
                } else {
                    u64::MAX
                },
                ..*old(self)
            }),
            final(self).configuration_number >= old(self).configuration_number,
    {
        if self.configuration_number < u64::MAX {
            self.configuration_number = self.configuration_number + 1;
        }
    }

    /// Holds the configuration against its hash: where it has a hash that differs
    /// from `hash`, the configuration has changed, and the configuration number
    /// grows as in `note_schema_change`. The configuration then has the hash
    /// `hash`.
    pub fn update_hash(&mut self, hash: u64)
        ensures
            *final(self) == (Config {
                config_hash: Some(hash),
                configuration_number: match old(self).config_hash {
                    Some(previous) => if previous != hash && old(self).configuration_number < u64::MAX {
                        (old(self).configuration_number + 1) as u64
                    } else {
                        old(self).configuration_number
                    },
                    None => old(self).configuration_number,
                },
                ..*old(self)
            }),
            final(self).configuration_number >= old(self).configuration_number,
    {
        if let Some(previous) = self.config_hash {
            if previous != hash {
                self.note_schema_change();
            }
        }
        self.config_hash = Some(hash);
    }

    /// Returns the TXT records of the advertisement.
    pub fn txt_records(&self) -> (records: Vec<String>)
        ensures
            texts(records@) == txt_records(*self),
    {
        let mut records: Vec<String> = Vec::new();
        records.push(number_record("c#=", self.configuration_number));
        records.push(number_record("ff=", self.feature_flag.as_u8() as u64));
        records.push(text_record("id=", &self.device_id));
        records.push(text_record("md=", &self.model));
        records.push(String::from_str("pv=1.1"));
        records.push(String::from_str("s#=1"));
        records.push(number_record("sf=", self.status_flag.as_u8() as u64));
        records.push(number_record("ci=", self.category.as_u8() as u64));
        records
    }
}

} // verus!
