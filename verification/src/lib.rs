//! The accessory database of a HomeKit Accessory Protocol server: accessories,
//! services and characteristics with stable identifiers, the read and write
//! dispatch with its permission rules, event subscriptions, and the TXT records
//! that follow the pairing state.
pub mod accessory;
pub mod characteristic;
pub mod config;
pub mod db;
pub mod error;
pub mod event;
pub mod hap_type;
pub mod json;
pub mod service;
pub mod text;
pub mod transport;

pub use crate::accessory::information::Information;
pub use crate::accessory::{Accessory, Category};
pub use crate::characteristic::{Characteristic, Format, Perm, Unit, Value, ValueView};
pub use crate::config::Config;
pub use crate::error::HapError;
pub use crate::event::{Dispatch, Emitter, Event};
pub use crate::hap_type::HapType;
pub use crate::service::Service;
