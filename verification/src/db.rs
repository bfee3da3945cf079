//! The accessory database.
pub mod accessory_list;
pub mod dispatch;
pub mod iid;

pub use crate::db::accessory_list::{AccessoryHandle, AccessoryList, AccessoryListMember};
