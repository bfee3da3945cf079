//! What the accessory database shares with the transport: the structured read and
//! write requests, the subscriptions of the sessions, and the records that
//! advertise the pairing state.
pub mod bonjour;
pub mod characteristics;
pub mod http;
pub mod ip;
pub mod registry;
