//! `sprout_mobile` — the verified core of the Sprout mobile client.
//!
//! It holds the data exchanged with the native shells, the conversion of relay
//! JSON into those records, the relay wire protocol, authentication event and
//! header construction, subscription bookkeeping and the connection state
//! machine. Networking, storage and the FFI surface live around it.

use vstd::prelude::*;

pub mod auth;
pub mod client;
pub mod converters;
pub mod encoding;
pub mod error;
pub mod event;
pub mod http;
pub mod json;
pub mod relay_protocol;
pub mod text;
pub mod store;
pub mod time;
pub mod types;
pub mod ws;

verus! {

} // verus!
