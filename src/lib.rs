//! A typed client library for the qBittorrent WebUI control API.
//!
//! The verified core is the session-credential cache with single-flight
//! refresh (`session`), the login handshake (`auth`), and the request
//! dispatcher (`dispatch`): request URLs, cookie headers, ordered form
//! parameters and the classification of every answer into a body or a typed
//! error (`error`). The network transport itself is driven from outside this
//! crate, which hands the library plain values: status codes, header values,
//! bodies and the time.
//!
//! The remaining modules hold the values that endpoint calls are built from.
use vstd::prelude::*;

pub mod auth;
pub mod dispatch;
pub mod error;
pub mod log;
pub mod rss;
pub mod search;
pub mod sep_vec;
pub mod session;
pub mod text;
pub mod torrents;

pub use error::Error;

verus! {

/// The sum of two numbers.
pub fn add(left: u64, right: u64) -> (r: u64)
    requires
        left + right <= u64::MAX,
    ensures
        r == left + right,
{
    left + right
}

} // verus!
