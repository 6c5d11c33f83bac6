//! The decisions behind each proxy endpoint.
//!
//! Each handler here is the compute part of one inbound route: it takes the
//! request's values and — where the route forwards a command — the outcome of
//! the device call, and decides the proxy's response. Receiving the request,
//! sending the device call and rendering HTML happen outside the library.

pub mod controls;
pub mod enclosure;
pub mod index;
pub mod upload;
pub mod version;

use vstd::prelude::*;

verus! {

/// A proxy-level response: an HTTP status code and a plain-text body.
#[derive(Debug)]
pub struct HttpReply {
    pub code: u16,
    pub body: String,
}

} // verus!
