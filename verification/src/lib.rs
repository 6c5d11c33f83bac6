//! Verified core of a proxy server that sits between a web UI and a
//! Snapmaker 3D printer's local HTTP API.
//!
//! The library holds the proxy's logic: the token-acquisition handshake,
//! the request builders for the device's REST API, the keep-alive loop's
//! merge-and-publish step, and the decisions behind each proxy endpoint.
//! The surrounding binary performs the actual network and file I/O and
//! feeds the outcomes back into these functions.

pub mod numfmt;
pub mod status;
pub mod snapmaker_client;
pub mod http_endpoints;
