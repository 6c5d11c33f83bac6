//! The version route.

use vstd::prelude::*;

verus! {

/// The fixed identity the proxy reports, mimicking a well-known
/// printer-management server so that existing clients accept it.
pub struct OctoVersion {
    pub api: String,
    pub server: String,
    pub text: String,
}

/// The version route's body: the same fixed literals whatever the device's
/// state.
pub fn get_version() -> (r: OctoVersion)
    ensures
        r.api@ == "0.1"@,
        r.server@ == "1.9.0"@,
        r.text@ == "OctoPrint (Snapmaker Proxy)"@,
{
    OctoVersion {
        api: String::from_str("0.1"),
        server: String::from_str("1.9.0"),
        text: String::from_str("OctoPrint (Snapmaker Proxy)"),
    }
}

} // verus!
