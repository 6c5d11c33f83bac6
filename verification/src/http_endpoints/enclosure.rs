//! Responses of the enclosure light and fan routes.
//!
//! Whatever the device answered, a successful set is acknowledged by echoing
//! exactly the submitted value back as the response body.

use vstd::prelude::*;

use crate::http_endpoints::HttpReply;
use crate::numfmt::{dec_digits, u8_to_decimal};
use crate::snapmaker_client::{request_error_text, RequestError};

verus! {

fn enclosure_reply(value: u8, outcome: Result<(), RequestError>, err_prefix: &str) -> (r:
    HttpReply)
    ensures
        (match outcome {
            Ok(()) => r.code == 200 && r.body@ == dec_digits(value as nat),
            Err(e) => r.code == 500 && r.body@ == err_prefix@ + request_error_text(e),
        }),
{
    match outcome {
        Ok(()) => HttpReply { code: 200, body: u8_to_decimal(value) },
        Err(e) => {
            let mut body = String::from_str(err_prefix);
            let detail = e.describe();
            body.append(detail.as_str());
            HttpReply { code: 500, body }
        },
    }
}

/// The light route's response: when the device call succeeded, the submitted
/// value echoed back in decimal — independent of anything the device
/// answered — and a server error otherwise.
pub fn set_enclosure_light(value: u8, outcome: Result<(), RequestError>) -> (r: HttpReply)
    ensures
        (match outcome {
            Ok(()) => r.code == 200 && r.body@ == dec_digits(value as nat),
            Err(e) => r.code == 500 && r.body@ == "Failed to set enclosure light: "@
                + request_error_text(e),
        }),
{
    enclosure_reply(value, outcome, "Failed to set enclosure light: ")
}

/// The fan route's response, built as the light route's is.
pub fn set_enclosure_fan(value: u8, outcome: Result<(), RequestError>) -> (r: HttpReply)
    ensures
        (match outcome {
            Ok(()) => r.code == 200 && r.body@ == dec_digits(value as nat),
            Err(e) => r.code == 500 && r.body@ == "Failed to set enclosure fan: "@
                + request_error_text(e),
        }),
{
    enclosure_reply(value, outcome, "Failed to set enclosure fan: ")
}

} // verus!
