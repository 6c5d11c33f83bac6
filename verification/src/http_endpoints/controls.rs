//! Responses of the pause, stop and resume routes.

use vstd::prelude::*;

use crate::http_endpoints::HttpReply;
use crate::snapmaker_client::{request_error_text, RequestError};

verus! {

fn control_reply(outcome: Result<(), RequestError>, ok_text: &str, err_prefix: &str) -> (r:
    HttpReply)
    ensures
        (match outcome {
            Ok(()) => r.code == 200 && r.body@ == ok_text@,
            Err(e) => r.code == 500 && r.body@ == err_prefix@ + request_error_text(e),
        }),
{
    match outcome {
        Ok(()) => HttpReply { code: 200, body: String::from_str(ok_text) },
        Err(e) => {
            let mut body = String::from_str(err_prefix);
            let detail = e.describe();
            body.append(detail.as_str());
            HttpReply { code: 500, body }
        },
    }
}

/// The pause route's response: a success message when the device accepted
/// the command, a server error carrying the failure's text otherwise.
pub fn pause_print(outcome: Result<(), RequestError>) -> (r: HttpReply)
    ensures
        (match outcome {
            Ok(()) => r.code == 200 && r.body@ == "Print paused successfully"@,
            Err(e) => r.code == 500 && r.body@ == "Failed to pause print: "@ + request_error_text(
                e,
            ),
        }),
{
    control_reply(outcome, "Print paused successfully", "Failed to pause print: ")
}

/// The stop route's response, built as the pause route's is.
pub fn stop_print(outcome: Result<(), RequestError>) -> (r: HttpReply)
    ensures
        (match outcome {
            Ok(()) => r.code == 200 && r.body@ == "Print stopped successfully"@,
            Err(e) => r.code == 500 && r.body@ == "Failed to stop print: "@ + request_error_text(
                e,
            ),
        }),
{
    control_reply(outcome, "Print stopped successfully", "Failed to stop print: ")
}

/// The resume route's response, built as the pause route's is.
pub fn resume_print(outcome: Result<(), RequestError>) -> (r: HttpReply)
    ensures
        (match outcome {
            Ok(()) => r.code == 200 && r.body@ == "Print resumed successfully"@,
            Err(e) => r.code == 500 && r.body@ == "Failed to resume print: "@ + request_error_text(
                e,
            ),
        }),
{
    control_reply(outcome, "Print resumed successfully", "Failed to resume print: ")
}

} // verus!
