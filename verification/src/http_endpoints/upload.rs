//! The upload route's decisions.
//!
//! The route stages a file on the device and, when asked, starts the print.
//! The device needs a short, fixed wait between staging and starting; the
//! start action therefore carries that delay with it.

use vstd::prelude::*;

use crate::http_endpoints::HttpReply;
use crate::snapmaker_client::{request_error_text, RequestError};

verus! {

/// A device call the upload route issues, in order.
#[derive(Clone, Copy, PartialEq, Eq, Structural, Debug)]
pub enum DeviceAction {
    /// Post the file to the prepare-print route.
    UploadAndPrepare,
    /// Wait the fixed delay the device needs after staging, then post the
    /// start-print command.
    StartAfterDelay,
}

/// The upload route requires a filename; without one it answers a client
/// error and contacts the device not at all.
pub fn validate_upload_filename(filename: Option<String>) -> (r: Result<String, HttpReply>)
    ensures
        (match filename {
            Some(n) => r matches Ok(m) && m == n,
            None => r matches Err(rep) && rep.code == 400 && rep.body@ == "No filename provided"@,
        }),
{
    match filename {
        Some(n) => Ok(n),
        None => Err(HttpReply { code: 400, body: String::from_str("No filename provided") }),
    }
}

/// What follows the staging call: a server error ends the route, success
/// answers at once or goes on to start the print, as the request asked.
pub enum UploadNext {
    Respond(HttpReply),
    StartPrint,
}

/// Decide what follows the staging call's outcome. The print is started only
/// when the staging succeeded and the request asked for it.
pub fn after_upload_outcome(outcome: Result<(), RequestError>, print: bool) -> (r: UploadNext)
    ensures
        (match outcome {
            Ok(()) => if print {
                r is StartPrint
            } else {
                r matches UploadNext::Respond(rep) && rep.code == 201 && rep.body@ == "Success"@
            },
            Err(e) => r matches UploadNext::Respond(rep) && rep.code == 500 && rep.body@
                == "Upload Error from snapmaker: "@ + request_error_text(e),
        }),
{
    match outcome {
        Ok(()) => {
            if print {
                UploadNext::StartPrint
            } else {
                UploadNext::Respond(HttpReply { code: 201, body: String::from_str("Success") })
            }
        },
        Err(e) => {
            let mut body = String::from_str("Upload Error from snapmaker: ");
            let detail = e.describe();
            body.append(detail.as_str());
            UploadNext::Respond(HttpReply { code: 500, body })
        },
    }
}

/// Decide the route's response from the start-print call's outcome.
pub fn after_start_outcome(outcome: Result<(), RequestError>) -> (r: HttpReply)
    ensures
        (match outcome {
            Ok(()) => r.code == 201 && r.body@ == "Success"@,
            Err(e) => r.code == 500 && r.body@ == "Print start Error from snapmaker: "@
                + request_error_text(e),
        }),
{
    match outcome {
        Ok(()) => HttpReply { code: 201, body: String::from_str("Success") },
        Err(e) => {
            let mut body = String::from_str("Print start Error from snapmaker: ");
            let detail = e.describe();
            body.append(detail.as_str());
            HttpReply { code: 500, body }
        },
    }
}

/// The whole upload route, given what the device answered at each step:
/// which device calls it issues, in order, and what it answers the client.
///
/// A missing filename means a client error and no device call; a failed
/// staging means a server error and no start call, whatever `print` asked;
/// a successful staging with `print` set is followed — after the fixed
/// delay — by exactly one start call.
pub fn handle_upload(
    filename: Option<String>,
    print: bool,
    upload_outcome: Result<(), RequestError>,
    start_outcome: Result<(), RequestError>,
) -> (r: (Vec<DeviceAction>, HttpReply))
    ensures
        (match filename {
            None => r.0@ =~= Seq::<DeviceAction>::empty() && r.1.code == 400 && r.1.body@
                == "No filename provided"@,
            Some(_) => match upload_outcome {
                Err(e) => r.0@ =~= seq![DeviceAction::UploadAndPrepare] && r.1.code == 500
                    && r.1.body@ == "Upload Error from snapmaker: "@ + request_error_text(e),
                Ok(()) => if !print {
                    r.0@ =~= seq![DeviceAction::UploadAndPrepare] && r.1.code == 201 && r.1.body@
                        == "Success"@
                } else {
                    match start_outcome {
                        Ok(()) => r.0@ =~= seq![
                            DeviceAction::UploadAndPrepare,
                            DeviceAction::StartAfterDelay,
                        ] && r.1.code == 201 && r.1.body@ == "Success"@,
                        Err(e) => r.0@ =~= seq![
                            DeviceAction::UploadAndPrepare,
                            DeviceAction::StartAfterDelay,
                        ] && r.1.code == 500 && r.1.body@ == "Print start Error from snapmaker: "@
                            + request_error_text(e),
                    }
                },
            },
        }),
{
    let mut calls: Vec<DeviceAction> = Vec::new();
    let _name = match validate_upload_filename(filename) {
        Ok(n) => n,
        Err(rep) => {
            return (calls, rep);
        },
    };
    calls.push(DeviceAction::UploadAndPrepare);
    match after_upload_outcome(upload_outcome, print) {
        UploadNext::Respond(rep) => (calls, rep),
        UploadNext::StartPrint => {
            calls.push(DeviceAction::StartAfterDelay);
            let rep = after_start_outcome(start_outcome);
            (calls, rep)
        },
    }
}

} // verus!
