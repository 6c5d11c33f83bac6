//! The device client: translates proxy-level intents into requests against
//! the Snapmaker's REST API, interprets the device's answers, and carries
//! the keep-alive loop's merge-and-publish step.
//!
//! Network I/O lives outside the library: each builder here returns a full
//! description of the request to send, and each interpreter takes the
//! outcome of a send and decides what it means.

use vstd::prelude::*;

use crate::numfmt::{dec_digits, dec_digits_signed, i64_to_decimal, u64_to_decimal, u8_to_decimal};
use crate::status::{merged, EnclosureStatus, PrinterStatus, StatusWatch};

verus! {

/// A device call succeeded when it answered with a 2xx status code.
pub open spec fn is_success_code(code: u16) -> bool {
    200 <= code < 300
}

/// Whether an HTTP status code reports success (2xx).
pub fn status_code_is_success(code: u16) -> (r: bool)
    ensures
        r == is_success_code(code),
{
    200 <= code && code < 300
}

/// The HTTP method of a device request.
#[derive(Clone, Copy, PartialEq, Eq, Structural, Debug)]
pub enum HttpMethod {
    Get,
    Post,
}

/// One name/value pair of a form-encoded request body.
pub struct FormField {
    pub name: String,
    pub value: String,
}

/// A fully-built device request, ready for the binary to send.
pub struct DeviceRequest {
    pub method: HttpMethod,
    pub url: String,
    pub form: Vec<FormField>,
}

/// The URL of one route of the device's REST API.
pub open spec fn api_url(base: Seq<char>, path: Seq<char>) -> Seq<char> {
    base + "/api/v1/"@ + path
}

/// The URL of a control route, with the token as its query parameter.
pub open spec fn control_url(base: Seq<char>, path: Seq<char>, token: Seq<char>) -> Seq<char> {
    api_url(base, path) + "?token="@ + token
}

/// The URL of a read route, with the token and a cache-busting timestamp as
/// query parameters.
pub open spec fn read_url(base: Seq<char>, path: Seq<char>, token: Seq<char>, ts: int) -> Seq<char> {
    api_url(base, path) + "?token="@ + token + "&"@ + dec_digits_signed(ts)
}

fn post_with_token_query(base: &str, path: &str, token: &str) -> (r: DeviceRequest)
    ensures
        r.method == HttpMethod::Post,
        r.url@ == control_url(base@, path@, token@),
        r.form@.len() == 0,
{
    let mut url = String::from_str(base);
    url.append("/api/v1/");
    url.append(path);
    url.append("?token=");
    url.append(token);
    proof {
        assert(url@ =~= control_url(base@, path@, token@));
    }
    DeviceRequest { method: HttpMethod::Post, url, form: Vec::new() }
}

fn get_with_token_and_timestamp(base: &str, path: &str, token: &str, ts: i64) -> (r: DeviceRequest)
    ensures
        r.method == HttpMethod::Get,
        r.url@ == read_url(base@, path@, token@, ts as int),
        r.form@.len() == 0,
{
    let mut url = String::from_str(base);
    url.append("/api/v1/");
    url.append(path);
    url.append("?token=");
    url.append(token);
    url.append("&");
    let digits = i64_to_decimal(ts);
    url.append(digits.as_str());
    proof {
        assert(url@ =~= read_url(base@, path@, token@, ts as int));
    }
    DeviceRequest { method: HttpMethod::Get, url, form: Vec::new() }
}

/// The request that pauses the running print.
pub fn pause_print(base: &str, token: &str) -> (r: DeviceRequest)
    ensures
        r.method == HttpMethod::Post,
        r.url@ == control_url(base@, "pause_print"@, token@),
        r.form@.len() == 0,
{
    post_with_token_query(base, "pause_print", token)
}

/// The request that stops the running print.
pub fn stop_print(base: &str, token: &str) -> (r: DeviceRequest)
    ensures
        r.method == HttpMethod::Post,
        r.url@ == control_url(base@, "stop_print"@, token@),
        r.form@.len() == 0,
{
    post_with_token_query(base, "stop_print", token)
}

/// The request that resumes the paused print.
pub fn resume_print(base: &str, token: &str) -> (r: DeviceRequest)
    ensures
        r.method == HttpMethod::Post,
        r.url@ == control_url(base@, "resume_print"@, token@),
        r.form@.len() == 0,
{
    post_with_token_query(base, "resume_print", token)
}

/// The request that starts the prepared print.
pub fn start_print(base: &str, token: &str) -> (r: DeviceRequest)
    ensures
        r.method == HttpMethod::Post,
        r.url@ == control_url(base@, "start_print"@, token@),
        r.form@.len() == 0,
{
    post_with_token_query(base, "start_print", token)
}

/// The request that reads the printer's status, with the given cache-busting
/// timestamp.
pub fn status_request_at(base: &str, token: &str, ts: i64) -> (r: DeviceRequest)
    ensures
        r.method == HttpMethod::Get,
        r.url@ == read_url(base@, "status"@, token@, ts as int),
        r.form@.len() == 0,
{
    get_with_token_and_timestamp(base, "status", token, ts)
}

/// The request that reads the enclosure's status, with the given
/// cache-busting timestamp.
pub fn enclosure_request_at(base: &str, token: &str, ts: i64) -> (r: DeviceRequest)
    ensures
        r.method == HttpMethod::Get,
        r.url@ == read_url(base@, "enclosure"@, token@, ts as int),
        r.form@.len() == 0,
{
    get_with_token_and_timestamp(base, "enclosure", token, ts)
}

/// Relies on one std clock read: std::time::SystemTime::now, held against
/// the Unix epoch with SystemTime::duration_since and Duration::as_secs.
/// The result is the clock's whole seconds and which side of the epoch they
/// lie on. Unlike a calendar-time library's panicking now, none of these
/// calls panics on a clock set before the epoch: that case comes back
/// through the error's own duration.
#[verifier::external_body]
fn clock_since_epoch() -> (r: (bool, u64)) {
    match std::time::SystemTime::now().duration_since(std::time::UNIX_EPOCH) {
        Ok(d) => (false, d.as_secs()),
        Err(e) => (true, e.duration().as_secs()),
    }
}

/// The current time as whole seconds since the Unix epoch: negative for a
/// clock set before it, saturated at the extremes an i64 can carry (a clock
/// hundreds of billions of years from the epoch).
fn unix_timestamp_now() -> i64 {
    let clock = clock_since_epoch();
    let before_epoch: bool = clock.0;
    let secs: u64 = clock.1;
    if before_epoch {
        if secs > i64::MAX as u64 {
            i64::MIN
        } else {
            -(secs as i64)
        }
    } else {
        if secs > i64::MAX as u64 {
            i64::MAX
        } else {
            secs as i64
        }
    }
}

/// The request that reads the printer's status, stamped with the current
/// time to defeat caches. The timestamp is read from the clock, so only its
/// position in the URL is known.
pub fn get_status(base: &str, token: &str) -> (r: DeviceRequest)
    ensures
        r.method == HttpMethod::Get,
        exists|ts: int| r.url@ == read_url(base@, "status"@, token@, ts),
        r.form@.len() == 0,
{
    let ts = unix_timestamp_now();
    let r = status_request_at(base, token, ts);
    proof {
        assert(r.url@ == read_url(base@, "status"@, token@, ts as int));
    }
    r
}

/// The request that reads the enclosure's status, stamped with the current
/// time to defeat caches.
pub fn get_enclosure_status(base: &str, token: &str) -> (r: DeviceRequest)
    ensures
        r.method == HttpMethod::Get,
        exists|ts: int| r.url@ == read_url(base@, "enclosure"@, token@, ts),
        r.form@.len() == 0,
{
    let ts = unix_timestamp_now();
    let r = enclosure_request_at(base, token, ts);
    proof {
        assert(r.url@ == read_url(base@, "enclosure"@, token@, ts as int));
    }
    r
}

/// Which enclosure subsystem a set request addresses. The device changes
/// only the addressed field and leaves the other untouched.
#[derive(Clone, Copy, PartialEq, Eq, Structural, Debug)]
pub enum EnclosureField {
    Led,
    Fan,
}

/// The form-field name for one enclosure subsystem.
pub open spec fn enclosure_field_name(f: EnclosureField) -> Seq<char> {
    match f {
        EnclosureField::Led => "led"@,
        EnclosureField::Fan => "fan"@,
    }
}

/// The request that sets one enclosure field to `value`, form-encoded as
/// `{token, field_name: value}`.
pub fn set_enclosure(base: &str, token: &str, field: EnclosureField, value: u8) -> (r:
    DeviceRequest)
    ensures
        r.method == HttpMethod::Post,
        r.url@ == api_url(base@, "enclosure"@),
        r.form@.len() == 2,
        r.form@[0].name@ == "token"@,
        r.form@[0].value@ == token@,
        r.form@[1].name@ == enclosure_field_name(field),
        r.form@[1].value@ == dec_digits(value as nat),
{
    let mut url = String::from_str(base);
    url.append("/api/v1/");
    url.append("enclosure");
    proof {
        assert(url@ =~= api_url(base@, "enclosure"@));
    }
    let field_name = match field {
        EnclosureField::Led => "led",
        EnclosureField::Fan => "fan",
    };
    let mut form: Vec<FormField> = Vec::new();
    form.push(FormField { name: String::from_str("token"), value: String::from_str(token) });
    form.push(
        FormField { name: String::from_str(field_name), value: u8_to_decimal(value) },
    );
    DeviceRequest { method: HttpMethod::Post, url, form }
}

/// The request that sets the enclosure's LED brightness.
pub fn set_enclosure_light(base: &str, token: &str, value: u8) -> (r: DeviceRequest)
    ensures
        r.method == HttpMethod::Post,
        r.url@ == api_url(base@, "enclosure"@),
        r.form@.len() == 2,
        r.form@[0].name@ == "token"@,
        r.form@[0].value@ == token@,
        r.form@[1].name@ == "led"@,
        r.form@[1].value@ == dec_digits(value as nat),
{
    set_enclosure(base, token, EnclosureField::Led, value)
}

/// The request that sets the enclosure's fan speed.
pub fn set_enclosure_fan(base: &str, token: &str, value: u8) -> (r: DeviceRequest)
    ensures
        r.method == HttpMethod::Post,
        r.url@ == api_url(base@, "enclosure"@),
        r.form@.len() == 2,
        r.form@[0].name@ == "token"@,
        r.form@[0].value@ == token@,
        r.form@[1].name@ == "fan"@,
        r.form@[1].value@ == dec_digits(value as nat),
{
    set_enclosure(base, token, EnclosureField::Fan, value)
}

/// A multipart upload request against the device's prepare-print route.
///
/// Uploads go through `prepare_print`, not the plain upload route: the
/// device cannot start a print from a plain upload, and where it stores one
/// is unobservable. That workaround is deliberate and load-bearing.
pub struct UploadRequest {
    pub url: String,
    pub file_name: String,
    pub file_mime: String,
    pub file_content: Vec<u8>,
    pub fields: Vec<FormField>,
}

/// The request that stages `content` under `filename` for an immediate
/// print: a multipart form `{file, token, type: "3DP"}` posted to the
/// prepare-print route.
pub fn upload_file_to_snapmaker(base: &str, token: &str, filename: &str, content: Vec<u8>) -> (r:
    UploadRequest)
    ensures
        r.url@ == api_url(base@, "prepare_print"@),
        r.file_name@ == filename@,
        r.file_mime@ == "application/octet-stream"@,
        r.file_content@ == content@,
        r.fields@.len() == 2,
        r.fields@[0].name@ == "token"@,
        r.fields@[0].value@ == token@,
        r.fields@[1].name@ == "type"@,
        r.fields@[1].value@ == "3DP"@,
{
    let mut url = String::from_str(base);
    url.append("/api/v1/");
    url.append("prepare_print");
    proof {
        assert(url@ =~= api_url(base@, "prepare_print"@));
    }
    let mut fields: Vec<FormField> = Vec::new();
    fields.push(FormField { name: String::from_str("token"), value: String::from_str(token) });
    fields.push(FormField { name: String::from_str("type"), value: String::from_str("3DP") });
    UploadRequest {
        url,
        file_name: String::from_str(filename),
        file_mime: String::from_str("application/octet-stream"),
        file_content: content,
        fields,
    }
}

/// A device call that went through but was answered badly, or did not go
/// through at all.
#[derive(Debug)]
pub enum RequestError {
    /// The request could not be sent or no answer arrived.
    Transport,
    /// The device answered with a non-success status code; its answer's body
    /// is kept for diagnostics.
    Http { status_code: u16, body: String },
    /// The device answered with success but the body could not be read as
    /// the expected value.
    MalformedBody,
}

/// The human-readable text of a request error, as the proxy's error
/// responses carry it: for a device answer, its status code's digits and its
/// body.
pub open spec fn request_error_text(e: RequestError) -> Seq<char> {
    match e {
        RequestError::Transport => "error sending request to the device"@,
        RequestError::Http { status_code, body } => "device answered "@ + dec_digits(
            status_code as nat,
        ) + ": "@ + body@,
        RequestError::MalformedBody => "device answer could not be read"@,
    }
}

impl RequestError {
    /// The error's human-readable text.
    pub fn describe(&self) -> (r: String)
        ensures
            r@ == request_error_text(*self),
    {
        match self {
            RequestError::Transport => String::from_str("error sending request to the device"),
            RequestError::Http { status_code, body } => {
                let mut s = String::from_str("device answered ");
                let digits = u64_to_decimal(*status_code as u64);
                s.append(digits.as_str());
                s.append(": ");
                s.append(body.as_str());
                proof {
                    assert(s@ =~= request_error_text(*self));
                }
                s
            },
            RequestError::MalformedBody => String::from_str("device answer could not be read"),
        }
    }
}

/// What a sent device call came back with: nothing, or a status code and a
/// body.
pub enum SendOutcome {
    SendError,
    Response { status_code: u16, body: String },
}

/// How a control call's outcome is read: success for 2xx, otherwise the
/// status and body as a request error.
pub open spec fn control_result(o: SendOutcome) -> Result<(), RequestError> {
    match o {
        SendOutcome::SendError => Err(RequestError::Transport),
        SendOutcome::Response { status_code, body } => if is_success_code(status_code) {
            Ok(())
        } else {
            Err(RequestError::Http { status_code, body })
        },
    }
}

/// Decide what a control call's outcome means: `Ok` exactly on a 2xx answer.
pub fn interpret_control_outcome(outcome: SendOutcome) -> (r: Result<(), RequestError>)
    ensures
        r == control_result(outcome),
{
    match outcome {
        SendOutcome::SendError => Err(RequestError::Transport),
        SendOutcome::Response { status_code, body } => {
            if status_code_is_success(status_code) {
                Ok(())
            } else {
                Err(RequestError::Http { status_code, body })
            }
        },
    }
}

/// `raw` with its work speed normalized from the device's mm/h to the
/// published mm/min; all other fields kept.
pub open spec fn normalized(raw: PrinterStatus) -> PrinterStatus {
    PrinterStatus { work_speed_milli: (raw.work_speed_milli / 60) as u64, ..raw }
}

/// Normalize a freshly fetched snapshot: the device reports `work_speed` in
/// mm/h, the proxy publishes mm/min, so the reading is divided by 60.
pub fn normalize_status(raw: PrinterStatus) -> (r: PrinterStatus)
    ensures
        r == normalized(raw),
{
    let mut r = raw;
    r.work_speed_milli = r.work_speed_milli / 60;
    r
}

/// How a status fetch's outcome is read: the parsed body, normalized, on a
/// 2xx answer with a readable body; the error otherwise.
pub open spec fn status_fetch_result(o: SendOutcome, parsed: Option<PrinterStatus>) -> Result<
    PrinterStatus,
    RequestError,
> {
    match o {
        SendOutcome::SendError => Err(RequestError::Transport),
        SendOutcome::Response { status_code, body } => if !is_success_code(status_code) {
            Err(RequestError::Http { status_code, body })
        } else {
            match parsed {
                Some(raw) => Ok(normalized(raw)),
                None => Err(RequestError::MalformedBody),
            }
        },
    }
}

/// Decide what a status fetch came to. The body's decoding into a raw
/// snapshot happens outside the library; `parsed` is its result, and is
/// only meaningful when the device answered with success.
pub fn interpret_status_outcome(outcome: SendOutcome, parsed: Option<PrinterStatus>) -> (r: Result<
    PrinterStatus,
    RequestError,
>)
    ensures
        r == status_fetch_result(outcome, parsed),
{
    match outcome {
        SendOutcome::SendError => Err(RequestError::Transport),
        SendOutcome::Response { status_code, body } => {
            if !status_code_is_success(status_code) {
                Err(RequestError::Http { status_code, body })
            } else {
                match parsed {
                    Some(raw) => Ok(normalize_status(raw)),
                    None => Err(RequestError::MalformedBody),
                }
            }
        },
    }
}

/// How an enclosure fetch's outcome is read: the parsed reading on a 2xx
/// answer with a readable body; the error otherwise.
pub open spec fn enclosure_fetch_result(o: SendOutcome, parsed: Option<EnclosureStatus>) -> Result<
    EnclosureStatus,
    RequestError,
> {
    match o {
        SendOutcome::SendError => Err(RequestError::Transport),
        SendOutcome::Response { status_code, body } => if !is_success_code(status_code) {
            Err(RequestError::Http { status_code, body })
        } else {
            match parsed {
                Some(e) => Ok(e),
                None => Err(RequestError::MalformedBody),
            }
        },
    }
}

/// Decide what an enclosure fetch came to; the body's decoding happens
/// outside the library, as for a status fetch.
pub fn interpret_enclosure_outcome(outcome: SendOutcome, parsed: Option<EnclosureStatus>) -> (r:
    Result<EnclosureStatus, RequestError>)
    ensures
        r == enclosure_fetch_result(outcome, parsed),
{
    match outcome {
        SendOutcome::SendError => Err(RequestError::Transport),
        SendOutcome::Response { status_code, body } => {
            if !status_code_is_success(status_code) {
                Err(RequestError::Http { status_code, body })
            } else {
                match parsed {
                    Some(e) => Ok(e),
                    None => Err(RequestError::MalformedBody),
                }
            }
        },
    }
}

/// The device's answer to a connect request: a JSON object carrying the
/// granted token.
#[derive(Debug)]
pub struct SnapmakerTokenResponse {
    pub token: String,
}

/// The token field of a JSON document, when the document is an object whose
/// `token` member is a string.
pub uninterp spec fn json_token_field(body: Seq<char>) -> Option<Seq<char>>;

/// Relies on serde_json: `from_str` on `Value` reads the body as JSON, and
/// `Value::get` with `Value::as_str` pick out the `token` member when it is
/// a string; the outcome depends on the body's characters alone.
#[verifier::external_body]
fn parse_token_response(body: &str) -> (r: Option<SnapmakerTokenResponse>)
    ensures
        (match r {
            Some(t) => json_token_field(body@) == Some(t.token@),
            None => json_token_field(body@) is None,
        }),
{
    match serde_json::from_str::<serde_json::Value>(body) {
        Ok(v) => match v.get("token") {
            Some(t) => match t.as_str() {
                Some(s) => Some(SnapmakerTokenResponse { token: s.to_string() }),
                None => None,
            },
            None => None,
        },
        Err(_) => None,
    }
}

/// The request that refreshes a stored token: the old token, form-encoded,
/// posted to the connect route. The device answers with the token to use
/// from then on, which may or may not be the old one.
pub fn connect_refresh_request(base: &str, token: &str) -> (r: DeviceRequest)
    ensures
        r.method == HttpMethod::Post,
        r.url@ == api_url(base@, "connect"@),
        r.form@.len() == 1,
        r.form@[0].name@ == "token"@,
        r.form@[0].value@ == token@,
{
    let mut url = String::from_str(base);
    url.append("/api/v1/");
    url.append("connect");
    proof {
        assert(url@ =~= api_url(base@, "connect"@));
    }
    let mut form: Vec<FormField> = Vec::new();
    form.push(FormField { name: String::from_str("token"), value: String::from_str(token) });
    DeviceRequest { method: HttpMethod::Post, url, form }
}

/// The request for a fresh token: an unauthenticated post to the connect
/// route, which the real device answers only after the user confirms on its
/// touchscreen.
pub fn connect_fresh_request(base: &str) -> (r: DeviceRequest)
    ensures
        r.method == HttpMethod::Post,
        r.url@ == api_url(base@, "connect"@),
        r.form@.len() == 0,
{
    let mut url = String::from_str(base);
    url.append("/api/v1/");
    url.append("connect");
    proof {
        assert(url@ =~= api_url(base@, "connect"@));
    }
    DeviceRequest { method: HttpMethod::Post, url, form: Vec::new() }
}

/// The token a connect outcome grants: present exactly when the device
/// answered with success and the body carries a token string.
pub open spec fn outcome_token(o: SendOutcome) -> Option<Seq<char>> {
    match o {
        SendOutcome::SendError => None,
        SendOutcome::Response { status_code, body } => if is_success_code(status_code) {
            json_token_field(body@)
        } else {
            None
        },
    }
}

/// Decide what a refresh attempt came to: the granted token, or nothing, in
/// which case the caller falls through to requesting a fresh token. Every
/// refresh failure — a send error, a non-success answer, an unreadable body
/// — falls through; none is fatal.
pub fn handle_refresh_outcome(outcome: SendOutcome) -> (r: Option<SnapmakerTokenResponse>)
    ensures
        (match r {
            Some(t) => outcome_token(outcome) == Some(t.token@),
            None => outcome_token(outcome) is None,
        }),
{
    match outcome {
        SendOutcome::SendError => None,
        SendOutcome::Response { status_code, body } => {
            if status_code_is_success(status_code) {
                parse_token_response(body.as_str())
            } else {
                None
            }
        },
    }
}

/// Token acquisition failed; the process cannot start without a token.
#[derive(Clone, Copy, PartialEq, Eq, Structural, Debug)]
pub enum AuthError {
    /// The connect request could not be sent or no answer arrived.
    Transport,
    /// The device answered the fresh-token request with a non-success
    /// status.
    Rejected { status_code: u16 },
    /// The device answered with success but the body does not carry a
    /// `{token: string}` member.
    MalformedBody,
}

/// How a fresh-token outcome is read: the granted token on a success answer
/// carrying one, the exact failure otherwise.
pub open spec fn fresh_token_result(o: SendOutcome) -> Result<Seq<char>, AuthError> {
    match o {
        SendOutcome::SendError => Err(AuthError::Transport),
        SendOutcome::Response { status_code, body } => if !is_success_code(status_code) {
            Err(AuthError::Rejected { status_code })
        } else {
            match json_token_field(body@) {
                Some(t) => Ok(t),
                None => Err(AuthError::MalformedBody),
            }
        },
    }
}

/// Decide what the fresh-token request came to. Unlike a refresh, a failure
/// here is final.
pub fn handle_fresh_outcome(outcome: SendOutcome) -> (r: Result<SnapmakerTokenResponse, AuthError>)
    ensures
        (match r {
            Ok(t) => fresh_token_result(outcome) == Ok::<Seq<char>, AuthError>(t.token@),
            Err(e) => fresh_token_result(outcome) == Err::<Seq<char>, AuthError>(e),
        }),
{
    match outcome {
        SendOutcome::SendError => Err(AuthError::Transport),
        SendOutcome::Response { status_code, body } => {
            if !status_code_is_success(status_code) {
                Err(AuthError::Rejected { status_code })
            } else {
                match parse_token_response(body.as_str()) {
                    Some(t) => Ok(t),
                    None => Err(AuthError::MalformedBody),
                }
            }
        },
    }
}

/// A token the handshake settled on. The caller persists it — even when it
/// is the stored one handed back unchanged — before using it.
#[derive(Debug)]
pub struct TokenAcquisition {
    pub response: SnapmakerTokenResponse,
    /// Whether the token came from refreshing the stored one; when false, it
    /// came from the fresh-token request.
    pub via_refresh: bool,
}

/// The whole token handshake, given what the device answered at each step:
/// with a stored token, a refresh is attempted first and any grant it yields
/// wins; otherwise — no stored token, or any refresh failure — the fresh
/// request decides, and its failure is the handshake's failure.
pub fn get_snapmaker_token(
    stored: Option<String>,
    refresh_outcome: SendOutcome,
    fresh_outcome: SendOutcome,
) -> (r: Result<TokenAcquisition, AuthError>)
    ensures
        (stored is Some && outcome_token(refresh_outcome) is Some) ==> (match r {
            Ok(a) => a.via_refresh && outcome_token(refresh_outcome) == Some(a.response.token@),
            Err(_) => false,
        }),
        (stored is None || outcome_token(refresh_outcome) is None) ==> (match r {
            Ok(a) => !a.via_refresh && fresh_token_result(fresh_outcome) == Ok::<Seq<char>, AuthError>(a.response.token@),
            Err(e) => fresh_token_result(fresh_outcome) == Err::<Seq<char>, AuthError>(e),
        }),
{
    if stored.is_some() {
        match handle_refresh_outcome(refresh_outcome) {
            Some(t) => {
                return Ok(TokenAcquisition { response: t, via_refresh: true });
            },
            None => {},
        }
    }
    match handle_fresh_outcome(fresh_outcome) {
        Ok(t) => Ok(TokenAcquisition { response: t, via_refresh: false }),
        Err(e) => Err(e),
    }
}

/// What one keep-alive iteration's two fetches came to, failures already
/// logged by the caller: the enclosure reading, if that fetch succeeded, and
/// the normalized status snapshot, if that fetch succeeded.
pub struct TickOutcome {
    pub enclosure: Option<EnclosureStatus>,
    pub status: Option<PrinterStatus>,
}

impl Clone for TickOutcome {
    fn clone(&self) -> (r: Self)
        ensures
            r == *self,
    {
        TickOutcome {
            enclosure: self.enclosure,
            status: match &self.status {
                Some(s) => Some(s.clone()),
                None => None,
            },
        }
    }
}

/// What one iteration publishes: nothing when the status fetch failed;
/// otherwise the fetched snapshot merged with this iteration's enclosure
/// reading, or with the default reading when the enclosure fetch failed —
/// never with an earlier iteration's reading.
pub open spec fn tick_publish(t: TickOutcome) -> Option<PrinterStatus> {
    match t.status {
        Some(s) => Some(
            merged(
                s,
                match t.enclosure {
                    Some(e) => e,
                    None => EnclosureStatus { led: 0, fan: 0 },
                },
            ),
        ),
        None => None,
    }
}

/// One keep-alive iteration's decision: merge and publish on a successful
/// status fetch, leave the previous snapshot standing otherwise.
pub fn keep_alive_tick(watch: &mut StatusWatch, outcome: TickOutcome)
    ensures
        final(watch)@ == (match tick_publish(outcome) {
            Some(s) => s,
            None => old(watch)@,
        }),
        (outcome.enclosure is None && outcome.status is Some) ==> final(watch)@.enclosure == (
        EnclosureStatus { led: 0, fan: 0 }),
{
    match outcome.status {
        Some(s) => {
            let e = match outcome.enclosure {
                Some(e) => e,
                None => EnclosureStatus::default(),
            };
            watch.publish(s.with_enclosure(e));
        },
        None => {},
    }
}

/// The snapshot the cell holds after the given iterations, starting from
/// `start`.
pub open spec fn apply_ticks(start: PrinterStatus, ticks: Seq<TickOutcome>) -> PrinterStatus
    decreases ticks.len(),
{
    if ticks.len() == 0 {
        start
    } else {
        match tick_publish(ticks.last()) {
            Some(s) => s,
            None => apply_ticks(start, ticks.drop_last()),
        }
    }
}

/// The most recent snapshot the given iterations published, if any did.
pub open spec fn last_published(ticks: Seq<TickOutcome>) -> Option<PrinterStatus>
    decreases ticks.len(),
{
    if ticks.len() == 0 {
        None
    } else {
        match tick_publish(ticks.last()) {
            Some(s) => Some(s),
            None => last_published(ticks.drop_last()),
        }
    }
}

/// Run a sequence of keep-alive iterations against the cell.
pub fn keep_alive_run(watch: &mut StatusWatch, ticks: &Vec<TickOutcome>)
    ensures
        final(watch)@ == apply_ticks(old(watch)@, ticks@),
{
    let mut i: usize = 0;
    while i < ticks.len()
        invariant
            i <= ticks.len(),
            watch@ == apply_ticks(old(watch)@, ticks@.take(i as int)),
        decreases ticks.len() - i,
    {
        keep_alive_tick(watch, ticks[i].clone());
        proof {
            assert(ticks@.take(i + 1 as int).last() == ticks@[i as int]);
            assert(ticks@.take(i + 1 as int).drop_last() =~= ticks@.take(i as int));
        }
        i = i + 1;
    }
    proof {
        assert(ticks@.take(ticks@.len() as int) =~= ticks@);
    }
}

/// Law: after any interleaving of successful and failed iterations, the cell
/// holds the snapshot of the most recent successful one; only a run with no
/// success at all leaves the starting value — so once one poll has
/// succeeded, readers never again see the starting default.
pub proof fn lemma_keep_alive_freshness(start: PrinterStatus, ticks: Seq<TickOutcome>)
    ensures
        (match last_published(ticks) {
            Some(s) => apply_ticks(start, ticks) == s,
            None => apply_ticks(start, ticks) == start,
        }),
    decreases ticks.len(),
{
    if ticks.len() > 0 && tick_publish(ticks.last()) is None {
        lemma_keep_alive_freshness(start, ticks.drop_last());
    }
}

/// Law: one successful iteration anywhere in the run is enough for the cell
/// to hold a published snapshot rather than the starting value.
pub proof fn lemma_success_is_published(ticks: Seq<TickOutcome>)
    ensures
        (exists|i: int| 0 <= i < ticks.len() && tick_publish(ticks[i]) is Some)
            ==> last_published(ticks) is Some,
    decreases ticks.len(),
{
    if ticks.len() > 0 && tick_publish(ticks.last()) is None {
        lemma_success_is_published(ticks.drop_last());
        if exists|i: int| 0 <= i < ticks.len() && tick_publish(ticks[i]) is Some {
            let i = choose|i: int| 0 <= i < ticks.len() && tick_publish(ticks[i]) is Some;
            assert(ticks[ticks.len() - 1] == ticks.last());
            assert(i < ticks.len() - 1);
            assert(tick_publish(ticks.drop_last()[i]) is Some);
        }
    }
}

} // verus!
