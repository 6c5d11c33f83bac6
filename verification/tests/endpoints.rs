use snapmaker_proxy::http_endpoints::controls::{pause_print, resume_print, stop_print};
use snapmaker_proxy::http_endpoints::enclosure::{set_enclosure_fan, set_enclosure_light};
use snapmaker_proxy::http_endpoints::upload::{
    after_start_outcome, after_upload_outcome, handle_upload, validate_upload_filename,
    DeviceAction, UploadNext,
};
use snapmaker_proxy::http_endpoints::version::get_version;
use snapmaker_proxy::numfmt::{i64_to_decimal, u64_to_decimal, u8_to_decimal};
use snapmaker_proxy::snapmaker_client::RequestError;

fn device_down() -> RequestError {
    RequestError::Http {
        status_code: 502,
        body: "bad gateway".to_string(),
    }
}

#[test]
fn decimal_rendering_is_exact() {
    assert_eq!(u8_to_decimal(0), "0");
    assert_eq!(u8_to_decimal(7), "7");
    assert_eq!(u8_to_decimal(255), "255");
    assert_eq!(u64_to_decimal(1_234_567_890), "1234567890");
    assert_eq!(u64_to_decimal(u64::MAX), "18446744073709551615");
    assert_eq!(i64_to_decimal(0), "0");
    assert_eq!(i64_to_decimal(-42), "-42");
    assert_eq!(i64_to_decimal(i64::MIN), "-9223372036854775808");
    assert_eq!(i64_to_decimal(i64::MAX), "9223372036854775807");
}

#[test]
fn enclosure_routes_echo_the_submitted_value() {
    for value in [0u8, 1, 120, 255] {
        let r = set_enclosure_light(value, Ok(()));
        assert_eq!(r.code, 200);
        assert_eq!(r.body, value.to_string());

        let r = set_enclosure_fan(value, Ok(()));
        assert_eq!(r.code, 200);
        assert_eq!(r.body, value.to_string());
    }
}

#[test]
fn enclosure_routes_report_device_failures() {
    let r = set_enclosure_light(40, Err(device_down()));
    assert_eq!(r.code, 500);
    assert_eq!(
        r.body,
        "Failed to set enclosure light: device answered 502: bad gateway"
    );

    let r = set_enclosure_fan(40, Err(RequestError::Transport));
    assert_eq!(r.code, 500);
    assert_eq!(
        r.body,
        "Failed to set enclosure fan: error sending request to the device"
    );
}

#[test]
fn control_routes_answer_plain_text() {
    let r = pause_print(Ok(()));
    assert_eq!(r.code, 200);
    assert_eq!(r.body, "Print paused successfully");

    let r = stop_print(Err(RequestError::Transport));
    assert_eq!(r.code, 500);
    assert_eq!(
        r.body,
        "Failed to stop print: error sending request to the device"
    );

    let r = resume_print(Ok(()));
    assert_eq!(r.code, 200);
    assert_eq!(r.body, "Print resumed successfully");
}

#[test]
fn the_version_route_is_a_fixed_literal() {
    let v = get_version();
    assert_eq!(v.api, "0.1");
    assert_eq!(v.server, "1.9.0");
    assert_eq!(v.text, "OctoPrint (Snapmaker Proxy)");
}

#[test]
fn a_missing_filename_is_a_client_error_without_device_contact() {
    let (calls, reply) = handle_upload(None, true, Ok(()), Ok(()));
    assert!(calls.is_empty());
    assert_eq!(reply.code, 400);
    assert_eq!(reply.body, "No filename provided");

    let rep = validate_upload_filename(None).unwrap_err();
    assert_eq!(rep.code, 400);
    assert_eq!(
        validate_upload_filename(Some("part.gcode".to_string())).unwrap(),
        "part.gcode"
    );
}

#[test]
fn upload_then_print_issues_start_after_the_upload() {
    let (calls, reply) = handle_upload(Some("part.gcode".to_string()), true, Ok(()), Ok(()));
    assert_eq!(
        calls,
        vec![DeviceAction::UploadAndPrepare, DeviceAction::StartAfterDelay]
    );
    assert_eq!(reply.code, 201);
    assert_eq!(reply.body, "Success");
}

#[test]
fn a_failed_upload_never_starts_the_print() {
    let (calls, reply) = handle_upload(Some("part.gcode".to_string()), true, Err(device_down()), Ok(()));
    assert_eq!(calls, vec![DeviceAction::UploadAndPrepare]);
    assert_eq!(reply.code, 500);
    assert_eq!(
        reply.body,
        "Upload Error from snapmaker: device answered 502: bad gateway"
    );
}

#[test]
fn an_upload_without_print_answers_created_at_once() {
    let (calls, reply) = handle_upload(
        Some("part.gcode".to_string()),
        false,
        Ok(()),
        Err(RequestError::Transport),
    );
    assert_eq!(calls, vec![DeviceAction::UploadAndPrepare]);
    assert_eq!(reply.code, 201);
    assert_eq!(reply.body, "Success");
}

#[test]
fn a_failed_start_is_reported_as_a_server_error() {
    let (calls, reply) = handle_upload(
        Some("part.gcode".to_string()),
        true,
        Ok(()),
        Err(RequestError::Transport),
    );
    assert_eq!(
        calls,
        vec![DeviceAction::UploadAndPrepare, DeviceAction::StartAfterDelay]
    );
    assert_eq!(reply.code, 500);
    assert_eq!(
        reply.body,
        "Print start Error from snapmaker: error sending request to the device"
    );

    let rep = after_start_outcome(Ok(()));
    assert_eq!(rep.code, 201);
    assert_eq!(rep.body, "Success");
}

#[test]
fn the_upload_step_decision_follows_the_print_flag() {
    assert!(matches!(
        after_upload_outcome(Ok(()), true),
        UploadNext::StartPrint
    ));
    match after_upload_outcome(Ok(()), false) {
        UploadNext::Respond(rep) => {
            assert_eq!(rep.code, 201);
            assert_eq!(rep.body, "Success");
        }
        UploadNext::StartPrint => panic!("should answer at once"),
    }
    match after_upload_outcome(Err(RequestError::MalformedBody), true) {
        UploadNext::Respond(rep) => {
            assert_eq!(rep.code, 500);
            assert_eq!(
                rep.body,
                "Upload Error from snapmaker: device answer could not be read"
            );
        }
        UploadNext::StartPrint => panic!("a failed upload must not start a print"),
    }
}
