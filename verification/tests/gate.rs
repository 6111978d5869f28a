use std::cell::Cell;

use jelly::guard::{
    Auth, AuthVerdict, GateOutcome, GateResponse, FOUND, GENERIC_ERROR_BODY,
    INTERNAL_SERVER_ERROR,
};

#[derive(Debug, PartialEq, Eq)]
enum CheckError {
    StorageUnavailable,
}

fn render(cause: CheckError) -> Option<Vec<u8>> {
    match cause {
        CheckError::StorageUnavailable => Some(b"<h1>storage unavailable</h1>".to_vec()),
    }
}

fn contains(haystack: &[u8], needle: &[u8]) -> bool {
    haystack.windows(needle.len()).any(|window| window == needle)
}

#[test]
fn verdict_of_each_answer() {
    assert_eq!(AuthVerdict::<CheckError>::from_check(Ok(true)), AuthVerdict::Allowed);
    assert_eq!(AuthVerdict::<CheckError>::from_check(Ok(false)), AuthVerdict::Denied);
    assert_eq!(
        AuthVerdict::from_check(Err(CheckError::StorageUnavailable)),
        AuthVerdict::CheckFailed(CheckError::StorageUnavailable)
    );
}

#[test]
fn status_codes_are_found_and_internal_server_error() {
    assert_eq!(FOUND, 302);
    assert_eq!(INTERNAL_SERVER_ERROR, 500);
}

#[test]
fn redirect_response_has_location_and_no_body() {
    let response = GateResponse::redirect("/login");
    assert_eq!(
        response,
        GateResponse { status: 302, location: Some("/login".to_string()), body: Vec::new() }
    );
}

#[test]
fn failure_response_carries_the_rendered_cause() {
    let response = GateResponse::failure(Some(b"boom".to_vec()));
    assert_eq!(response, GateResponse { status: 500, location: None, body: b"boom".to_vec() });
}

#[test]
fn failure_response_keeps_an_empty_rendering() {
    let response = GateResponse::failure(Some(Vec::new()));
    assert_eq!(response, GateResponse { status: 500, location: None, body: Vec::new() });
}

#[test]
fn failure_response_falls_back_to_the_generic_body() {
    let response = GateResponse::failure(None);
    assert_eq!(response.status, 500);
    assert_eq!(response.location, None);
    assert_eq!(response.body, b"Internal Server Error".to_vec());
    assert_eq!(response.body, GENERIC_ERROR_BODY.as_bytes().to_vec());
}

#[test]
fn new_transform_keeps_target_and_service() {
    let auth = Auth { redirect_to: "/accounts/login/" };
    let gate = auth.new_transform(String::from("inner"));
    assert_eq!(gate.redirect_to(), "/accounts/login/");
    assert_eq!(gate.service(), "inner");
}

#[test]
fn allowed_request_reaches_the_handler_once_and_unchanged() {
    let calls = Cell::new(0u32);
    let gate = Auth { redirect_to: "/login" }.new_transform(7u32);
    let outcome = gate.call(
        String::from("GET /dashboard"),
        Ok::<bool, CheckError>(true),
        |service: &u32, req: String| {
            calls.set(calls.get() + 1);
            (*service, req, String::from("handler response"))
        },
        render,
    );
    assert_eq!(calls.get(), 1);
    assert_eq!(
        outcome,
        GateOutcome::Forwarded((
            7,
            String::from("GET /dashboard"),
            String::from("handler response")
        ))
    );
}

#[test]
fn denied_request_is_redirected_to_login() {
    let calls = Cell::new(0u32);
    let gate = Auth { redirect_to: "/login" }.new_transform(());
    let outcome = gate.call(
        String::from("/dashboard"),
        Ok::<bool, CheckError>(false),
        |_service: &(), _req: String| {
            calls.set(calls.get() + 1);
            0u8
        },
        render,
    );
    assert_eq!(calls.get(), 0);
    assert_eq!(
        outcome,
        GateOutcome::Responded(
            String::from("/dashboard"),
            GateResponse { status: 302, location: Some("/login".to_string()), body: Vec::new() }
        )
    );
}

#[test]
fn failed_check_answers_with_the_rendered_error() {
    let calls = Cell::new(0u32);
    let gate = Auth { redirect_to: "/login" }.new_transform(());
    let outcome = gate.call(
        String::from("/dashboard"),
        Err::<bool, CheckError>(CheckError::StorageUnavailable),
        |_service: &(), _req: String| {
            calls.set(calls.get() + 1);
            0u8
        },
        render,
    );
    assert_eq!(calls.get(), 0);
    match outcome {
        GateOutcome::Responded(req, response) => {
            assert_eq!(req, "/dashboard");
            assert_eq!(response.status, 500);
            assert_eq!(response.location, None);
            assert!(!response.body.is_empty());
            assert!(contains(&response.body, b"storage unavailable"));
            assert_eq!(response.body, b"<h1>storage unavailable</h1>".to_vec());
        }
        GateOutcome::Forwarded(_) => panic!("a failed check must not reach the handler"),
    }
}

#[test]
fn failed_check_with_failed_rendering_still_answers() {
    let gate = Auth { redirect_to: "/login" }.new_transform(());
    let outcome = gate.call(
        1u8,
        Err::<bool, CheckError>(CheckError::StorageUnavailable),
        |_service: &(), _req: u8| 0u8,
        |_cause: CheckError| None,
    );
    assert_eq!(
        outcome,
        GateOutcome::Responded(
            1,
            GateResponse {
                status: 500,
                location: None,
                body: b"Internal Server Error".to_vec()
            }
        )
    );
}

#[test]
fn renderer_runs_only_for_a_failed_check() {
    let rendered = Cell::new(0u32);
    let gate = Auth { redirect_to: "/login" }.new_transform(());
    for check in [Ok(true), Ok(false)] {
        let _ = gate.call(
            (),
            check,
            |_service: &(), _req: ()| (),
            |_cause: CheckError| {
                rendered.set(rendered.get() + 1);
                None
            },
        );
    }
    assert_eq!(rendered.get(), 0);
    let _ = gate.call(
        (),
        Err(CheckError::StorageUnavailable),
        |_service: &(), _req: ()| (),
        |_cause: CheckError| {
            rendered.set(rendered.get() + 1);
            None
        },
    );
    assert_eq!(rendered.get(), 1);
}

#[test]
fn gates_compose() {
    let inner = Auth { redirect_to: "/inner" }.new_transform(());
    let outer = Auth { redirect_to: "/outer" }.new_transform(inner);
    let outcome = outer.call(
        5u8,
        Ok::<bool, CheckError>(true),
        |wrapped, req| {
            wrapped.call(req, Ok::<bool, CheckError>(false), |_service: &(), _req: u8| 0u8, render)
        },
        render,
    );
    assert_eq!(
        outcome,
        GateOutcome::Forwarded(GateOutcome::Responded(
            5,
            GateResponse { status: 302, location: Some("/inner".to_string()), body: Vec::new() }
        ))
    );
}
