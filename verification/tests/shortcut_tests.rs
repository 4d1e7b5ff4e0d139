//! The fail-fast shortcuts: success passes values through untouched; the
//! negative cases build the documented default or supplied hints.

use iron::shortcut::{iexpect, itry, Hint, IronError, Response};

#[test]
fn itry_passes_the_success_value_through() {
    let r: Result<i32, IronError> = itry(Ok(7), None);
    assert_eq!(r.ok().unwrap(), 7);
}

#[test]
fn itry_wraps_a_failure_with_the_default_server_hint() {
    let r: Result<i32, IronError> = itry(Err("disk on fire".to_string()), None);
    let e = r.unwrap_err();
    assert_eq!(e.error, "disk on fire");
    assert_eq!(e.hint.status, 500);
    assert!(e.hint.body.is_none());
}

#[test]
fn itry_keeps_a_supplied_hint() {
    let hint = Hint {
        status: 404,
        body: Some("Not Found".to_string()),
    };
    let r: Result<i32, IronError> = itry(Err("missing".to_string()), Some(hint));
    let e = r.unwrap_err();
    assert_eq!(e.error, "missing");
    assert_eq!(e.hint.status, 404);
    assert_eq!(e.hint.body.as_deref(), Some("Not Found"));
}

#[test]
fn iexpect_passes_the_present_value_through() {
    let r: Result<&str, Response> = iexpect(Some("q"), None);
    assert_eq!(r.ok().unwrap(), "q");
}

#[test]
fn iexpect_builds_the_default_client_response_when_absent() {
    let r: Result<i32, Response> = iexpect(None, None);
    let resp = r.unwrap_err();
    assert_eq!(resp.status, 400);
    assert!(resp.body.is_none());
}

#[test]
fn iexpect_builds_the_supplied_hint_when_absent() {
    let hint = Hint {
        status: 422,
        body: Some("missing parameter".to_string()),
    };
    let r: Result<i32, Response> = iexpect(None, Some(hint));
    let resp = r.unwrap_err();
    assert_eq!(resp.status, 422);
    assert_eq!(resp.body.as_deref(), Some("missing parameter"));
}

#[test]
fn response_with_copies_the_hint() {
    let resp = Response::with(Hint {
        status: 204,
        body: None,
    });
    assert_eq!(resp.status, 204);
    assert!(resp.body.is_none());
}
