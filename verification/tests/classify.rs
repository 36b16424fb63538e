use http_executor::classify::code_listed;
use http_executor::{EKLogic, HTTPExitKind, HTTPVerb, RawResult, StatusLogic};
use libafl::executors::ExitKind;

fn answer(code: u16) -> RawResult {
    RawResult {
        method: HTTPVerb::GET,
        body: String::new(),
        host: Some(String::from("target.test")),
        useragent: None,
        content_type: Some(String::from("text/html")),
        response_code: code,
    }
}

#[test]
fn status_of_interest_is_a_crash() {
    let logic = StatusLogic::new(vec![404]);
    assert_eq!(logic.define_exitkind(&Some(answer(404))), ExitKind::Crash);
}

#[test]
fn other_status_is_ok() {
    let logic = StatusLogic::new(vec![404]);
    assert_eq!(logic.define_exitkind(&Some(answer(200))), ExitKind::Ok);
    assert_eq!(logic.define_exitkind(&Some(answer(405))), ExitKind::Ok);
    assert_eq!(logic.define_exitkind(&Some(answer(0))), ExitKind::Ok);
    assert_eq!(logic.define_exitkind(&Some(answer(u16::MAX))), ExitKind::Ok);
}

#[test]
fn no_response_is_ok() {
    let logic = StatusLogic::new(vec![404]);
    assert_eq!(logic.define_exitkind(&None), ExitKind::Ok);
    let zero = StatusLogic::new(vec![0]);
    assert_eq!(zero.define_exitkind(&None), ExitKind::Ok);
}

#[test]
fn empty_list_never_reports_a_crash() {
    let logic = StatusLogic::new(Vec::new());
    assert_eq!(logic.define_exitkind(&Some(answer(404))), ExitKind::Ok);
    assert_eq!(logic.define_exitkind(&Some(answer(500))), ExitKind::Ok);
    assert_eq!(logic.define_exitkind(&None), ExitKind::Ok);
}

#[test]
fn every_listed_status_is_a_crash() {
    let logic = StatusLogic::new(vec![500, 502, 503, 500]);
    assert_eq!(logic.define_exitkind(&Some(answer(500))), ExitKind::Crash);
    assert_eq!(logic.define_exitkind(&Some(answer(502))), ExitKind::Crash);
    assert_eq!(logic.define_exitkind(&Some(answer(503))), ExitKind::Crash);
    assert_eq!(logic.define_exitkind(&Some(answer(501))), ExitKind::Ok);
}

#[test]
fn verdict_is_the_same_each_time() {
    let logic = StatusLogic::new(vec![418]);
    let response = Some(answer(418));
    let first = logic.define_exitkind(&response);
    let second = logic.define_exitkind(&response);
    assert_eq!(first, ExitKind::Crash);
    assert_eq!(second, first);
}

#[test]
fn code_is_listed_where_it_occurs() {
    let codes = vec![7, 9, 11];
    assert!(code_listed(&codes, 7));
    assert!(code_listed(&codes, 11));
    assert!(!code_listed(&codes, 8));
    assert!(!code_listed(&Vec::new(), 7));
}

#[test]
fn record_of_a_response_holds_its_request_and_status() {
    let response = Some(RawResult {
        method: HTTPVerb::PATCH,
        body: String::from("{\"id\":1}"),
        host: Some(String::from("api.target.test")),
        useragent: Some(String::from("probe/2")),
        content_type: Some(String::from("application/json")),
        response_code: 503,
    });
    let record = HTTPExitKind::from_response(&response, ExitKind::Crash);
    assert_eq!(record.exitkind, ExitKind::Crash);
    assert_eq!(record.method, HTTPVerb::PATCH);
    assert_eq!(record.body, "{\"id\":1}");
    assert_eq!(record.host.as_deref(), Some("api.target.test"));
    assert_eq!(record.useragent.as_deref(), Some("probe/2"));
    assert_eq!(record.content_type.as_deref(), Some("application/json"));
    assert_eq!(record.response_code, 503);
}

#[test]
fn record_of_no_response_holds_the_defaults() {
    let record = HTTPExitKind::from_response(&None, ExitKind::Ok);
    assert_eq!(record.exitkind, ExitKind::Ok);
    assert_eq!(record.method, HTTPVerb::GET);
    assert_eq!(record.body, "");
    assert_eq!(record.host, None);
    assert_eq!(record.useragent, None);
    assert_eq!(record.content_type, None);
    assert_eq!(record.response_code, 0);
}

#[test]
fn copies_hold_the_same_content() {
    let raw = answer(301);
    let copy = raw.clone();
    assert_eq!(copy.method, raw.method);
    assert_eq!(copy.body, raw.body);
    assert_eq!(copy.host, raw.host);
    assert_eq!(copy.useragent, raw.useragent);
    assert_eq!(copy.content_type, raw.content_type);
    assert_eq!(copy.response_code, 301);
    let record = HTTPExitKind::from_response(&Some(raw), ExitKind::Timeout);
    let again = record.clone();
    assert_eq!(again.exitkind, ExitKind::Timeout);
    assert_eq!(again.host.as_deref(), Some("target.test"));
    assert_eq!(again.content_type.as_deref(), Some("text/html"));
    assert_eq!(again.response_code, 301);
}
