use serde_json::Value;
use tan_lsp::dispatch::{conclude, dispatch, Dispatch, Offer};
use tan_lsp::extract::{try_extract, ExtractResult};
use tan_lsp::message::{Outcome, Payload, Request, RequestId, Response};
use tan_lsp::params::{Method, Params};

fn json(text: &str) -> Value {
    serde_json::from_str(text).unwrap()
}

fn request(id: RequestId, method: &str, params: &str) -> Request {
    Request { id, method: method.to_owned(), params: json(params) }
}

const POSITION: &str =
    r#"{"textDocument":{"uri":"file:///work/a.tan"},"position":{"line":0,"character":1}}"#;

const REFERENCES: &str = r#"{"textDocument":{"uri":"file:///work/a.tan"},"position":{"line":0,"character":1},"context":{"includeDeclaration":false}}"#;

fn no_locations(id: RequestId) -> Response {
    Response { id, outcome: Outcome::Result(Payload::Locations(Vec::new())) }
}

#[test]
fn shutdown_is_acknowledged_under_its_identifier() {
    match dispatch(request(RequestId::Number(11), "shutdown", "null")) {
        Dispatch::Shutdown(response) => assert_eq!(
            response,
            Response { id: RequestId::Number(11), outcome: Outcome::Result(Payload::Acknowledged) }
        ),
        other => panic!("unexpected dispatch: {other:?}"),
    }
}

#[test]
fn definition_is_answered_with_no_locations() {
    match dispatch(request(RequestId::Number(2), "textDocument/definition", POSITION)) {
        Dispatch::Answered(response) => assert_eq!(response, no_locations(RequestId::Number(2))),
        other => panic!("unexpected dispatch: {other:?}"),
    }
}

#[test]
fn references_are_answered_with_no_locations() {
    let id = RequestId::Text("refs".to_owned());
    match dispatch(request(id.clone(), "textDocument/references", REFERENCES)) {
        Dispatch::Answered(response) => assert_eq!(response, no_locations(id)),
        other => panic!("unexpected dispatch: {other:?}"),
    }
}

#[test]
fn response_identifier_equals_request_identifier() {
    let ids = [
        RequestId::Number(0),
        RequestId::Number(-1),
        RequestId::Number(i32::MAX),
        RequestId::Text(String::new()),
        RequestId::Text("7".to_owned()),
    ];
    for id in ids {
        for (method, params) in [
            ("shutdown", "null"),
            ("textDocument/definition", POSITION),
            ("textDocument/references", REFERENCES),
        ] {
            let response = dispatch(request(id.clone(), method, params)).into_response();
            assert_eq!(response.map(|r| r.id), Some(id.clone()));
        }
    }
}

#[test]
fn unregistered_method_gets_no_response() {
    let result = dispatch(request(RequestId::Number(8), "foo/bar", r#"{"a":1}"#));
    match result {
        Dispatch::Unhandled(back) => {
            assert_eq!(back, request(RequestId::Number(8), "foo/bar", r#"{"a":1}"#));
        }
        other => panic!("unexpected dispatch: {other:?}"),
    }
    let again = dispatch(request(RequestId::Number(8), "foo/bar", r#"{"a":1}"#));
    assert_eq!(again.into_response(), None);
}

#[test]
fn malformed_definition_fails_the_dispatch() {
    let result = dispatch(request(RequestId::Number(4), "textDocument/definition", r#"{"position":5}"#));
    match result {
        Dispatch::Failed(failure) => assert_eq!(failure.method, "textDocument/definition"),
        other => panic!("unexpected dispatch: {other:?}"),
    }
}

#[test]
fn malformed_references_fail_the_dispatch() {
    let result = dispatch(request(RequestId::Number(4), "textDocument/references", "null"));
    assert!(matches!(result, Dispatch::Failed(_)));
    let result = dispatch(request(RequestId::Number(4), "textDocument/references", "null"));
    assert_eq!(result.into_response(), None);
}

#[test]
fn method_names_are_matched_exactly() {
    for method in ["Shutdown", "shutdown ", "textDocument/definitions", "textdocument/references", ""] {
        let result = dispatch(request(RequestId::Number(1), method, POSITION));
        assert!(matches!(result, Dispatch::Unhandled(_)));
    }
}

#[test]
fn conclusion_follows_the_extraction() {
    let taken = conclude(ExtractResult::Matched(RequestId::Number(6), Params::Nothing));
    assert!(matches!(taken, Offer::Taken(Dispatch::Shutdown(_))));
    let passed = conclude(try_extract(
        request(RequestId::Number(6), "textDocument/definition", POSITION),
        Method::References,
    ));
    match passed {
        Offer::Passed(back) => {
            assert_eq!(back, request(RequestId::Number(6), "textDocument/definition", POSITION));
        }
        other => panic!("unexpected offer: {other:?}"),
    }
    let failed = conclude(try_extract(
        request(RequestId::Number(6), "textDocument/definition", "[]"),
        Method::GotoDefinition,
    ));
    assert!(matches!(failed, Offer::Taken(Dispatch::Failed(_))));
}
