use serde_json::Value;
use tan_lsp::diagnostics::{Diagnostic, DiagnosticsNotification, ParseError, ParseOutcome, Range};
use tan_lsp::message::{
    Message, Notification, Outcome, Outgoing, Payload, Request, RequestId, Response, ResponseError,
};
use tan_lsp::params::FileChange;
use tan_lsp::position::SourcePosition;
use tan_lsp::server::{handle, Action, Event, Failure, ServerState, Step};

fn json(text: &str) -> Value {
    serde_json::from_str(text).unwrap()
}

fn request(id: i32, method: &str, params: &str) -> Event {
    Event::Received(Message::Request(Request {
        id: RequestId::Number(id),
        method: method.to_owned(),
        params: json(params),
    }))
}

fn notification(method: &str, params: &str) -> Event {
    Event::Received(Message::Notification(Notification {
        method: method.to_owned(),
        params: json(params),
    }))
}

fn sent(step: &Step) -> Vec<&Outgoing> {
    step.actions
        .iter()
        .map(|action| match action {
            Action::Send(message) => message,
            other => panic!("unexpected action: {other:?}"),
        })
        .collect()
}

const POSITION: &str =
    r#"{"textDocument":{"uri":"file:///work/a.tan"},"position":{"line":0,"character":1}}"#;

#[test]
fn server_starts_running() {
    assert_eq!(ServerState::start(), ServerState::Running);
    assert!(ServerState::start().is_running());
    assert!(!ServerState::ShuttingDown.is_running());
    assert!(!ServerState::Stopped.is_running());
}

#[test]
fn shutdown_is_acknowledged_and_ends_the_loop() {
    let step = handle(ServerState::Running, request(21, "shutdown", "null"));
    assert_eq!(step.state, ServerState::ShuttingDown);
    assert!(step.failure.is_none());
    assert_eq!(
        sent(&step),
        vec![&Outgoing::Response(Response {
            id: RequestId::Number(21),
            outcome: Outcome::Result(Payload::Acknowledged),
        })]
    );
    let later = handle(step.state, request(22, "textDocument/definition", POSITION));
    assert_eq!(later.state, ServerState::ShuttingDown);
    assert!(later.actions.is_empty());
    assert!(later.failure.is_none());
    let done = handle(later.state, Event::Drained);
    assert_eq!(done.state, ServerState::Stopped);
    assert!(done.actions.is_empty());
}

#[test]
fn unregistered_method_is_passed_over() {
    let step = handle(ServerState::Running, request(8, "foo/bar", "{}"));
    assert_eq!(step.state, ServerState::Running);
    assert!(step.actions.is_empty());
    assert!(step.failure.is_none());
}

#[test]
fn request_is_answered_once_and_the_server_keeps_running() {
    let step = handle(ServerState::Running, request(2, "textDocument/definition", POSITION));
    assert_eq!(step.state, ServerState::Running);
    assert!(step.failure.is_none());
    assert_eq!(
        sent(&step),
        vec![&Outgoing::Response(Response {
            id: RequestId::Number(2),
            outcome: Outcome::Result(Payload::Locations(Vec::new())),
        })]
    );
}

#[test]
fn malformed_request_stops_the_server() {
    let step = handle(ServerState::Running, request(2, "textDocument/definition", "17"));
    assert_eq!(step.state, ServerState::Stopped);
    assert!(step.actions.is_empty());
    match step.failure {
        Some(Failure::MalformedParams(failure)) => {
            assert_eq!(failure.method, "textDocument/definition")
        }
        other => panic!("unexpected failure: {other:?}"),
    }
}

#[test]
fn responses_are_passed_over() {
    let ok = Response { id: RequestId::Number(1), outcome: Outcome::Result(Payload::Untyped(json("[]"))) };
    let failed = Response {
        id: RequestId::Text("x".to_owned()),
        outcome: Outcome::Error(ResponseError {
            code: -32601,
            message: "method not found".to_owned(),
            data: None,
        }),
    };
    for response in [ok, failed] {
        let step = handle(ServerState::Running, Event::Received(Message::Response(response)));
        assert_eq!(step.state, ServerState::Running);
        assert!(step.actions.is_empty());
        assert!(step.failure.is_none());
    }
}

#[test]
fn changed_files_are_to_be_analyzed_in_order() {
    let step = handle(
        ServerState::Running,
        notification(
            "workspace/didChangeWatchedFiles",
            r#"{"changes":[{"uri":"file:///work/b.tan","type":2},{"uri":"file:///work/a.tan","type":3}]}"#,
        ),
    );
    assert_eq!(step.state, ServerState::Running);
    assert!(step.failure.is_none());
    let asked: Vec<FileChange> = step
        .actions
        .into_iter()
        .map(|action| match action {
            Action::Analyze(change) => change,
            other => panic!("unexpected action: {other:?}"),
        })
        .collect();
    assert_eq!(
        asked,
        vec![
            FileChange { uri: "file:///work/b.tan".to_owned(), path: "/work/b.tan".to_owned() },
            FileChange { uri: "file:///work/a.tan".to_owned(), path: "/work/a.tan".to_owned() },
        ]
    );
}

#[test]
fn empty_change_set_asks_for_nothing() {
    let step =
        handle(ServerState::Running, notification("workspace/didChangeWatchedFiles", r#"{"changes":[]}"#));
    assert_eq!(step.state, ServerState::Running);
    assert!(step.actions.is_empty());
    assert!(step.failure.is_none());
}

#[test]
fn other_notifications_are_passed_over() {
    let step = handle(ServerState::Running, notification("initialized", "{}"));
    assert_eq!(step.state, ServerState::Running);
    assert!(step.actions.is_empty());
    assert!(step.failure.is_none());
}

#[test]
fn malformed_change_set_stops_the_server() {
    let step = handle(
        ServerState::Running,
        notification("workspace/didChangeWatchedFiles", r#"{"changes":"none"}"#),
    );
    assert_eq!(step.state, ServerState::Stopped);
    assert!(step.actions.is_empty());
    assert!(matches!(step.failure, Some(Failure::MalformedParams(_))));
}

#[test]
fn analysis_of_a_broken_file_is_published() {
    let event = Event::Analyzed {
        uri: "file:///work/a.tan".to_owned(),
        text: "(+ 1".to_owned(),
        outcome: ParseOutcome::Rejected(vec![ParseError {
            message: "unexpected end of input".to_owned(),
            start: 0,
            end: 5,
        }]),
    };
    let step = handle(ServerState::Running, event);
    assert_eq!(step.state, ServerState::Running);
    assert!(step.failure.is_none());
    assert_eq!(
        sent(&step),
        vec![&Outgoing::Diagnostics(DiagnosticsNotification {
            uri: "file:///work/a.tan".to_owned(),
            diagnostics: vec![Diagnostic {
                range: Range {
                    start: SourcePosition { line: 0, column: 0 },
                    end: SourcePosition { line: 0, column: 5 },
                },
                message: "unexpected end of input".to_owned(),
            }],
            version: None,
        })]
    );
}

#[test]
fn analysis_of_a_valid_file_publishes_an_empty_list() {
    let event = Event::Analyzed {
        uri: "file:///work/a.tan".to_owned(),
        text: "(+ 1 2)".to_owned(),
        outcome: ParseOutcome::Parsed,
    };
    let step = handle(ServerState::Running, event);
    assert_eq!(
        sent(&step),
        vec![&Outgoing::Diagnostics(DiagnosticsNotification {
            uri: "file:///work/a.tan".to_owned(),
            diagnostics: Vec::new(),
            version: None,
        })]
    );
}

#[test]
fn unreadable_file_stops_the_server() {
    let step =
        handle(ServerState::Running, Event::Unreadable { uri: "file:///work/gone.tan".to_owned() });
    assert_eq!(step.state, ServerState::Stopped);
    assert!(step.actions.is_empty());
    match step.failure {
        Some(Failure::UnreadableFile { uri }) => assert_eq!(uri, "file:///work/gone.tan"),
        other => panic!("unexpected failure: {other:?}"),
    }
}

#[test]
fn closed_connection_ends_the_loop_in_good_order() {
    let step = handle(ServerState::Running, Event::Disconnected);
    assert_eq!(step.state, ServerState::ShuttingDown);
    assert!(step.actions.is_empty());
    assert!(step.failure.is_none());
}

#[test]
fn finished_transport_stops_the_server() {
    for state in [ServerState::Running, ServerState::ShuttingDown, ServerState::Stopped] {
        let step = handle(state, Event::Drained);
        assert_eq!(step.state, ServerState::Stopped);
        assert!(step.actions.is_empty());
        assert!(step.failure.is_none());
    }
}

#[test]
fn stopped_server_handles_nothing() {
    let events = [
        request(1, "shutdown", "null"),
        request(2, "textDocument/references", "null"),
        notification("workspace/didChangeWatchedFiles", r#"{"changes":"none"}"#),
        Event::Unreadable { uri: "file:///work/gone.tan".to_owned() },
        Event::Disconnected,
    ];
    for event in events {
        let step = handle(ServerState::Stopped, event);
        assert_eq!(step.state, ServerState::Stopped);
        assert!(step.actions.is_empty());
        assert!(step.failure.is_none());
    }
}
