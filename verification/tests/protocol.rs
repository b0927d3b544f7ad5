use playrust::action::{
    environment_names, interactive_source, prepare_action, references_of,
    replace_environment_values, valid_environment_name, References, Referent,
};
use playrust::codec::{read_json, write_json};
use playrust::envelope::{Envelope, EnvelopeReader};
use playrust::json::JsonValue;
use playrust::number::Real64;
use playrust::request::decode_request;
use playrust::session::{
    Body, DialogChoice, ErrorCode, Message, Note, Outcome, Response, SessionCommand,
    SnapshotScreenshot, MAX_ENVELOPE_BYTES,
};
use playrust::snapshot::{
    CapturedElement, CapturedSnapshot, LocatorIdentity, Scroll, SemanticNode, SemanticState,
    SnapshotStore, Viewport,
};
use playrust::wire::{
    fallback_journal, inspection_name, journal_entry, session_directory, session_id, snapshot_name,
    submission_name, submission_source, write_response,
};

fn json(text: &str) -> JsonValue {
    read_json(text.as_bytes()).unwrap()
}

fn told(value: &JsonValue) -> String {
    write_json(value)
}

#[test]
fn requests_preserve_ids_and_reject_unknown_commands() {
    let request = decode_request(br#"{"id":"a","command":"output","name":"value"}"#)
        .expect("decode request");
    assert_eq!(told(&request.id), "\"a\"");
    let error = decode_request(br#"{"id":7,"command":"unknown"}"#).unwrap_err();
    assert_eq!(told(&error.0), "7");
    assert_eq!(
        error.1,
        "unknown variant `unknown`, expected one of `submit`, `inspect`, `snapshot`, `act`, `scroll`, `dialog`, `export`, `output`, `cancel`, `close`"
    );
}

#[test]
fn interactive_commands_decode_with_documented_defaults() {
    let snapshot = decode_request(br#"{"id":1,"command":"snapshot"}"#).unwrap();
    assert!(matches!(
        snapshot.command,
        SessionCommand::Snapshot {
            screenshot: SnapshotScreenshot::Omitted,
            accessibility: true,
            since: None
        }
    ));
    let scroll = decode_request(br#"{"id":2,"command":"scroll","y":700}"#).unwrap();
    assert!(matches!(
        scroll.command,
        SessionCommand::Scroll { x: 0, y: 700 }
    ));
    assert!(
        decode_request(br#"{"id":3,"command":"dialog","action":"dismiss","text":"no"}"#).is_ok()
    );
}

#[test]
fn invalid_utf8_is_an_invalid_command_with_a_null_id() {
    let error =
        decode_request(b"{\"id\":\"lost\",\"command\":\"cancel\",\"x\":\xff}").unwrap_err();
    assert_eq!(told(&error.0), "null");
}

#[test]
fn commands_decode_with_their_parts() {
    let submit =
        decode_request(br#"{"id":1,"command":"submit","flow":"f","variables":{"b":"2","a":"1"}}"#)
            .unwrap();
    match submit.command {
        SessionCommand::Submit { flow, variables } => {
            assert_eq!(flow, "f");
            assert_eq!(
                variables,
                vec![
                    ("a".to_owned(), "1".to_owned()),
                    ("b".to_owned(), "2".to_owned())
                ]
            );
        }
        other => panic!("{other:?}"),
    }
    assert!(matches!(
        decode_request(br#"{"id":1,"command":"inspect","screenshot":true}"#)
            .unwrap()
            .command,
        SessionCommand::Inspect {
            accessibility: false,
            screenshot: true
        }
    ));
    assert!(matches!(
        decode_request(br#"{"id":1,"command":"snapshot","screenshot":"full_page","accessibility":false,"since":3}"#)
            .unwrap()
            .command,
        SessionCommand::Snapshot {
            screenshot: SnapshotScreenshot::FullPage,
            accessibility: false,
            since: Some(3)
        }
    ));
    assert!(matches!(
        decode_request(br#"{"id":1,"command":"dialog","action":{"accept":null}}"#)
            .unwrap()
            .command,
        SessionCommand::Dialog {
            action: DialogChoice::Accept,
            text: None
        }
    ));
    assert!(matches!(
        decode_request(br#"{"id":1,"command":8,"extra":[]}"#).unwrap().command,
        SessionCommand::Cancel
    ));
    assert!(matches!(
        decode_request(br#"{"id":1,"command":"close"}"#).unwrap().command,
        SessionCommand::Close
    ));
    assert!(matches!(
        decode_request(br#"{"id":1,"command":"act","action":null}"#).unwrap().command,
        SessionCommand::Act {
            action: JsonValue::Null
        }
    ));
}

#[test]
fn refused_commands_tell_why() {
    for (line, message) in [
        (r#"{"command":"close"}"#, "missing field `id`"),
        (r#"{"id":1}"#, "missing field `command`"),
        (r#"7"#, "invalid type: integer `7`, expected struct Request"),
        (r#"[]"#, "invalid type: sequence, expected struct Request"),
        (r#"{"id":1,"command":"submit"}"#, "missing field `flow`"),
        (
            r#"{"id":1,"command":"submit","flow":7}"#,
            "invalid type: integer `7`, expected a string",
        ),
        (
            r#"{"id":1,"command":"submit","flow":"f","variables":{"a":true}}"#,
            "invalid type: boolean `true`, expected a string",
        ),
        (
            r#"{"id":1,"command":"submit","flow":"f","variables":null}"#,
            "invalid type: null, expected a map",
        ),
        (r#"{"id":1,"command":"scroll"}"#, "missing field `y`"),
        (
            r#"{"id":1,"command":"scroll","y":1.5}"#,
            "invalid type: floating point `1.5`, expected i64",
        ),
        (
            r#"{"id":1,"command":"snapshot","since":-1}"#,
            "invalid value: integer `-1`, expected u64",
        ),
        (
            r#"{"id":1,"command":"snapshot","screenshot":"all"}"#,
            "unknown variant `all`, expected one of `none`, `viewport`, `full_page`",
        ),
        (
            r#"{"id":1,"command":"dialog","action":"maybe"}"#,
            "unknown variant `maybe`, expected `accept` or `dismiss`",
        ),
        (r#"{"id":1,"command":"dialog"}"#, "missing field `action`"),
        (
            r#"{"id":1,"command":"inspect","accessibility":"yes"}"#,
            "invalid type: string \"yes\", expected a boolean",
        ),
        (
            r#"{"id":1,"command":12}"#,
            "invalid value: integer `12`, expected variant index 0 <= i < 10",
        ),
        (
            r#"{"id":1,"command":null}"#,
            "invalid type: null, expected variant identifier",
        ),
    ] {
        assert_eq!(decode_request(line.as_bytes()).unwrap_err().1, message);
    }
}

fn read_all(bytes: &[u8], piece: usize) -> Vec<Envelope> {
    let mut reader = EnvelopeReader::new();
    let mut lines = Vec::new();
    for chunk in bytes.chunks(piece) {
        let mut rest = chunk;
        while !rest.is_empty() {
            let (used, line) = reader.feed(rest);
            rest = &rest[used..];
            lines.extend(line);
        }
    }
    match reader.end() {
        Envelope::Eof => {}
        last => lines.push(last),
    }
    lines
}

#[test]
fn envelope_reader_bounds_and_recovers_at_the_next_line() {
    let mut bytes = vec![b'x'; MAX_ENVELOPE_BYTES + 1];
    bytes.extend_from_slice(b"\n{}\n");
    let lines = read_all(&bytes, 8192);

    assert!(matches!(lines[0], Envelope::TooLarge));
    assert_eq!(lines[1], Envelope::Line(b"{}".to_vec()));
    assert_eq!(lines.len(), 2);
}

#[test]
fn envelope_reader_accepts_the_documented_limit() {
    let mut bytes = vec![b' '; MAX_ENVELOPE_BYTES];
    bytes.push(b'\n');
    match &read_all(&bytes, 8192)[0] {
        Envelope::Line(line) => assert_eq!(line.len(), MAX_ENVELOPE_BYTES),
        other => panic!("expected maximum-sized line: {other:?}"),
    }
}

#[test]
fn envelope_reader_counts_cr_and_accepts_crlf() {
    let mut accepted = vec![b' '; MAX_ENVELOPE_BYTES - 1];
    accepted.extend_from_slice(b"\r\n");
    match &read_all(&accepted, 8192)[0] {
        Envelope::Line(line) => {
            assert_eq!(line.len(), MAX_ENVELOPE_BYTES);
            assert_eq!(line.last(), Some(&b'\r'));
        }
        other => panic!("expected CRLF line at the limit: {other:?}"),
    }

    let mut rejected = vec![b' '; MAX_ENVELOPE_BYTES];
    rejected.extend_from_slice(b"\r\n");
    assert!(matches!(read_all(&rejected, 8192)[0], Envelope::TooLarge));
}

#[test]
fn envelope_reader_preserves_partial_input_when_a_read_is_cancelled() {
    let mut reader = EnvelopeReader::new();
    let first = b"{\"id\":\"cancel\",\"command\":\"";
    assert_eq!(reader.feed(first), (first.len(), None));

    let (used, line) = reader.feed(b"cancel\"}\n");
    assert_eq!(used, 9);
    let line = match line {
        Some(Envelope::Line(line)) => line,
        other => panic!("expected completed envelope: {other:?}"),
    };
    let request = decode_request(&line).unwrap();
    assert!(matches!(request.command, SessionCommand::Cancel));
    assert_eq!(told(&request.id), "\"cancel\"");
}

#[test]
fn lines_do_not_depend_on_their_pieces() {
    let bytes = b"one\n\ntwo\nlast";
    let whole = read_all(bytes, bytes.len());
    assert_eq!(
        whole,
        vec![
            Envelope::Line(b"one".to_vec()),
            Envelope::Line(Vec::new()),
            Envelope::Line(b"two".to_vec()),
            Envelope::Line(b"last".to_vec()),
        ]
    );
    for piece in 1..bytes.len() {
        assert_eq!(read_all(bytes, piece), whole);
    }
}

fn references() -> References {
    References {
        entries: vec![Referent {
            number: 4,
            locator: json("{\"test_id\":\"pay\"}"),
            backend_node_id: 17,
        }],
        last_ref: 4,
        revision: 2,
    }
}

#[test]
fn actions_are_prepared_with_their_locators() {
    let action = prepare_action(
        &json("{\"fill\":{\"ref\":\"e4\",\"value\":\"x\"}}"),
        &references(),
    )
    .unwrap();
    assert_eq!(action.name, "fill");
    assert_eq!(
        told(&action.step),
        "{\"fill\":{\"target\":{\"test_id\":\"pay\"},\"value\":\"x\"}}"
    );
    assert_eq!(action.backend_node_id, Some(17));
    assert_eq!(
        told(action.locator.as_ref().unwrap()),
        "{\"test_id\":\"pay\"}"
    );

    let open = prepare_action(&json("{\"open\":{\"url\":\"https://x.test\"}}"), &references())
        .unwrap();
    assert_eq!(told(&open.step), "{\"open\":\"https://x.test\"}");
    assert!(open.locator.is_none());
    let frame = prepare_action(
        &json("{\"switch_frame\":{\"ref\":\"e4\",\"x\":1}}"),
        &references(),
    )
    .unwrap();
    assert_eq!(
        told(&frame.step),
        "{\"switch_frame\":{\"target\":{\"test_id\":\"pay\"}}}"
    );
    let main = prepare_action(&json("{\"switch_frame\":\"main\"}"), &references()).unwrap();
    assert_eq!(told(&main.step), "{\"switch_frame\":\"main\"}");
    let assertion = prepare_action(
        &json("{\"assert\":{\"text\":{\"target\":{\"ref\":\"e4\"},\"equals\":\"1\"}}}"),
        &references(),
    )
    .unwrap();
    assert_eq!(
        told(&assertion.step),
        "{\"assert\":{\"text\":{\"equals\":\"1\",\"target\":{\"test_id\":\"pay\"}}}}"
    );
    assert_eq!(assertion.backend_node_id, Some(17));
}

#[test]
fn refused_actions_tell_why() {
    for (action, code, message) in [
        (
            "[]",
            ErrorCode::Validation,
            "action must be an object containing exactly one operation",
        ),
        (
            "{\"click\":{},\"fill\":{}}",
            ErrorCode::Validation,
            "action must be an object containing exactly one operation",
        ),
        (
            "{\"dance\":{}}",
            ErrorCode::Validation,
            "unsupported interactive action \"dance\"",
        ),
        ("{\"open\":{}}", ErrorCode::Validation, "act.open requires url"),
        (
            "{\"click\":1}",
            ErrorCode::Validation,
            "act.click must be an object",
        ),
        ("{\"click\":{}}", ErrorCode::Validation, "ref is required"),
        (
            "{\"click\":{\"ref\":4}}",
            ErrorCode::Validation,
            "ref must be a string",
        ),
        (
            "{\"click\":{\"ref\":\"4\"}}",
            ErrorCode::Validation,
            "invalid element reference \"4\"; expected eN where N is positive",
        ),
        (
            "{\"click\":{\"ref\":\"e3\"}}",
            ErrorCode::StaleReference,
            "stale element reference e3",
        ),
        (
            "{\"assert\":[{\"ref\":\"e9\"}]}",
            ErrorCode::UnknownReference,
            "unknown element reference e9",
        ),
    ] {
        let error = prepare_action(&json(action), &references()).unwrap_err();
        assert_eq!(error.code, code, "{action}");
        assert_eq!(error.message.text(), message);
    }
    let stale = prepare_action(&json("{\"click\":{\"ref\":\"e3\"}}"), &references()).unwrap_err();
    assert!(matches!(stale.details, Some(Body::LatestSnapshot(2))));
}

#[test]
fn references_lead_to_the_locators_of_their_elements() {
    let zero = Real64 { bits: 0 };
    let mut store = SnapshotStore::new(2);
    let locator = "{\"test_id\":\"pay\"}";
    let snapshot = store
        .publish(CapturedSnapshot {
            viewport: Viewport {
                width: 1,
                height: 1,
            },
            scroll: Scroll {
                x: zero,
                y: zero,
                document_width: zero,
                document_height: zero,
            },
            elements: vec![CapturedElement {
                identity: LocatorIdentity {
                    text: locator.to_owned(),
                },
                backend_node_id: 5,
                parent: None,
                node: SemanticNode {
                    role: "button".to_owned(),
                    name: None,
                    value: None,
                    description: None,
                    bounds: None,
                    visible: None,
                    state: SemanticState {
                        enabled: None,
                        editable: None,
                        checked: None,
                        selected: None,
                        focused: None,
                        expanded: None,
                        pressed: None,
                    },
                },
            }],
            truncated: false,
        })
        .unwrap();
    assert_eq!(snapshot.elements[0].element_ref.text(), "e1");
    let found = references_of(&store);
    assert_eq!(found.entries.len(), 1);
    assert_eq!(told(&found.entries[0].locator), locator);
    assert_eq!(found.entries[0].backend_node_id, 5);
    store.invalidate_for_mutation();
    let none = references_of(&store);
    assert!(none.entries.is_empty());
    assert_eq!((none.last_ref, none.revision), (1, 1));
}

#[test]
fn environment_value_replacement_is_strict_and_secret_backed() {
    let value = json("{ \"fill\": { \"value\": { \"env\": \"PLAYRUST_TEST_SECRET\" } } }");
    let available = environment_names(&value);
    assert_eq!(available, vec!["PLAYRUST_TEST_SECRET".to_owned()]);
    let mut secrets = Vec::new();
    let value = replace_environment_values(&value, &mut secrets, &available).unwrap();

    assert_eq!(
        told(&value),
        "{\"fill\":{\"value\":\"${interactive_secret_1}\"}}"
    );
    assert_eq!(secrets, vec!["PLAYRUST_TEST_SECRET".to_owned()]);
    assert!(!told(&value).contains("canary"));
    assert!(!valid_environment_name("BAD-NAME"));
    assert!(!valid_environment_name("1A"));
    assert!(!valid_environment_name(""));
    assert!(valid_environment_name("_a1"));

    let missing = replace_environment_values(
        &json("[{\"env\":\"GONE\"}]"),
        &mut Vec::new(),
        &Vec::new(),
    )
    .unwrap_err();
    assert_eq!(missing, "environment variable \"GONE\" is unavailable");
    let bad = replace_environment_values(
        &json("{\"env\":\"BAD-NAME\"}"),
        &mut Vec::new(),
        &Vec::new(),
    )
    .unwrap_err();
    assert_eq!(
        bad,
        "environment name must match [A-Za-z_][A-Za-z0-9_]*"
    );
}

#[test]
fn interactive_steps_run_as_flows_of_one_step() {
    let source = interactive_source(
        &json("{\"fill\":{\"value\":{\"env\":\"A\"}}}"),
        &vec!["A".to_owned()],
        1_500_000_000,
        Viewport {
            width: 800,
            height: 600,
        },
    )
    .unwrap();
    assert_eq!(
        source,
        "{\"name\":\"interactive-action\",\"secrets\":{\"interactive_secret_1\":{\"env\":\"A\"}},\"settings\":{\"timeout\":\"1500ms\",\"video\":\"off\",\"viewport\":{\"height\":600,\"width\":800}},\"steps\":[{\"fill\":{\"value\":\"${interactive_secret_1}\"}}],\"version\":1}"
    );
}

#[test]
fn responses_are_written_in_one_line() {
    let done = Response {
        id: json("\"a\""),
        revision: 3,
        outcome: Outcome::Success(Body::Cancelling),
    };
    assert_eq!(
        write_response("s-1", &done),
        "{\"id\":\"a\",\"ok\":true,\"session_id\":\"s-1\",\"revision\":3,\"result\":{\"cancelling\":true}}\n"
    );
    let failed = Response {
        id: JsonValue::Null,
        revision: 4,
        outcome: Outcome::Error {
            code: ErrorCode::EnvelopeTooLarge,
            message: Message::EnvelopeTooLarge,
            details: Some(Body::MaxBytes),
        },
    };
    assert_eq!(
        write_response("s-1", &failed),
        "{\"id\":null,\"ok\":false,\"session_id\":\"s-1\",\"revision\":4,\"error\":{\"code\":\"envelope_too_large\",\"message\":\"command envelope exceeds 1048576 bytes\",\"details\":{\"max_bytes\":1048576}}}\n"
    );
    let plain = Response {
        id: json("7"),
        revision: 5,
        outcome: Outcome::Error {
            code: ErrorCode::OutputNotFound,
            message: Message::OutputUnavailable("to\"ken".to_owned()),
            details: None,
        },
    };
    assert_eq!(
        write_response("s-1", &plain),
        "{\"id\":7,\"ok\":false,\"session_id\":\"s-1\",\"revision\":5,\"error\":{\"code\":\"output_not_found\",\"message\":\"runtime output \\\"to\\\\\\\"ken\\\" is unavailable\"}}\n"
    );
}

#[test]
fn names_are_numbered() {
    assert_eq!(submission_name(1), "submission-000001");
    assert_eq!(submission_source(12), "submission-000012.yaml");
    assert_eq!(inspection_name(1234567), "inspection-1234567");
    assert_eq!(snapshot_name(3), "snapshot-000003.png");
    assert_eq!(session_id(255, 4096), "ff-1000");
    assert_eq!(session_directory("ff-1000"), "session-ff-1000");
    assert_eq!(fallback_journal("0-a"), "playrust-session-0-a.ndjson");
}

#[test]
fn notes_become_entries_of_the_journal() {
    let entry = journal_entry(
        Note::Snapshot {
            revision: 2,
            url: "https://x.test".to_owned(),
            elements: 5,
        },
        JsonValue::Null,
    );
    let line = playrust::journal::JournalWriter::new(9).line(&entry);
    assert_eq!(
        line,
        "{\"sequence\":9,\"snapshot_revision\":2,\"summary\":{\"elements\":5,\"url\":\"https://x.test\"},\"type\":\"snapshot\"}\n"
    );
    let failed = journal_entry(Note::Submission { passed: false }, JsonValue::Null);
    assert_eq!(
        playrust::journal::JournalWriter::new(1).line(&failed),
        "{\"outcome\":{\"error\":\"submission did not pass\",\"status\":\"failed\"},\"sequence\":1,\"type\":\"submission\"}\n"
    );
}
