use playrust::action::register_flow_secrets;
use playrust::codec::read_json;
use playrust::flow::{CompiledFlow, FlowSettings, PresentationOverlays};
use playrust::journal::{
    read_next_sequence, ActionOutcome, DialogAction, DialogResponse, DurableLocator,
    DurableRelation, EmptyAction, JournalError, JournalEvent, JournalWriter, LocatorStrategy,
    PressAction, RelationKind, ReplayOperation, ReplayValue, ScrollAction, SecretReference,
    TargetAction, TextMatch, ValueAction,
};
use playrust::json::JsonValue;
use playrust::replay::{
    build_replay, build_replay_yaml, identifier, is_safe_bundle_name, ExportError,
};
use playrust::snapshot::Viewport;
use playrust::values::{Redactor, Resolved};
use playrust::video::VideoMode;

fn test_id(value: &str) -> DurableLocator {
    DurableLocator::new(LocatorStrategy::TestId(value.to_owned()))
}

fn success(operation: ReplayOperation) -> JournalEvent {
    JournalEvent::Action {
        operation: Box::new(operation),
        outcome: ActionOutcome::Success,
        durable_locator: None,
    }
}

fn json(text: &str) -> JsonValue {
    read_json(text.as_bytes()).unwrap()
}

#[test]
fn journal_is_sequence_numbered_and_redacted() {
    let mut journal = JournalWriter::new(1);
    journal.register_secret("tok\"en");
    let source = journal.line(&JournalEvent::RecorderWarning {
        warning: "bad tok\"en and tok\"en".to_owned(),
    });
    assert_eq!(journal.written().unwrap(), 1);

    assert!(!source.contains("tok"));
    let line: serde_json::Value = serde_json::from_str(source.trim()).unwrap();
    assert_eq!(line["sequence"], 1);
    assert_eq!(line["type"], "recorder_warning");
    assert_eq!(line["warning"], "bad [REDACTED] and [REDACTED]");

    let next = read_next_sequence(&vec![source.trim().to_owned()]).unwrap();
    let mut reopened = JournalWriter::new(next);
    assert!(reopened
        .line(&JournalEvent::Export {
            name: "bundle".to_owned(),
        })
        .starts_with("{\"name\":\"bundle\",\"sequence\":2,"));
    assert_eq!(reopened.written().unwrap(), 2);
}

#[test]
fn journals_with_fractions_go_on() {
    let mut journal = JournalWriter::new(1);
    let mut lines = Vec::new();
    for number in [
        f64::MAX,
        f64::MIN,
        f64::MIN_POSITIVE,
        f64::from_bits(1),
        -0.0,
        0.1,
        1e16,
        1.797693134862315e308,
        123456789012345680.0,
    ] {
        let value = JsonValue::Real(serde_json::Number::from_f64(number).unwrap());
        let line = journal.line(&JournalEvent::Settings { settings: value });
        assert_eq!(line.matches('\n').count(), 1);
        assert!(line.ends_with('\n'));
        lines.push(line.trim_end().to_owned());
        journal.written().unwrap();
        let read = read_json(lines.last().unwrap().as_bytes()).unwrap();
        match read {
            JsonValue::Record(fields) => assert!(fields
                .iter()
                .any(|(name, value)| name == "settings" && matches!(value, JsonValue::Real(_)))),
            other => panic!("{other:?}"),
        }
    }
    assert_eq!(read_next_sequence(&lines), Ok(10));
}

#[test]
fn exports_are_the_same_every_time() {
    let fill = |field: &str, name: &str| {
        success(ReplayOperation::Fill(ValueAction {
            target: test_id(field),
            value: ReplayValue::Environment(SecretReference::from_env(name)),
        }))
    };
    let events = vec![
        fill("user", "APP_USER"),
        fill("password", "APP_PASSWORD"),
        fill("again", "APP_PASSWORD"),
        JournalEvent::ObservedNavigation {
            url: "https://example.test".to_owned(),
        },
    ];
    let first = build_replay_yaml("run", &events).unwrap();
    assert_eq!(first.step_count, 3);
    assert_eq!(first.secret_count, 2);
    assert_eq!(build_replay_yaml("run", &events).unwrap(), first);
}

#[test]
fn journals_that_are_not_numbered_are_refused() {
    assert_eq!(read_next_sequence(&vec![]), Ok(1));
    assert_eq!(
        read_next_sequence(&vec!["{\"sequence\":1}".to_owned(), "{\"x\":2}".to_owned()]),
        Err(JournalError::MissingSequence)
    );
    let skipped = read_next_sequence(&vec!["{\"sequence\":2}".to_owned()]).unwrap_err();
    assert_eq!(
        skipped.message(),
        "expected journal sequence 1, found 2"
    );
    let broken = read_next_sequence(&vec!["{".to_owned()]).unwrap_err();
    assert!(broken.message().starts_with("invalid journal: "));
    assert_eq!(
        read_next_sequence(&vec!["[1]".to_owned()]).unwrap_err().message(),
        "missing sequence"
    );
    let mut last = JournalWriter::new(u64::MAX);
    assert_eq!(last.written(), Err(JournalError::Exhausted));
    assert_eq!(JournalError::Exhausted.message(), "journal sequence exhausted");
}

#[test]
fn names_of_fields_are_redacted_too() {
    let mut journal = JournalWriter::new(7);
    journal.register_secret("hunter2");
    let line = journal.line(&JournalEvent::Close {
        summary: json("{\"a\":[{\"hunter2\":\"is hunter2\"}]}"),
    });
    assert_eq!(
        line,
        "{\"sequence\":7,\"summary\":{\"a\":[{\"[REDACTED]\":\"is [REDACTED]\"}]},\"type\":\"close\"}\n"
    );
}

#[test]
fn compiled_secrets_are_registered_with_the_journal() {
    let flow = CompiledFlow {
        name: "test".to_owned(),
        source: "test.yaml".to_owned(),
        steps: Vec::new(),
        settings: FlowSettings {
            timeout: 10_000_000_000,
            viewport: Viewport {
                width: 1280,
                height: 720,
            },
            geolocation: None,
            video: VideoMode::Off,
            overlays: PresentationOverlays {
                pointer: false,
                step: false,
                url: false,
            },
        },
        manual_recording: false,
        recording_secret_warning: None,
        inputs: vec![
            (
                "password".to_owned(),
                Resolved::new("secret-canary".to_owned(), true),
            ),
            ("user".to_owned(), Resolved::new("alice".to_owned(), false)),
        ],
        redactor: Redactor::new(),
    };
    let mut journal = JournalWriter::new(1);
    register_flow_secrets(&mut journal, &flow);
    let contents = journal.line(&JournalEvent::RecorderWarning {
        warning: "alice: value=secret-canary".to_owned(),
    });
    assert!(contents.contains("[REDACTED]"));
    assert!(contents.contains("alice"));
    assert!(!contents.contains("secret-canary"));
}

#[test]
fn bundle_names_are_safe_path_components() {
    for valid in ["run", "wonderway-run_2", "A1"] {
        assert!(is_safe_bundle_name(valid), "{valid}");
    }
    for invalid in ["", ".", "..", ".hidden", "../run", "a/b", "a b"] {
        assert!(!is_safe_bundle_name(invalid), "{invalid}");
    }
    assert!(is_safe_bundle_name(&"a".repeat(100)));
    assert!(!is_safe_bundle_name(&"a".repeat(101)));
    assert!(!is_safe_bundle_name("caf\u{e9}"));
}

#[test]
fn export_is_deterministic_and_structured() {
    let events = vec![
        JournalEvent::Snapshot {
            snapshot_revision: 1,
            summary: JsonValue::Null,
        },
        success(ReplayOperation::Open(ReplayValue::Literal(
            "https://example.com".to_owned(),
        ))),
        success(ReplayOperation::Click(TargetAction {
            target: test_id("submit"),
        })),
        JournalEvent::ObservedNavigation {
            url: "https://example.com/done".to_owned(),
        },
        success(ReplayOperation::Scroll(ScrollAction { x: 0, y: 600 })),
        success(ReplayOperation::WaitUntilVisible(TargetAction {
            target: test_id("result"),
        })),
        JournalEvent::ReplayStep {
            step: json("{ \"pause\": \"1500ms\" }"),
            outcome: ActionOutcome::Success,
            durable_locator: None,
        },
        success(ReplayOperation::Dialog(DialogAction {
            action: DialogResponse::Accept,
            text: None,
        })),
        success(ReplayOperation::Assert(json(
            "{ \"visible\": { \"test_id\": \"result\" } }",
        ))),
    ];
    let first = build_replay_yaml("example-run", &events).unwrap();
    let second = build_replay_yaml("example-run", &events).unwrap();
    assert_eq!(first, second);
    assert_eq!(first.step_count, 7);
    assert!(first.yaml.contains("test_id: 'submit'"));
    assert!(!first.yaml.contains("snapshot_revision"));
    assert!(!first.yaml.contains("/done"));
    assert!(first.yaml.contains("dialog:"));
    assert!(first.yaml.contains("pause: '1500ms'"));

    let flow: serde_json::Value = serde_saphyr::from_str(&first.yaml).unwrap();
    assert_eq!(flow["version"], 1);
    assert_eq!(flow["name"], "example-run");
    assert_eq!(flow["steps"].as_array().unwrap().len(), 7);
    assert_eq!(flow["steps"][2]["scroll"]["y"], 600);
    assert!(flow["steps"][2]["scroll"].get("x").is_none());
    assert!(flow.get("secrets").is_none());
}

#[test]
fn failed_actions_do_not_enter_replay() {
    let events = vec![
        JournalEvent::Action {
            operation: Box::new(ReplayOperation::Click(TargetAction {
                target: test_id("missing"),
            })),
            outcome: ActionOutcome::Failed {
                error: "not found".to_owned(),
            },
            durable_locator: Some(test_id("missing")),
        },
        success(ReplayOperation::Back(EmptyAction::default())),
    ];
    let replay = build_replay_yaml("failed-excluded", &events).unwrap();
    assert_eq!(replay.step_count, 1);
    assert!(!replay.yaml.contains("missing"));
    assert!(!replay.yaml.contains("not found"));
}

#[test]
fn environment_secrets_are_lifted_without_resolved_values() {
    let events = vec![success(ReplayOperation::Fill(ValueAction {
        target: test_id("password"),
        value: ReplayValue::Environment(SecretReference::from_env("APP_PASSWORD")),
    }))];
    let replay = build_replay_yaml("secret-run", &events).unwrap();
    assert_eq!(replay.secret_count, 1);
    assert!(replay.yaml.contains("env: 'APP_PASSWORD'"));
    assert!(replay.yaml.contains("value: '${value_app_password}'"));
    assert!(!replay.yaml.contains("resolved-password"));
}

#[test]
fn replays_are_written_in_the_order_of_their_fields() {
    let events = vec![success(ReplayOperation::Fill(ValueAction {
        target: test_id("password"),
        value: ReplayValue::Environment(SecretReference::from_env("APP_PASSWORD")),
    }))];
    let replay = build_replay_yaml("run", &events).unwrap();
    assert_eq!(
        replay.yaml,
        "version: 1\nname: 'run'\nsecrets:\n  value_app_password:\n    env: 'APP_PASSWORD'\nsteps:\n- fill:\n    target:\n      test_id: 'password'\n    value: '${value_app_password}'\n"
    );
}

#[test]
fn replays_need_a_name_and_a_step() {
    assert_eq!(
        build_replay_yaml("../run", &vec![]),
        Err(ExportError::UnsafeName)
    );
    let empty = build_replay_yaml("run", &vec![]).unwrap_err();
    assert_eq!(empty, ExportError::EmptyReplay);
    assert_eq!(
        empty.message(),
        "replay has no successful explicit operations"
    );
    assert_eq!(
        ExportError::UnsafeName.message(),
        "bundle name must be a safe path component"
    );
    assert_eq!(
        ExportError::Publish {
            path: "/x".to_owned(),
            source: "full".to_owned()
        }
        .message(),
        "failed to publish replay to /x: full"
    );
}

#[test]
fn one_variable_has_one_name_and_one_name_one_variable() {
    let fill = |name: &str| {
        success(ReplayOperation::Fill(ValueAction {
            target: test_id("field"),
            value: ReplayValue::Environment(SecretReference::from_env(name)),
        }))
    };
    let events = vec![fill("APP-KEY"), fill("APP_KEY"), fill("APP-KEY"), fill("app.key")];
    let flow = build_replay("run", &events).unwrap();
    assert_eq!(flow.secrets.len(), 3);
    assert_eq!(
        flow.secrets.get("value_app_key").map(String::as_str),
        Some("APP-KEY")
    );
    assert_eq!(
        flow.secrets.get("value_app_key_2").map(String::as_str),
        Some("APP_KEY")
    );
    assert_eq!(
        flow.secrets.get("value_app_key_3").map(String::as_str),
        Some("app.key")
    );
    let yaml = build_replay_yaml("run", &events).unwrap().yaml;
    assert_eq!(yaml.matches("${value_app_key}").count(), 2);
}

#[test]
fn names_of_secrets_are_identifiers() {
    assert_eq!(identifier("Field Name"), "field_name");
    assert_eq!(identifier("__A--b__"), "a_b");
    assert_eq!(identifier("1st"), "secret_1st");
    assert_eq!(identifier("\u{e9}\u{e9}"), "secret");
    assert_eq!(identifier(""), "secret");
}

#[test]
fn operations_are_told_by_name() {
    let mut target = test_id("a");
    target.index = Some(2);
    target.enabled = Some(true);
    target.relations.push(DurableRelation {
        kind: RelationKind::Within,
        locator: Box::new(DurableLocator::new(LocatorStrategy::Role {
            value: "form".to_owned(),
            name: None,
        })),
    });
    let press = ReplayOperation::Press(PressAction {
        target,
        key: "Enter".to_owned(),
        modifiers: vec!["Control".to_owned()],
    });
    assert_eq!(
        playrust::codec::write_json(&press.to_json()),
        "{\"press\":{\"key\":\"Enter\",\"modifiers\":[\"Control\"],\"target\":{\"enabled\":true,\"index\":2,\"test_id\":\"a\",\"within\":{\"role\":{\"value\":\"form\"}}}}}"
    );
    let select = ReplayOperation::Select(ValueAction {
        target: DurableLocator::new(LocatorStrategy::Text {
            value: "Pick".to_owned(),
            match_kind: TextMatch::Contains,
        }),
        value: ReplayValue::Literal("one".to_owned()),
    });
    assert_eq!(
        playrust::codec::write_json(&select.to_json()),
        "{\"select\":{\"target\":{\"text\":{\"match\":\"contains\",\"value\":\"Pick\"}},\"value\":\"one\"}}"
    );
    assert!(ActionOutcome::Success.succeeded());
}
