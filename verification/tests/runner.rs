use std::collections::{BTreeMap, BTreeSet};
use std::time::Duration;

use chromiumoxide::keys::get_key_definition;
use playrust::address::url_matches;
use playrust::diagnostics::step_context;
use playrust::flow::{
    Assertion, ClearTarget, CompiledFlow, CompiledStep, Expression, FlowSettings, Guard, GuardKind,
    Key, Locator, LocatorRelation, LocatorStrategy, Modifier, NamedKey, Operation,
    PresentationOverlays, SettleCondition, UrlExpectation, ViewportPoint,
};
use playrust::guards::{evaluate_expression, guards_match};
use playrust::http::{prepare_request, ResponseBody};
use playrust::interaction::{
    character_text, key_name, modifier_mask, plan_pause, press_key, previous_history_index,
    require_gesture_time, ERASE_FUNCTION, PREPARE_FILL_FUNCTION, SELECT_FUNCTION,
};
use playrust::journal::RelationKind;
use playrust::json::JsonValue;
use playrust::navigation::{prepare_open_settle, OPEN_SETTLE_DEADLINE_SLACK};
use playrust::outputs::{resolve_runtime, store_output};
use playrust::recorder::should_retain_video;
use playrust::report::{ArtifactPaths, ExitCode, FailureCategory, FlowStatus, SafeText};
use playrust::run_report::{failure, report, step_failure, BrowserStatus};
use playrust::snapshot::Viewport;
use playrust::step_error::{
    assertion_locator_error, deadline_timeout_ms, locator_error, LocatorError, Observation,
    Sighting, StepError,
};
use playrust::step_work::{plan_step, Need, StepWork};
use playrust::values::{
    Outputs, Redactor, Resolved, RuntimeValue, ValuePart, MAX_RUNTIME_VALUE_BYTES,
};
use playrust::video::VideoMode;

fn shown(value: &str) -> Resolved<String> {
    Resolved::new(value.to_owned(), false)
}

fn locator(strategy: LocatorStrategy) -> Locator {
    Locator {
        strategy,
        index: None,
        checked: None,
        selected: None,
        focused: None,
        enabled: None,
        relations: Vec::new(),
    }
}

fn css(value: &str) -> Locator {
    locator(LocatorStrategy::Css(shown(value)))
}

fn test_id(value: &str) -> Locator {
    locator(LocatorStrategy::TestId(shown(value)))
}

fn text(value: &str) -> RuntimeValue {
    RuntimeValue::literal(value.to_owned(), false)
}

fn flow(source: &str, operations: Vec<Operation>) -> CompiledFlow {
    let steps = operations
        .into_iter()
        .enumerate()
        .map(|(index, operation)| CompiledStep {
            index: index + 1,
            source: source.to_owned(),
            source_index: index + 1,
            id: None,
            operation,
            timeout: 10_000_000_000,
            retries: 0,
            guards: Vec::new(),
            when: None,
        })
        .collect();
    CompiledFlow {
        name: "x".to_owned(),
        source: source.to_owned(),
        steps,
        settings: FlowSettings {
            timeout: 10_000_000_000,
            viewport: Viewport {
                width: 1280,
                height: 720,
            },
            geolocation: None,
            video: VideoMode::Off,
            overlays: PresentationOverlays {
                pointer: false,
                step: false,
                url: false,
            },
        },
        manual_recording: false,
        recording_secret_warning: None,
        inputs: Vec::new(),
        redactor: Redactor::new(),
    }
}

fn nanos(duration: Duration) -> u128 {
    duration.as_nanos()
}

const NOW: u128 = 1_000_000_000_000;

#[test]
fn modifier_bits_follow_cdp() {
    assert_eq!(modifier_mask(&vec![]), 0);
    assert_eq!(
        modifier_mask(&vec![
            Modifier::Alt,
            Modifier::Control,
            Modifier::Meta,
            Modifier::Shift
        ]),
        15
    );
}

#[test]
fn modifiers_count_once() {
    assert_eq!(modifier_mask(&vec![Modifier::Shift, Modifier::Shift]), 8);
    assert_eq!(modifier_mask(&vec![Modifier::Alt]), 1);
    assert_eq!(modifier_mask(&vec![Modifier::Control]), 2);
    assert_eq!(modifier_mask(&vec![Modifier::Meta]), 4);
}

#[test]
fn previous_history_index_rejects_the_first_entry() {
    let error = previous_history_index(0).unwrap_err();
    assert_eq!(error.category, FailureCategory::Navigation);
    assert_eq!(error.message, "no previous history entry");
    assert!(matches!(previous_history_index(1), Ok(0)));
}

#[test]
fn runtime_json_is_compact_secret_and_size_bounded() {
    let value = RuntimeValue {
        parts: vec![
            ValuePart::Literal(shown("prefix-")),
            ValuePart::Output("saved".to_owned()),
        ],
    };
    let mut outputs = Outputs::new();
    outputs.insert(
        "saved".to_owned(),
        JsonValue::Record(vec![(
            "token".to_owned(),
            JsonValue::Text("canary".to_owned()),
        )]),
    );
    let resolved =
        resolve_runtime(&value, &outputs).unwrap_or_else(|error| panic!("{}", error.message));
    assert_eq!(resolved.expose(), "prefix-{\"token\":\"canary\"}");
    assert!(resolved.is_secret());

    let mut stored = Outputs::new();
    let mut redactor = Redactor::new();
    store_output(
        &mut stored,
        &mut redactor,
        "small",
        JsonValue::Text("canary".to_owned()),
    )
    .unwrap_or_else(|error| panic!("{}", error.message));
    assert_eq!(redactor.redact("value=canary"), "value=[REDACTED]");
    assert!(store_output(
        &mut stored,
        &mut redactor,
        "large",
        JsonValue::Text("x".repeat(MAX_RUNTIME_VALUE_BYTES + 1)),
    )
    .is_err());
}

#[test]
fn short_runtime_string_outputs_are_not_registered_for_redaction() {
    let mut stored = Outputs::new();
    let mut redactor = Redactor::new();
    store_output(
        &mut stored,
        &mut redactor,
        "short",
        JsonValue::Text("ab".to_owned()),
    )
    .unwrap_or_else(|error| panic!("{}", error.message));
    assert_eq!(
        redactor.redact("ab and \"ab\" and visible"),
        "ab and \"ab\" and visible"
    );

    store_output(
        &mut stored,
        &mut redactor,
        "long",
        JsonValue::Text("abcd".to_owned()),
    )
    .unwrap_or_else(|error| panic!("{}", error.message));
    assert_eq!(redactor.redact("abcd"), "[REDACTED]");
}

#[test]
fn structured_expressions_resolve_runtime_json_without_exposing_values() {
    let saved = RuntimeValue {
        parts: vec![ValuePart::Output("saved".to_owned())],
    };
    let expression = Expression::All(vec![
        Expression::Boolean(saved),
        Expression::NotEquals(text("x"), text("y")),
    ]);
    let mut outputs = Outputs::new();
    outputs.insert("saved".to_owned(), JsonValue::Bool(true));
    assert!(matches!(
        evaluate_expression(&expression, &outputs),
        Ok(true)
    ));

    let mut outputs = Outputs::new();
    outputs.insert(
        "saved".to_owned(),
        JsonValue::Text("canary-secret".to_owned()),
    );
    let message = evaluate_expression(&expression, &outputs)
        .unwrap_err()
        .message;
    assert!(!message.contains("canary-secret"));
}

#[test]
fn while_guards_snapshot_subflow_iterations_and_stop_permanently() {
    let guard = |id: usize| {
        vec![Guard {
            id,
            kind: GuardKind::While {
                expression: Expression::Boolean(RuntimeValue {
                    parts: vec![ValuePart::Output("state".to_owned())],
                }),
                loop_id: 0,
            },
        }]
    };
    let mut outputs = Outputs::new();
    outputs.insert("state".to_owned(), JsonValue::Bool(true));
    let mut results = BTreeMap::new();
    let mut stopped = BTreeSet::new();
    assert!(matches!(
        guards_match(&guard(0), &outputs, &mut results, &mut stopped),
        Ok(true)
    ));
    outputs.insert("state".to_owned(), JsonValue::Bool(false));
    assert!(matches!(
        guards_match(&guard(0), &outputs, &mut results, &mut stopped),
        Ok(true)
    ));
    assert!(matches!(
        guards_match(&guard(1), &outputs, &mut results, &mut stopped),
        Ok(false)
    ));
    outputs.insert("state".to_owned(), JsonValue::Bool(true));
    assert!(matches!(
        guards_match(&guard(2), &outputs, &mut results, &mut stopped),
        Ok(false)
    ));
}

#[test]
fn nested_runtime_json_strings_are_redacted_from_urls_and_diagnostics() {
    let mut stored = Outputs::new();
    let mut redactor = Redactor::new();
    store_output(
        &mut stored,
        &mut redactor,
        "secret",
        JsonValue::Record(vec![
            (
                "auth".to_owned(),
                JsonValue::Record(vec![(
                    "token".to_owned(),
                    JsonValue::Text("object-canary".to_owned()),
                )]),
            ),
            (
                "items".to_owned(),
                JsonValue::List(vec![
                    JsonValue::Text("array-canary".to_owned()),
                    JsonValue::Record(vec![(
                        "value".to_owned(),
                        JsonValue::Text("nested-array-canary".to_owned()),
                    )]),
                ]),
            ),
        ]),
    )
    .unwrap_or_else(|error| panic!("{}", error.message));

    let url = redactor
        .redact("https://example.test/object-canary/array-canary?nested=nested-array-canary");
    let diagnostic =
        redactor.redact("request failed for object-canary, array-canary, and nested-array-canary");
    for canary in ["object-canary", "array-canary", "nested-array-canary"] {
        assert!(!url.contains(canary), "secret leaked in URL: {url}");
        assert!(
            !diagnostic.contains(canary),
            "secret leaked in diagnostic: {diagnostic}"
        );
    }
}

#[test]
fn refused_requests_statuses_and_bodies_are_request_failures() {
    let outputs = Outputs::new();
    let invalid = prepare_request("not-a-url", &Vec::new(), &None, &outputs).unwrap_err();
    assert_eq!(invalid.category, FailureCategory::Request);
    let file = prepare_request("file:///tmp/x", &Vec::new(), &None, &outputs).unwrap_err();
    assert_eq!(file.category, FailureCategory::Request);

    let headers = vec![("x-api-key".to_owned(), text("canary"))];
    let request = prepare_request("http://example.test", &headers, &None, &outputs).unwrap();
    assert_eq!(
        request.headers,
        vec![("x-api-key".to_owned(), "canary".to_owned())]
    );
    assert!(request.body.is_none());

    let status = ResponseBody::begin(503, 200, false, None).unwrap_err();
    assert_eq!(status.category, FailureCategory::Request);
    let body = ResponseBody::begin(200, 200, true, Some(MAX_RUNTIME_VALUE_BYTES as u64 + 1))
        .unwrap_err();
    assert_eq!(body.category, FailureCategory::Request);
    assert!(ResponseBody::begin(302, 302, false, None)
        .unwrap()
        .is_none());

    let mut kept = ResponseBody::begin(200, 200, true, None).unwrap().unwrap();
    kept.add_chunk(b"{\"a\":").unwrap();
    kept.add_chunk(b"[1,true]}").unwrap();
    assert_eq!(
        format!("{:?}", kept.finish()),
        "Record([(\"a\", List([Unsigned(1), Bool(true)]))])"
    );
    let mut words = ResponseBody::begin(200, 200, true, None).unwrap().unwrap();
    words.add_chunk(b"plain \xff text").unwrap();
    assert_eq!(
        format!("{:?}", words.finish()),
        "Text(\"plain \u{fffd} text\")"
    );
    let mut large = ResponseBody::begin(200, 200, true, None).unwrap().unwrap();
    large
        .add_chunk(&vec![b'x'; MAX_RUNTIME_VALUE_BYTES])
        .unwrap();
    assert!(large.add_chunk(b"x").is_err());
}

#[test]
fn every_v1_named_key_has_a_chromium_definition() {
    for key in [
        NamedKey::Enter,
        NamedKey::Tab,
        NamedKey::Escape,
        NamedKey::Space,
        NamedKey::Backspace,
        NamedKey::Delete,
        NamedKey::ArrowUp,
        NamedKey::ArrowDown,
        NamedKey::ArrowLeft,
        NamedKey::ArrowRight,
        NamedKey::Home,
        NamedKey::End,
        NamedKey::PageUp,
        NamedKey::PageDown,
    ] {
        assert!(get_key_definition(key_name(&Key::Named(key))).is_some());
    }
}

#[test]
fn keys_are_pressed_with_their_codes() {
    let enter = press_key(&Key::Named(NamedKey::Enter), &vec![Modifier::Control]).unwrap();
    assert_eq!(enter.name, "Enter");
    assert_eq!(enter.code, "Enter");
    assert_eq!(enter.key_code, 13);
    assert_eq!(enter.modifiers, 2);
    let letter = press_key(&Key::Character('a'), &vec![Modifier::Shift]).unwrap();
    assert_eq!(letter.code, "KeyA");
    assert_eq!(letter.text, Some(("A".to_owned(), "a".to_owned())));
}

#[test]
fn url_expectations_compare_exact_urls_or_path_and_query() {
    let expectation = UrlExpectation::Path(shown("/a?q=1"));
    assert!(url_matches(
        "https://example.test/a?q=1#fragment",
        &expectation
    ));
    assert!(!url_matches("https://example.test/a?q=2", &expectation));
    let whole = UrlExpectation::Equals(shown("https://example.test/a"));
    assert!(url_matches("https://example.test/a", &whole));
    assert!(!url_matches("https://example.test/a#b", &whole));
    assert!(!url_matches("no address", &expectation));
}

#[test]
fn a_query_is_compared_only_where_it_is_supplied() {
    let path = UrlExpectation::Path(shown("/a"));
    assert!(url_matches("https://example.test/a?q=1", &path));
    assert!(url_matches("https://example.test/a#fragment", &path));
    assert!(url_matches("https://other.test:8443/a", &path));
    assert!(!url_matches("https://example.test/a/b?q=1", &path));
    let empty = UrlExpectation::Path(shown("/a?"));
    assert!(url_matches("https://example.test/a?", &empty));
    assert!(!url_matches("https://example.test/a", &empty));
    assert!(!url_matches("https://example.test/a?q=1", &empty));
}

#[test]
fn secret_locators_are_never_rendered_in_step_context() {
    let mut target = css("button");
    target.relations.push(LocatorRelation {
        kind: RelationKind::Has,
        locator: Box::new(locator(LocatorStrategy::Text {
            value: Resolved::new("canary-secret".to_owned(), true),
            match_kind: playrust::journal::TextMatch::Exact,
        })),
    });
    let flow = flow(
        "x.yaml",
        vec![Operation::Click {
            target,
            position: None,
        }],
    );
    let context = step_context(&flow, &flow.steps[0]);
    assert_eq!(context.locator.unwrap().as_str(), "[REDACTED]");
}

#[test]
fn public_locator_diagnostics_include_modifiers() {
    let mut target = css("button");
    target.index = Some(1);
    target.checked = Some(false);
    target.focused = Some(true);
    target.enabled = Some(true);
    target.relations.push(LocatorRelation {
        kind: RelationKind::ChildOf,
        locator: Box::new(test_id("panel")),
    });
    let flow = flow(
        "x.yaml",
        vec![Operation::Click {
            target,
            position: None,
        }],
    );
    let context = step_context(&flow, &flow.steps[0]);
    assert_eq!(
        context.locator.unwrap().as_str(),
        "css=\"button\" index=1 checked=false focused=true enabled=true child_of=(test_id=\"panel\")"
    );
}

#[test]
fn viewport_click_diagnostics_do_not_claim_a_locator() {
    let flow = flow(
        "x.yaml",
        vec![Operation::ClickPoint {
            point: ViewportPoint { x: 100, y: 200 },
        }],
    );
    let context = step_context(&flow, &flow.steps[0]);
    assert_eq!(context.operation, "click.point");
    assert!(context.locator.is_none());
}

#[test]
fn double_click_step_context_uses_its_action_name_and_target() {
    let flow = flow(
        "x.yaml",
        vec![Operation::DoubleClick {
            target: css("button"),
            position: None,
        }],
    );
    let context = step_context(&flow, &flow.steps[0]);
    assert_eq!(context.operation, "double_click");
    assert_eq!(context.locator.unwrap().as_str(), "css=\"button\"");
}

#[test]
fn interaction_step_contexts_include_only_targeted_locators() {
    let flow = flow(
        "x.yaml",
        vec![
            Operation::Erase {
                target: css("input"),
            },
            Operation::Select {
                target: css("select"),
                value: text("x"),
            },
            Operation::Scroll { x: 0, y: 1 },
            Operation::ScrollUntilVisible {
                target: css(".item"),
                x: 0,
                y: 100,
            },
            Operation::Swipe {
                target: css(".card"),
                x: 1,
                y: 0,
                duration: 0,
            },
            Operation::LongPress {
                target: css("button"),
                duration: 0,
            },
            Operation::WaitUntilVisible {
                target: css(".late"),
            },
            Operation::WaitUntilStable {
                target: css(".moving"),
            },
            Operation::Back,
        ],
    );
    for (step, name, locator) in [
        (&flow.steps[0], "erase", Some("css=\"input\"")),
        (&flow.steps[1], "select", Some("css=\"select\"")),
        (&flow.steps[2], "scroll", None),
        (
            &flow.steps[3],
            "scroll_until_visible",
            Some("css=\".item\""),
        ),
        (&flow.steps[4], "swipe", Some("css=\".card\"")),
        (&flow.steps[5], "long_press", Some("css=\"button\"")),
        (&flow.steps[6], "wait_until_visible", Some("css=\".late\"")),
        (&flow.steps[7], "wait_until_stable", Some("css=\".moving\"")),
        (&flow.steps[8], "back", None),
    ] {
        let context = step_context(&flow, step);
        assert_eq!(context.operation, name);
        assert_eq!(context.locator.as_ref().map(SafeText::as_str), locator);
    }
}

#[test]
fn open_settle_step_context_includes_the_settle_locator() {
    let flow = flow(
        "x.yaml",
        vec![
            Operation::Open {
                url: shown("https://example.test/a"),
                settle: Some(SettleCondition::Visible(css("#heading"))),
            },
            Operation::Open {
                url: shown("https://example.test/b"),
                settle: Some(SettleCondition::Stable(test_id("hero"))),
            },
            Operation::Open {
                url: shown("https://example.test/c"),
                settle: None,
            },
        ],
    );
    let visible = step_context(&flow, &flow.steps[0]);
    assert_eq!(visible.operation, "open");
    assert_eq!(
        visible.locator.as_ref().map(SafeText::as_str),
        Some("css=\"#heading\"")
    );
    let stable = step_context(&flow, &flow.steps[1]);
    assert_eq!(stable.operation, "open");
    assert_eq!(
        stable.locator.as_ref().map(SafeText::as_str),
        Some("test_id=\"hero\"")
    );
    let plain = step_context(&flow, &flow.steps[2]);
    assert_eq!(plain.operation, "open");
    assert!(plain.locator.is_none());
}

#[test]
fn open_settle_budget_is_exhausted_at_or_past_the_deadline() {
    let past = NOW
        .checked_sub(nanos(Duration::from_secs(1)))
        .expect("deadline in the past");
    let error = prepare_open_settle(NOW, past).expect_err("budget exhausted");
    assert_eq!(error.category, FailureCategory::Timeout);
    assert!(error.deadline_based);
    assert!(
        error.message.contains(
            "navigation completed without enough remaining time for the open settle condition"
        ),
        "{}",
        error.message
    );
}

#[test]
fn open_settle_deadline_keeps_slack_before_the_step_deadline() {
    let deadline = NOW + nanos(Duration::from_secs(2));
    let settle_by = prepare_open_settle(NOW, deadline).unwrap_or_else(|error| {
        panic!("budget available: {}", error.message);
    });
    assert!(settle_by < deadline);
    assert!(deadline - settle_by >= OPEN_SETTLE_DEADLINE_SLACK);
}

#[test]
fn open_settle_budget_is_exhausted_when_slack_does_not_fit() {
    let deadline = NOW + OPEN_SETTLE_DEADLINE_SLACK / 2;
    let error = prepare_open_settle(NOW, deadline).expect_err("slack must not fit");
    assert_eq!(error.category, FailureCategory::Timeout);
    assert!(error.deadline_based);
    assert!(
        error.message.contains(
            "navigation completed without enough remaining time for the open settle condition"
        ),
        "{}",
        error.message
    );
}

#[test]
fn included_step_context_preserves_child_source_and_local_number() {
    let mut flow = flow(
        "root.yaml",
        vec![
            Operation::Open {
                url: shown("https://example.test"),
                settle: None,
            },
            Operation::Assert(Assertion::Visible(css("missing"))),
        ],
    );
    for step in &mut flow.steps {
        step.source = "/flows/child.subflow.yaml".to_owned();
    }

    let context = step_context(&flow, &flow.steps[1]);

    assert_eq!(context.number, 2);
    assert_eq!(context.source_step, Some(2));
    assert!(context
        .source
        .as_deref()
        .is_some_and(|source| source.ends_with("child.subflow.yaml")));
}

fn seen(sighting: Sighting) -> Observation {
    Observation {
        sighting,
        text: "seen".to_owned(),
    }
}

#[test]
fn deadline_based_failures_include_timeout_for_all_automation_categories() {
    for error in [
        locator_error(LocatorError::Timeout {
            last: seen(Sighting::NoMatch),
        }),
        locator_error(LocatorError::Timeout {
            last: seen(Sighting::Hidden),
        }),
        assertion_locator_error(LocatorError::Timeout {
            last: seen(Sighting::NoMatch),
        }),
    ] {
        assert_eq!(
            deadline_timeout_ms(&error, nanos(Duration::from_millis(321))),
            Some(321)
        );
    }
    assert_eq!(
        deadline_timeout_ms(&StepError::assertion("no deadline"), 1),
        None
    );
}

#[test]
fn report_preserves_failure_order_and_uses_infrastructure_precedence() {
    let flow = flow(
        "x.yaml",
        vec![Operation::Open {
            url: shown("https://x.test"),
            settle: None,
        }],
    );
    let failures = vec![
        failure(
            &flow.redactor,
            FailureCategory::Assertion,
            "automation",
            None,
        ),
        failure(&flow.redactor, FailureCategory::Recording, "cleanup", None),
    ];
    let artifacts = ArtifactPaths {
        directory: String::new(),
        screenshots: Vec::new(),
        failure_screenshot: None,
        visual_actual: None,
        visual_diff: None,
        recording: None,
        partial_recording: None,
    };
    let report = report(&flow, 0, artifacts, failures, false);

    assert_eq!(report.failures[0].category, FailureCategory::Assertion);
    assert_eq!(report.failures[1].category, FailureCategory::Recording);
    assert_eq!(report.exit_code(), ExitCode::Infrastructure);
    assert_eq!(report.status, FlowStatus::Failed);
}

#[test]
fn a_crashed_browser_outweighs_the_category_of_a_step() {
    let mut flow = flow("x.yaml", vec![Operation::Back]);
    flow.redactor.add_secret("canary");
    let error = StepError::new(FailureCategory::Navigation, "lost canary").deadline();
    let failed = step_failure(
        &flow,
        &flow.redactor,
        &flow.steps[0],
        &error,
        BrowserStatus::Closed,
        Some("https://x.test/canary"),
    );
    assert_eq!(failed.category, FailureCategory::BrowserCrash);
    assert_eq!(failed.message.as_str(), "lost [REDACTED]");
    assert_eq!(failed.timeout_ms, Some(10_000));
    assert_eq!(
        failed.current_url.as_ref().map(SafeText::as_str),
        Some("https://x.test/[REDACTED]")
    );
}

#[test]
fn shifted_character_events_use_shifted_and_unmodified_text() {
    assert_eq!(
        character_text('a', &vec![Modifier::Shift]),
        ("A".to_owned(), "a".to_owned())
    );
    assert_eq!(
        character_text('1', &vec![Modifier::Shift]),
        ("!".to_owned(), "1".to_owned())
    );
    assert_eq!(
        character_text('a', &vec![]),
        ("a".to_owned(), "a".to_owned())
    );
}

#[test]
fn fill_clears_text_controls_without_unsupported_select_or_change_events() {
    assert!(PREPARE_FILL_FUNCTION.contains("HTMLInputElement.prototype, 'value'"));
    assert!(PREPARE_FILL_FUNCTION.contains("HTMLTextAreaElement.prototype, 'value'"));
    assert!(PREPARE_FILL_FUNCTION.contains("this.isContentEditable"));
    assert!(PREPARE_FILL_FUNCTION.contains("range.selectNodeContents(this)"));
    assert!(!PREPARE_FILL_FUNCTION.contains("this.select()"));
    assert!(!PREPARE_FILL_FUNCTION.contains("dispatchEvent"));
}

#[test]
fn erase_and_select_dispatch_native_form_events_once() {
    assert_eq!(ERASE_FUNCTION.matches("dispatchEvent").count(), 2);
    assert!(ERASE_FUNCTION.contains("HTMLInputElement.prototype, 'value'"));
    assert!(ERASE_FUNCTION.contains("this.replaceChildren()"));
    assert_eq!(SELECT_FUNCTION.matches("dispatchEvent").count(), 2);
    assert!(SELECT_FUNCTION.contains("this instanceof HTMLSelectElement"));
    assert!(SELECT_FUNCTION.contains("this.multiple"));
    assert!(SELECT_FUNCTION.contains("option.value === value"));
}

#[test]
fn screencast_errors_retain_failure_only_video() {
    assert!(should_retain_video(
        false,
        &vec!["stream failed".to_owned()]
    ));
    assert!(should_retain_video(true, &vec![]));
    assert!(!should_retain_video(false, &vec![]));
}

#[test]
fn pauses_and_gestures_keep_to_the_deadline() {
    assert_eq!(plan_pause(5, 10, 20), (10, true));
    assert_eq!(plan_pause(5, 15, 20), (15, true));
    assert_eq!(plan_pause(5, 16, 20), (15, false));
    assert!(require_gesture_time(5, 10, 16, "swipe").is_ok());
    let error = require_gesture_time(5, 11, 16, "swipe").unwrap_err();
    assert_eq!(
        error.message,
        "swipe duration exceeds the remaining step deadline"
    );
    assert!(error.deadline_based);
    assert!(require_gesture_time(u128::MAX, 1, u128::MAX, "swipe").is_err());
}

#[test]
fn steps_ask_the_browser_for_what_they_need() {
    let outputs = Outputs::new();
    let work = plan_step(
        &Operation::Fill {
            target: css("input"),
            value: text("abc"),
        },
        &outputs,
        false,
    )
    .unwrap();
    assert!(matches!(work.need(), Some(Need::Editable)));
    let missing = plan_step(
        &Operation::Fill {
            target: css("input"),
            value: RuntimeValue {
                parts: vec![ValuePart::Output("gone".to_owned())],
            },
        },
        &outputs,
        false,
    )
    .unwrap_err();
    assert!(missing.message.contains("gone"));
    assert!(matches!(
        plan_step(&Operation::Back, &outputs, false),
        Ok(StepWork::Back)
    ));
    assert!(plan_step(&Operation::Clear(ClearTarget::Cookies), &outputs, false).is_ok());
}
