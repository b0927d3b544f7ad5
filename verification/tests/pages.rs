use playrust::assertions::{
    poll_hidden, poll_scroll, poll_text, poll_text_target, poll_url, step_due, text_matches,
    when_matches, Due, Look, Poll,
};
use playrust::codec::read_json;
use playrust::flow::{
    CompiledStep, Expression, LocatorStrategy, Operation, PresentationOverlays, UrlExpectation,
    When,
};
use playrust::journal::TextMatch;
use playrust::json::JsonValue;
use playrust::locate::{
    bounded_inspection_text, bounded_snapshot_text, capture_element, identity_of, inspect_pages,
    nodes_shown, simple_locator, snapshot_ax_node, snapshot_nodes, stable_dom_id, AxName, AxNode,
    LocatorSearch, SearchStage, SnapshotNodeMetadata, TargetPage,
};
use playrust::navigation::TargetFacts;
use playrust::number::Real64;
use playrust::outputs::store_output;
use playrust::overlay::overlay_script;
use playrust::report::FailureCategory;
use playrust::run_report::BrowserStatus;
use playrust::runtime::{
    browser_unavailable, captures_full_page, check_screenshot_size, close_result,
    interactive_outcome, shown_page, Disposal,
};
use playrust::snapshot::Bounds;
use playrust::step_error::{LocatorError, Observation, Sighting, StepError};
use playrust::text::is_white_space;
use playrust::values::{Outputs, Redactor, Resolved, RuntimeValue};

fn seen(sighting: Sighting) -> Look {
    Look::Seen(Observation {
        sighting,
        text: "told".to_owned(),
    })
}

fn shown(value: &str) -> Resolved<String> {
    Resolved::new(value.to_owned(), false)
}

fn failed(poll: Poll) -> StepError {
    match poll {
        Poll::Failed(error) => error,
        other => panic!("{other:?}"),
    }
}

#[test]
fn hidden_elements_are_those_not_seen() {
    for sighting in [Sighting::NoMatch, Sighting::Detached, Sighting::Hidden] {
        assert!(matches!(poll_hidden(seen(sighting), 9, 5), Poll::Done));
    }
    assert!(matches!(
        poll_hidden(seen(Sighting::Ready), 4, 5),
        Poll::Again
    ));
    let error = failed(poll_hidden(Look::Retryable("busy".to_owned()), 5, 5));
    assert_eq!(error.message, "target remained visible");
    assert_eq!(error.last_observed.as_deref(), Some("busy"));
    assert!(error.deadline_based);
    let lost = failed(poll_hidden(
        Look::Failed(LocatorError::Protocol("gone".to_owned())),
        0,
        5,
    ));
    assert_eq!(lost.category, FailureCategory::Protocol);
}

#[test]
fn texts_are_polled_until_they_match() {
    assert!(matches!(
        poll_text_target(seen(Sighting::Ready), 9, 5),
        Poll::Done
    ));
    assert_eq!(
        failed(poll_text_target(seen(Sighting::Multiple), 9, 5)).message,
        "text target was not visible"
    );
    assert!(matches!(
        poll_text(Ok(" a\n b ".to_owned()), false, "a b", TextMatch::Exact, 9, 5),
        Poll::Done
    ));
    assert!(matches!(
        poll_text(Ok("x".to_owned()), false, "y", TextMatch::Exact, 4, 5),
        Poll::Again
    ));
    let error = failed(poll_text(
        Ok("x".to_owned()),
        false,
        "y",
        TextMatch::Contains,
        5,
        5,
    ));
    assert_eq!(error.message, "text assertion did not match");
    assert_eq!(
        error.last_observed.as_deref(),
        Some("expected \"y\"; text was \"x\"")
    );
    let protocol = || StepError::new(FailureCategory::Protocol, "busy");
    assert!(matches!(
        poll_text(Err(protocol()), true, "y", TextMatch::Exact, 4, 5),
        Poll::Again
    ));
    assert_eq!(
        failed(poll_text(Err(protocol()), true, "y", TextMatch::Exact, 5, 5)).message,
        "text target was unavailable"
    );
    assert_eq!(
        failed(poll_text(Err(protocol()), false, "y", TextMatch::Exact, 0, 5)).message,
        "busy"
    );
}

#[test]
fn text_matching_collapses_white_space_and_minds_case() {
    assert!(text_matches("  Sign\t in ", "Sign in", TextMatch::Exact));
    assert!(!text_matches("sign in", "Sign in", TextMatch::Exact));
    assert!(!text_matches("Signin", "Sign in", TextMatch::Exact));
    assert!(text_matches("Welcome  back", "me b", TextMatch::Contains));
    assert!(!text_matches("Welcome", "bye", TextMatch::Contains));
    assert!(text_matches("any", "", TextMatch::Contains));
}

#[test]
fn white_space_is_what_unicode_says() {
    for ch in '\0'..=char::MAX {
        assert_eq!(is_white_space(ch), ch.is_whitespace(), "{ch:?}");
    }
}

#[test]
fn addresses_are_polled_until_they_match() {
    let path = UrlExpectation::Path(shown("/a"));
    assert!(matches!(poll_url("https://x.test/a#b", &path, 9, 5), Poll::Done));
    assert!(matches!(poll_url("https://x.test/b", &path, 4, 5), Poll::Again));
    let error = failed(poll_url("https://x.test/b", &path, 5, 5));
    assert_eq!(
        error.last_observed.as_deref(),
        Some("expected Path(\"/a\"); URL was \"https://x.test/b\"")
    );
    let secret = UrlExpectation::Equals(Resolved::new("canary".to_owned(), true));
    let error = failed(poll_url("https://x.test/", &secret, 5, 5));
    assert!(!error.last_observed.unwrap().contains("canary"));
}

#[test]
fn scrolling_ends_at_the_target_or_the_deadline() {
    assert!(matches!(poll_scroll(seen(Sighting::Ready), 9, 5), Poll::Done));
    assert!(matches!(
        poll_scroll(seen(Sighting::Hidden), 4, 5),
        Poll::Again
    ));
    let error = failed(poll_scroll(seen(Sighting::Hidden), 5, 5));
    assert_eq!(error.category, FailureCategory::Timeout);
    assert_eq!(error.message, "scroll_until_visible deadline expired");
}

fn css(value: &str) -> playrust::flow::Locator {
    simple_locator(LocatorStrategy::Css(shown(value)))
}

#[test]
fn conditions_of_steps_look_once() {
    let outputs = Outputs::new();
    let look = |sighting| {
        Ok(Observation {
            sighting,
            text: String::new(),
        })
    };
    let visible = When::Visible(css("a"));
    let hidden = When::Hidden(css("a"));
    assert!(when_matches(&visible, &outputs, look(Sighting::Ready)).unwrap());
    assert!(!when_matches(&visible, &outputs, look(Sighting::Hidden)).unwrap());
    assert!(when_matches(&hidden, &outputs, look(Sighting::NoMatch)).unwrap());
    assert!(when_matches(
        &hidden,
        &outputs,
        Err(LocatorError::Protocol("x".to_owned()))
    )
    .is_err());
    let yes = When::Expression(Expression::Boolean(RuntimeValue::literal(
        "true".to_owned(),
        false,
    )));
    let mut step = CompiledStep {
        index: 1,
        source: "x.yaml".to_owned(),
        source_index: 1,
        id: None,
        operation: Operation::Back,
        timeout: 1,
        retries: 0,
        guards: Vec::new(),
        when: None,
    };
    let mut results = std::collections::BTreeMap::new();
    let mut stopped = std::collections::BTreeSet::new();
    assert_eq!(
        step_due(&step, &outputs, &mut results, &mut stopped).unwrap(),
        Due::Run
    );
    step.when = Some(visible);
    assert_eq!(
        step_due(&step, &outputs, &mut results, &mut stopped).unwrap(),
        Due::Look
    );
    step.when = Some(yes);
    assert_eq!(
        step_due(&step, &outputs, &mut results, &mut stopped).unwrap(),
        Due::Run
    );
}

fn metadata() -> SnapshotNodeMetadata {
    SnapshotNodeMetadata {
        test_id: Some("pay".to_owned()),
        id: Some("main".to_owned()),
        id_selector: "#main".to_owned(),
        label: None,
        ancestor_test_id: None,
        ancestor_id: Some("form".to_owned()),
        ancestor_id_selector: "#form".to_owned(),
        css_path: "body > button".to_owned(),
        visible: true,
        enabled: true,
        editable: false,
    }
}

#[test]
fn the_first_locator_that_finds_only_the_element_is_taken() {
    let redactor = Redactor::new();
    let mut search = LocatorSearch::start(
        7,
        "button",
        &Some("Pay".to_owned()),
        &metadata(),
        false,
        &redactor,
    );
    let mut tried = Vec::new();
    for resolved in [vec![7, 8], vec![], vec![7]] {
        tried.push(identity_of(&search.locator()).text);
        search.next(&resolved);
    }
    assert_eq!(
        tried,
        vec![
            "{\"test_id\":\"pay\"}",
            "{\"role\":{\"name\":\"Pay\",\"value\":\"button\"}}",
            "{\"css\":\"#main\"}",
        ]
    );
    assert!(matches!(search.stage, SearchStage::Found(2, None)));
    assert_eq!(identity_of(&search.locator()).text, "{\"css\":\"#main\"}");
}

#[test]
fn without_a_unique_locator_the_place_is_told() {
    let mut redactor = Redactor::new();
    redactor.add_secret("body");
    redactor.add_secret("main");
    let mut search = LocatorSearch::start(
        7,
        "button",
        &None,
        &metadata(),
        true,
        &redactor,
    );
    let mut tried = Vec::new();
    loop {
        if let SearchStage::Found(..) = search.stage {
            break;
        }
        tried.push(identity_of(&search.locator()).text);
        search.next(&vec![5, 7, 7]);
    }
    assert_eq!(
        tried,
        vec![
            "{\"test_id\":\"pay\"}",
            "{\"role\":{\"name\":null,\"value\":\"button\"},\"within\":{\"css\":\"#form\"}}",
            "{\"role\":{\"name\":null,\"value\":\"button\"}}",
            "{\"role\":{\"name\":null,\"value\":\"button\"}}",
        ]
    );
    assert_eq!(
        identity_of(&search.locator()).text,
        "{\"index\":1,\"role\":{\"name\":null,\"value\":\"button\"}}"
    );
    let preferred = LocatorSearch::start(7, "b", &None, &metadata(), true, &Redactor::new());
    assert_eq!(
        identity_of(&preferred.locator()).text,
        "{\"css\":\"body > button\"}"
    );
}

fn ax(role: &str, focusable: Option<bool>) -> AxNode {
    let mut properties = vec![(AxName::Checked, Some(JsonValue::Bool(true)))];
    if let Some(flag) = focusable {
        properties.push((AxName::Focusable, Some(JsonValue::Bool(flag))));
    }
    AxNode {
        ignored: false,
        backend_node_id: Some(7),
        role: Some(JsonValue::Text(role.to_owned())),
        name: Some(JsonValue::Text("Pay canary".to_owned())),
        value: Some(JsonValue::Text(String::new())),
        description: None,
        properties,
    }
}

#[test]
fn snapshots_tell_of_what_can_be_acted_on() {
    assert!(snapshot_ax_node(&ax("button", None)));
    assert!(!snapshot_ax_node(&ax("heading", None)));
    assert!(!snapshot_ax_node(&ax("heading", Some(false))));
    assert!(snapshot_ax_node(&ax("heading", Some(true))));
    let mut ignored = ax("button", None);
    ignored.ignored = true;
    assert!(!snapshot_ax_node(&ignored));
    let nodes = (0..300)
        .map(|index| ax(if index % 100 == 0 { "heading" } else { "button" }, None))
        .collect();
    let (chosen, truncated) = snapshot_nodes(nodes);
    assert_eq!(chosen.len(), 250);
    assert!(truncated);
    let (chosen, truncated) = snapshot_nodes(vec![ax("link", None), ax("note", None)]);
    assert_eq!(chosen.len(), 1);
    assert!(!truncated);
}

#[test]
fn captured_elements_hold_no_secret() {
    let mut redactor = Redactor::new();
    redactor.add_secret("canary");
    let zero = Real64 { bits: 0 };
    let element = capture_element(
        &ax("button", None),
        7,
        &metadata(),
        &css("a"),
        Bounds {
            x: zero,
            y: zero,
            width: zero,
            height: zero,
        },
        &redactor,
    );
    assert_eq!(element.node.name.as_deref(), Some("Pay [REDACTED]"));
    assert_eq!(element.node.value, None);
    assert_eq!(element.node.state.checked, Some(true));
    assert_eq!(element.node.state.enabled, Some(true));
    assert_eq!(element.node.state.selected, None);
    assert_eq!(element.identity.text, "{\"css\":\"a\"}");
    assert_eq!(element.backend_node_id, 7);
}

#[test]
fn identifiers_that_look_generated_are_not_stable() {
    assert!(stable_dom_id("submit"));
    assert!(stable_dom_id("a12345"));
    assert!(stable_dom_id("x123456"));
    assert!(!stable_dom_id("ab123456"));
    assert!(!stable_dom_id(""));
    assert!(!stable_dom_id("two words"));
    assert!(!stable_dom_id(&"a".repeat(101)));
    assert!(stable_dom_id(&"a".repeat(100)));
}

#[test]
fn inspections_are_bounded() {
    assert_eq!(bounded_inspection_text(&"x".repeat(20_000)).len(), 16_384);
    assert_eq!(
        bounded_snapshot_text(Some(&"\u{e9}".repeat(501))).unwrap().chars().count(),
        500
    );
    assert_eq!(bounded_snapshot_text(Some("")), None);
    assert_eq!(nodes_shown(&vec![10; 600]), 500);
    assert_eq!(nodes_shown(&vec![262_141]), 1);
    assert_eq!(nodes_shown(&vec![262_142]), 0);
    assert_eq!(nodes_shown(&vec![200_000, 62_140, 1]), 2);
    let page = |id: &str, context: &str| TargetPage {
        target: TargetFacts {
            id: id.to_owned(),
            kind: "page".to_owned(),
            context: Some(context.to_owned()),
        },
        url: format!("https://{id}.test"),
        title: id.to_owned(),
    };
    let pages = inspect_pages(&vec![page("a", "c"), page("b", "d"), page("e", "c")], "c", "e");
    assert_eq!(pages.len(), 2);
    assert_eq!(pages[0].url, "https://a.test");
    assert!(!pages[0].active && pages[1].active);
}

#[test]
fn overlays_hold_their_texts_as_json() {
    let mut redactor = Redactor::new();
    redactor.add_secret("canary");
    let script = overlay_script(
        3,
        &Some("log\"in".to_owned()),
        "https://x.test/canary",
        PresentationOverlays {
            pointer: true,
            step: true,
            url: true,
        },
        &redactor,
    );
    assert!(script.contains("add(\"Step 3 \u{b7} log\\\"in\");"));
    assert!(script.contains("add(\"https://x.test/[REDACTED]\");"));
    assert!(script.contains("hidden = !true;"));
    assert!(script.contains("if (true) {"));
    let quiet = overlay_script(
        3,
        &None,
        "https://x.test/",
        PresentationOverlays {
            pointer: false,
            step: true,
            url: false,
        },
        &redactor,
    );
    assert!(quiet.contains("add(\"Step 3\");"));
    assert!(quiet.contains("add(\"\");"));
    assert!(quiet.contains("hidden = !false;"));
}

#[test]
fn outcomes_of_steps_hold_no_secret() {
    let mut redactor = Redactor::new();
    let mut outputs = Outputs::new();
    store_output(
        &mut outputs,
        &mut redactor,
        "token",
        read_json(b"{\"t\":\"canary\"}").unwrap(),
    )
    .unwrap();
    let done = interactive_outcome(Ok(Some("a.png".to_owned())), &outputs, &redactor).unwrap();
    assert_eq!(done.outputs, vec!["token".to_owned()]);
    assert_eq!(done.artifact.as_deref(), Some("a.png"));
    let error = StepError::assertion("saw canary").observed("canary".to_owned());
    let told = interactive_outcome(Err(error), &outputs, &redactor).unwrap_err();
    assert_eq!(told.message, "saw [REDACTED]");
    assert_eq!(told.last_observed.as_deref(), Some("[REDACTED]"));
    assert_eq!(
        shown_page(Some("https://canary.test".to_owned()), "canary", &redactor),
        (
            "https://[REDACTED].test".to_owned(),
            "[REDACTED]".to_owned()
        )
    );
}

#[test]
fn lost_browsers_and_failed_closings_are_told() {
    assert_eq!(browser_unavailable(BrowserStatus::Running, "", true), None);
    assert_eq!(
        browser_unavailable(BrowserStatus::Failed, "crash", true).as_deref(),
        Some("Chromium is unavailable: crash")
    );
    assert_eq!(
        browser_unavailable(BrowserStatus::Running, "", false).as_deref(),
        Some("Chromium status monitor stopped")
    );
    assert!(close_result(None, Disposal::Done).is_ok());
    assert_eq!(
        close_result(Some("a".to_owned()), Disposal::TimedOut).unwrap_err(),
        "a; dispose browser context timed out"
    );
    assert!(captures_full_page(true, false));
    assert!(!captures_full_page(true, true));
    assert!(check_screenshot_size(67_108_864).is_ok());
    assert!(check_screenshot_size(67_108_865).is_err());
}
