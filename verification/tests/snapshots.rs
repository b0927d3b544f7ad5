use playrust::codec::write_json;
use playrust::json::JsonValue;
use playrust::number::Real64;
use playrust::snapshot::{
    Bounds, CapturedElement, CapturedSnapshot, DiffError, ElementRef, LocatorIdentity,
    ReferenceError, Scroll, SemanticNode, SemanticState, SnapshotError, SnapshotStore, Viewport,
};
use playrust::snapshot_json::{elements_value, DiffBounds};

fn float(value: f64) -> Real64 {
    Real64 {
        bits: value.to_bits(),
    }
}

fn no_state() -> SemanticState {
    SemanticState {
        enabled: None,
        editable: None,
        checked: None,
        selected: None,
        focused: None,
        expanded: None,
        pressed: None,
    }
}

fn node(name: &str) -> SemanticNode {
    SemanticNode {
        role: "button".to_owned(),
        name: Some(name.to_owned()),
        value: None,
        description: None,
        bounds: Some(Bounds {
            x: float(10.0),
            y: float(20.0),
            width: float(80.0),
            height: float(30.0),
        }),
        visible: Some(true),
        state: SemanticState {
            enabled: Some(true),
            ..no_state()
        },
    }
}

fn identity(text: &str) -> LocatorIdentity {
    LocatorIdentity {
        text: text.to_owned(),
    }
}

fn capture(elements: &[(&str, Option<&str>, &str)]) -> CapturedSnapshot {
    CapturedSnapshot {
        viewport: Viewport {
            width: 1280,
            height: 720,
        },
        scroll: Scroll {
            x: float(0.0),
            y: float(0.0),
            document_width: float(0.0),
            document_height: float(0.0),
        },
        truncated: false,
        elements: elements
            .iter()
            .enumerate()
            .map(|(index, (name, parent, label))| CapturedElement {
                identity: identity(name),
                backend_node_id: i64::try_from(index + 1).unwrap(),
                parent: parent.map(identity),
                node: node(label),
            })
            .collect(),
    }
}

fn store(retention: usize) -> SnapshotStore {
    SnapshotStore::new(retention)
}

fn bounds() -> JsonValue {
    JsonValue::Record(vec![("x".to_owned(), JsonValue::Unsigned(10))])
}

#[test]
fn response_is_compact_and_element_refs_are_strings() {
    let mut store = store(2);
    let snapshot = store
        .publish(capture(&[("submit", None, "Submit")]))
        .unwrap();
    let text = write_json(&elements_value(&snapshot.elements, &vec![bounds()]));
    let value: serde_json::Value = serde_json::from_str(&text).unwrap();

    assert_eq!(value[0]["ref"], "e1");
    assert!(value[0].get("identity").is_none());
    assert_eq!(value[0]["role"], "button");
    assert_eq!(value[0]["visible"], true);
    assert_eq!(value[0]["states"].as_object().unwrap().len(), 1);
    assert_eq!(value[0]["states"]["enabled"], true);
    assert_eq!(value[0]["bounds"]["x"], 10);
    assert!(value[0].get("value").is_none());
    assert_eq!("e1".parse::<ElementRef>().unwrap().number(), 1);
    assert!("e0".parse::<ElementRef>().is_err());
}

#[test]
fn references_never_repeat_and_only_the_latest_snapshot_resolves() {
    let mut store = store(2);
    let first = store
        .publish(capture(&[("submit", None, "Submit")]))
        .unwrap();
    let e1 = first.elements[0].element_ref;
    assert_eq!(store.resolve(e1).unwrap(), (&identity("submit"), 1));

    store.invalidate_for_mutation();
    assert_eq!(
        store.resolve(e1),
        Err(ReferenceError::Stale { reference: e1 })
    );
    assert_eq!(
        write_json(&ReferenceError::Stale { reference: e1 }.to_json()),
        "{\"code\":\"stale_ref\",\"ref\":\"e1\"}"
    );
    let second = store
        .publish(capture(&[("submit", None, "Submit")]))
        .unwrap();
    let e2 = second.elements[0].element_ref;
    assert_eq!(e2.text(), "e2");
    assert_eq!(
        store.resolve(e1),
        Err(ReferenceError::Stale { reference: e1 })
    );
    assert_eq!(
        store.resolve("e99".parse().unwrap()),
        Err(ReferenceError::Unknown {
            reference: "e99".parse().unwrap()
        })
    );
}

#[test]
fn invalid_capture_does_not_replace_the_latest_registry() {
    let mut store = store(2);
    let first = store
        .publish(capture(&[("submit", None, "Submit")]))
        .unwrap();
    let reference = first.elements[0].element_ref;

    let error = store
        .publish(capture(&[("field", Some("missing"), "Field")]))
        .unwrap_err();
    assert!(matches!(error, SnapshotError::MissingParent { .. }));
    assert_eq!(
        error.message(),
        "element LocatorIdentity(\"field\") has missing parent LocatorIdentity(\"missing\")"
    );
    assert_eq!(store.generation(), 1);
    assert_eq!(store.resolve(reference).unwrap(), (&identity("submit"), 1));
}

#[test]
fn diffs_use_durable_identity_instead_of_snapshot_refs() {
    let mut store = store(3);
    store
        .publish(capture(&[
            ("form", None, "Checkout"),
            ("submit", Some("form"), "Pay"),
            ("old", None, "Old"),
        ]))
        .unwrap();
    store
        .publish(capture(&[
            ("form", None, "Checkout"),
            ("submit", Some("form"), "Pay now"),
            ("new", None, "New"),
        ]))
        .unwrap();

    let diff = store.diff(1, 2).unwrap();
    assert!(diff.added.contains_key("new"));
    let change = diff.changed.get("submit").unwrap();
    assert_eq!(change.before.name.as_deref(), Some("Pay"));
    assert_eq!(change.after.name.as_deref(), Some("Pay now"));
    assert!(diff.removed.contains_key("old"));
    assert_eq!(diff.added.len(), 1);
    assert_eq!(diff.changed.len(), 1);
    assert_eq!(diff.removed.len(), 1);
    assert_eq!(
        store.latest_snapshot().unwrap().elements[0]
            .element_ref
            .text(),
        "e4"
    );
    let told = write_json(&diff.to_json(&DiffBounds {
        added: vec![bounds()],
        before: vec![bounds()],
        after: vec![bounds()],
        removed: vec![bounds()],
    }));
    let value: serde_json::Value = serde_json::from_str(&told).unwrap();
    assert_eq!(value["from_generation"], 1);
    assert_eq!(value["changed"]["submit"]["before_parent"], "form");
    assert_eq!(value["changed"]["submit"]["after"]["name"], "Pay now");
    assert_eq!(value["removed"]["old"]["role"], "button");
}

#[test]
fn retention_is_bounded_and_diffs_require_adjacent_snapshots() {
    let mut store = store(2);
    for name in ["One", "Two", "Three"] {
        store.publish(capture(&[("button", None, name)])).unwrap();
    }

    assert_eq!(store.diff(1, 2).unwrap_err(), DiffError::NotRetained(1));
    assert_eq!(
        store.diff(3, 2).unwrap_err(),
        DiffError::NotAdjacent { from: 3, to: 2 }
    );
    assert!(store.diff(2, 3).is_ok());
}

#[test]
fn publish_rejects_duplicate_element_identities() {
    let mut store = store(2);
    let mut snapshot = capture(&[("button", None, "One"), ("button", None, "Two")]);
    snapshot.elements[1].identity = snapshot.elements[0].identity.clone();
    assert!(matches!(
        store.publish(snapshot).unwrap_err(),
        SnapshotError::DuplicateIdentity(_)
    ));
}

#[test]
fn invalid_diff_baselines_are_rejected_before_publishing_an_unseen_snapshot() {
    let mut store = store(2);
    store.publish(capture(&[("button", None, "One")])).unwrap();
    store.publish(capture(&[("button", None, "Two")])).unwrap();
    let current_ref = store.latest_snapshot().unwrap().elements[0].element_ref;

    assert_eq!(
        store.validate_diff_from(1),
        Err(DiffError::NotAdjacent { from: 1, to: 3 })
    );
    assert_eq!(store.generation(), 2);
    assert!(store.resolve(current_ref).is_ok());
    assert!(store.validate_diff_from(2).is_ok());
    assert_eq!(store.validate_diff_from(9), Err(DiffError::NotRetained(9)));
}

#[test]
fn references_are_read_as_they_are_written() {
    for text in ["e1", "e42", "e18446744073709551615"] {
        assert_eq!(text.parse::<ElementRef>().unwrap().text(), text);
    }
    assert_eq!("e+7".parse::<ElementRef>().unwrap().number(), 7);
    assert_eq!("e007".parse::<ElementRef>().unwrap().number(), 7);
    for text in [
        "",
        "e",
        "1",
        "e-1",
        "e1x",
        "e+",
        "E1",
        "e18446744073709551616",
    ] {
        assert!(text.parse::<ElementRef>().is_err(), "{text}");
    }
    assert_eq!(
        "x\"".parse::<ElementRef>().unwrap_err().message(),
        "invalid element reference \"x\\\"\"; expected eN where N is positive"
    );
}

#[test]
fn parents_are_told_by_reference() {
    let mut store = SnapshotStore::default();
    let snapshot = store
        .publish(capture(&[("child", Some("form"), "Pay"), ("form", None, "F")]))
        .unwrap();
    assert_eq!(
        snapshot.elements[0].parent,
        Some(snapshot.elements[1].element_ref)
    );
    assert_eq!(snapshot.elements[1].parent, None);
    assert_eq!(
        ReferenceError::Unknown {
            reference: snapshot.elements[0].element_ref
        }
        .message(),
        "unknown element reference e1"
    );
    assert_eq!(
        DiffError::NotRetained(4).message(),
        "snapshot generation 4 is not retained"
    );
    assert_eq!(
        DiffError::NotAdjacent { from: 1, to: 3 }.message(),
        "snapshots 1 and 3 are not adjacent retained snapshots"
    );
}

#[test]
fn an_element_at_no_place_is_never_the_same() {
    let mut store = store(2);
    for _ in 0..2 {
        let mut odd = capture(&[("button", None, "One")]);
        odd.elements[0].node.bounds.as_mut().unwrap().x = float(f64::NAN);
        store.publish(odd).unwrap();
    }
    assert!(store.diff(1, 2).unwrap().changed.contains_key("button"));
    let mut store = store_with_zeroes();
    assert!(store.diff(1, 2).unwrap().changed.is_empty());
    store.invalidate_for_mutation();
}

fn store_with_zeroes() -> SnapshotStore {
    let mut store = store(2);
    for zero in [0.0, -0.0] {
        let mut still = capture(&[("button", None, "One")]);
        still.elements[0].node.bounds.as_mut().unwrap().x = float(zero);
        store.publish(still).unwrap();
    }
    store
}
