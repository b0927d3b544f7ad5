use playrust::dialog::{
    validate_prompt_text, DialogError, DialogKind, DialogPolicy, DialogState, PendingDialog,
};
use playrust::codec::write_json;

fn dialog(kind: DialogKind) -> PendingDialog {
    PendingDialog {
        kind,
        message: "Continue?".to_owned(),
        url: "https://example.test/".to_owned(),
        frame_id: "frame-1".to_owned(),
        default_prompt: if kind == DialogKind::Prompt {
            Some("default".to_owned())
        } else {
            None
        },
        has_browser_handler: true,
        opened_at_ms: 1,
        opening_revision: 0,
    }
}

fn bound_state() -> DialogState {
    let mut state = DialogState::new();
    state.generation = 1;
    state
}

#[test]
fn explicit_policy_keeps_dialog_pending_until_response() {
    let mut state = bound_state();
    assert!(state
        .opened(1, dialog(DialogKind::Confirm), DialogPolicy::Explicit)
        .is_none());
    let mut expected = dialog(DialogKind::Confirm);
    expected.opening_revision = 1;
    assert_eq!(
        state.pending.as_ref().map(|pending| &pending.metadata),
        Some(&expected)
    );
    assert!(!state.pending.as_ref().unwrap().handling);
}

#[test]
fn automatic_policies_create_one_response() {
    let mut state = bound_state();
    let accept = state
        .opened(1, dialog(DialogKind::Prompt), DialogPolicy::Accept)
        .unwrap();
    assert!(accept.accept);
    assert_eq!(accept.prompt_text.as_deref(), Some(""));
    assert!(state.pending.as_ref().unwrap().handling);

    let dismiss = state
        .opened(1, dialog(DialogKind::Alert), DialogPolicy::Dismiss)
        .unwrap();
    assert!(!dismiss.accept);
    assert_eq!(dismiss.prompt_text, None);
}

#[test]
fn completion_clears_success_and_releases_failure_for_retry() {
    let mut state = bound_state();
    let response = state
        .opened(1, dialog(DialogKind::Confirm), DialogPolicy::Accept)
        .unwrap();
    state.complete(response.id, Some("CDP failed".to_owned()));
    assert!(!state.pending.as_ref().unwrap().handling);
    assert_eq!(state.last_error.as_deref(), Some("CDP failed"));

    state.pending.as_mut().unwrap().handling = true;
    state.complete(response.id, None);
    assert!(state.pending.is_none());
}

#[test]
fn closed_event_only_clears_current_generation_and_frame() {
    let mut state = bound_state();
    state.opened(1, dialog(DialogKind::Alert), DialogPolicy::Explicit);
    state.closed(0, "frame-1");
    state.closed(1, "another-frame");
    assert!(state.pending.is_some());
    state.closed(1, "frame-1");
    assert!(state.pending.is_none());
}

#[test]
fn stale_opening_event_cannot_replace_rebound_state() {
    let mut state = bound_state();
    assert!(state
        .opened(0, dialog(DialogKind::Alert), DialogPolicy::Accept)
        .is_none());
    assert!(state.pending.is_none());
}

#[test]
fn prompt_text_validation_is_independent_of_cdp() {
    assert!(validate_prompt_text(DialogKind::Prompt, true, Some("answer")).is_ok());
    assert!(validate_prompt_text(DialogKind::Prompt, true, None).is_ok());
    assert!(validate_prompt_text(DialogKind::Confirm, true, Some("answer")).is_err());
    assert!(validate_prompt_text(DialogKind::Prompt, false, Some("answer")).is_err());
}

#[test]
fn explicit_dialogs_take_one_answer() {
    let mut state = DialogState::new();
    assert!(matches!(
        state.begin_response(true, None),
        Err(DialogError::Unbound)
    ));
    let generation = state.bind();
    assert!(matches!(
        state.begin_response(true, None),
        Err(DialogError::NothingPending)
    ));
    state.opened(
        generation,
        dialog(DialogKind::Prompt),
        DialogPolicy::Explicit,
    );
    assert!(matches!(
        state.begin_response(false, Some("text")),
        Err(DialogError::UnexpectedPromptText)
    ));
    let answer = state.begin_response(true, Some("text")).unwrap();
    assert!(answer.accept);
    assert_eq!(answer.prompt_text.as_deref(), Some("text"));
    assert!(matches!(
        state.begin_response(true, None),
        Err(DialogError::AlreadyAnswered)
    ));
    state.complete(answer.id, Some("lost".to_owned()));
    assert_eq!(state.take_error().as_deref(), Some("lost"));
    assert_eq!(state.take_error(), None);
    assert!(state.begin_response(false, None).is_ok());
    state.unbind_if(generation + 1);
    assert!(state.bound);
    state.unbind_if(generation);
    assert!(!state.bound && state.pending.is_none());
}

#[test]
fn dialogs_are_told_as_records() {
    let text = write_json(&dialog(DialogKind::BeforeUnload).to_json());
    assert!(text.contains("\"type\":\"before_unload\""), "{text}");
    assert!(text.contains("\"message\":\"Continue?\""));
    let prompt = write_json(&dialog(DialogKind::Prompt).to_json());
    assert!(prompt.contains("\"default_prompt\":\"default\""));
    for (policy, name) in [
        (DialogPolicy::Explicit, "explicit"),
        (DialogPolicy::Accept, "accept"),
        (DialogPolicy::Dismiss, "dismiss"),
    ] {
        assert_eq!(policy.name(), name);
    }
    for error in [
        DialogError::Unbound,
        DialogError::NothingPending,
        DialogError::AlreadyAnswered,
        DialogError::UnexpectedPromptText,
    ] {
        assert!(!error.message().is_empty());
    }
}
