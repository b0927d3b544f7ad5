//! Native dialogs of the bound page: which one is pending, and who answers it.

use crate::json::{
    field, field_of, fields_view, gathered, gathered_keeps_last, record_of, text_value, Json,
    JsonValue,
};
use crate::text::{optional_text, same_text};
use vstd::prelude::*;
use vstd::string::*;

verus! {

/// How dialogs are answered.
#[derive(Debug, Clone, Copy, PartialEq, Eq, Structural)]
pub enum DialogPolicy {
    Explicit,
    Accept,
    Dismiss,
}

impl DialogPolicy {
    /// The policy's name.
    pub open spec fn label(self) -> Seq<char> {
        match self {
            DialogPolicy::Explicit => "explicit"@,
            DialogPolicy::Accept => "accept"@,
            DialogPolicy::Dismiss => "dismiss"@,
        }
    }

    /// The policy's name.
    pub fn name(self) -> (name: &'static str)
        ensures
            name@ == self.label(),
    {
        match self {
            DialogPolicy::Explicit => "explicit",
            DialogPolicy::Accept => "accept",
            DialogPolicy::Dismiss => "dismiss",
        }
    }
}

/// What kind of dialog the page opened.
#[derive(Debug, Clone, Copy, PartialEq, Eq, Structural)]
pub enum DialogKind {
    Alert,
    Confirm,
    Prompt,
    BeforeUnload,
}

impl DialogKind {
    /// The kind's name.
    pub open spec fn label(self) -> Seq<char> {
        match self {
            DialogKind::Alert => "alert"@,
            DialogKind::Confirm => "confirm"@,
            DialogKind::Prompt => "prompt"@,
            DialogKind::BeforeUnload => "before_unload"@,
        }
    }

    /// The kind's name.
    pub fn name(self) -> (name: &'static str)
        ensures
            name@ == self.label(),
    {
        match self {
            DialogKind::Alert => "alert",
            DialogKind::Confirm => "confirm",
            DialogKind::Prompt => "prompt",
            DialogKind::BeforeUnload => "before_unload",
        }
    }
}

/// A dialog that waits for an answer.
#[derive(Debug, Clone, PartialEq, Eq)]
pub struct PendingDialog {
    pub kind: DialogKind,
    pub message: String,
    pub url: String,
    pub frame_id: String,
    pub default_prompt: Option<String>,
    pub has_browser_handler: bool,
    pub opened_at_ms: u64,
    pub opening_revision: u64,
}

/// The fields that describe a dialog to a client. The frame stays out of them.
pub open spec fn dialog_fields(dialog: PendingDialog) -> Seq<(Seq<char>, Json)> {
    let shown = seq![
        ("type"@, Json::Text(dialog.kind.label())),
        ("message"@, Json::Text(dialog.message@)),
        ("url"@, Json::Text(dialog.url@)),
        ("has_browser_handler"@, Json::Bool(dialog.has_browser_handler)),
        ("opened_at_ms"@, Json::Integer(dialog.opened_at_ms as int)),
        ("opening_revision"@, Json::Integer(dialog.opening_revision as int)),
    ];
    match dialog.default_prompt {
        Some(prompt) => shown.push(("default_prompt"@, Json::Text(prompt@))),
        None => shown,
    }
}

impl PendingDialog {
    /// The record that describes the dialog to a client.
    pub fn to_json(&self) -> (value: JsonValue)
        ensures
            value@ == Json::Record(gathered(dialog_fields(*self))),
    {
        let mut fields: Vec<(String, JsonValue)> = vec![
            field("type", text_value(self.kind.name())),
            field("message", text_value(self.message.as_str())),
            field("url", text_value(self.url.as_str())),
            field("has_browser_handler", JsonValue::Bool(self.has_browser_handler)),
            field("opened_at_ms", JsonValue::Unsigned(self.opened_at_ms)),
            field("opening_revision", JsonValue::Unsigned(self.opening_revision)),
        ];
        if let Some(prompt) = &self.default_prompt {
            fields.push(field("default_prompt", text_value(prompt.as_str())));
        }
        assert(fields_view(fields@) == dialog_fields(*self));
        record_of(fields)
    }
}

/// The dialog that is pending, and whether an answer to it is on its way.
#[derive(Debug, Clone, PartialEq, Eq)]
pub struct Pending {
    pub id: u64,
    pub metadata: PendingDialog,
    pub handling: bool,
}

/// An answer to send to the browser.
#[derive(Debug, Clone, PartialEq, Eq)]
pub struct DialogAnswer {
    pub id: u64,
    pub accept: bool,
    pub prompt_text: Option<String>,
}

/// Why an answer is refused.
#[derive(Debug, Clone, Copy, PartialEq, Eq, Structural)]
pub enum DialogError {
    Unbound,
    NothingPending,
    AlreadyAnswered,
    UnexpectedPromptText,
}

impl DialogError {
    /// The text of the error.
    pub open spec fn text(self) -> Seq<char> {
        match self {
            DialogError::Unbound => "native dialog listener is not bound to a page"@,
            DialogError::NothingPending => "no native dialog is pending"@,
            DialogError::AlreadyAnswered => "native dialog response is already in progress"@,
            DialogError::UnexpectedPromptText =>
                "prompt text is only valid when accepting a prompt dialog"@,
        }
    }

    /// The text of the error.
    pub fn message(self) -> (message: &'static str)
        ensures
            message@ == self.text(),
    {
        match self {
            DialogError::Unbound => "native dialog listener is not bound to a page",
            DialogError::NothingPending => "no native dialog is pending",
            DialogError::AlreadyAnswered => "native dialog response is already in progress",
            DialogError::UnexpectedPromptText =>
                "prompt text is only valid when accepting a prompt dialog",
        }
    }
}

/// Whether prompt text may go with an answer.
pub open spec fn prompt_text_fits(kind: DialogKind, accept: bool, has_text: bool) -> bool {
    has_text ==> accept && kind == DialogKind::Prompt
}

/// Refuses prompt text with anything but the acceptance of a prompt.
pub fn validate_prompt_text(kind: DialogKind, accept: bool, prompt_text: Option<&str>) -> (result:
    Result<(), DialogError>)
    ensures
        result == if prompt_text_fits(kind, accept, prompt_text is Some) {
            Ok::<(), DialogError>(())
        } else {
            Err(DialogError::UnexpectedPromptText)
        },
{
    if prompt_text.is_some() && (!accept || kind != DialogKind::Prompt) {
        return Err(DialogError::UnexpectedPromptText);
    }
    Ok(())
}

/// The dialogs of the page that is bound now. Events of an earlier binding are recognised by
/// their generation.
#[derive(Debug, Clone, PartialEq, Eq)]
pub struct DialogState {
    pub generation: u64,
    pub next_dialog_id: u64,
    pub bound: bool,
    pub pending: Option<Pending>,
    pub last_error: Option<String>,
}

/// The number after `value`, which wraps around.
pub open spec fn following(value: u64) -> u64 {
    if value == u64::MAX {
        0
    } else {
        (value + 1) as u64
    }
}

fn follow(value: u64) -> (next: u64)
    ensures
        next == following(value),
{
    if value == u64::MAX {
        0
    } else {
        value + 1
    }
}

/// The state once a dialog has opened on the bound page.
pub open spec fn state_opened(
    state: DialogState,
    generation: u64,
    dialog: PendingDialog,
    policy: DialogPolicy,
) -> DialogState {
    if generation != state.generation {
        state
    } else {
        let id = following(state.next_dialog_id);
        DialogState {
            next_dialog_id: id,
            pending: Some(
                Pending {
                    id,
                    metadata: PendingDialog { opening_revision: id, ..dialog },
                    handling: policy != DialogPolicy::Explicit,
                },
            ),
            last_error: None,
            ..state
        }
    }
}

/// The state once the page has closed a dialog of a frame by itself.
pub open spec fn state_closed(
    state: DialogState,
    generation: u64,
    frame_id: Seq<char>,
) -> DialogState {
    if generation == state.generation && state.pending is Some
        && state.pending->0.metadata.frame_id@ == frame_id {
        DialogState { pending: None, ..state }
    } else {
        state
    }
}

/// The first reason to refuse an answer, if there is one.
pub open spec fn answer_refused(state: DialogState, accept: bool, has_text: bool) -> Option<
    DialogError,
> {
    if !state.bound {
        Some(DialogError::Unbound)
    } else if state.pending is None {
        Some(DialogError::NothingPending)
    } else if state.pending->0.handling {
        Some(DialogError::AlreadyAnswered)
    } else if !prompt_text_fits(state.pending->0.metadata.kind, accept, has_text) {
        Some(DialogError::UnexpectedPromptText)
    } else {
        None
    }
}

/// The state while an answer is on its way.
pub open spec fn state_answering(state: DialogState) -> DialogState {
    DialogState { pending: Some(Pending { handling: true, ..state.pending->0 }), ..state }
}

/// The state once the answer to dialog `id` has arrived or failed.
pub open spec fn state_completed(
    state: DialogState,
    id: u64,
    error: Option<String>,
) -> DialogState {
    if state.pending is None || state.pending->0.id != id {
        state
    } else {
        match error {
            Some(error) => DialogState {
                pending: Some(Pending { handling: false, ..state.pending->0 }),
                last_error: Some(error),
                ..state
            },
            None => DialogState { pending: None, last_error: None, ..state },
        }
    }
}

impl DialogState {
    /// No page is bound and nothing is pending.
    pub fn new() -> (state: DialogState)
        ensures
            state == (DialogState {
                generation: 0,
                next_dialog_id: 0,
                bound: false,
                pending: None,
                last_error: None,
            }),
    {
        DialogState {
            generation: 0,
            next_dialog_id: 0,
            bound: false,
            pending: None,
            last_error: None,
        }
    }

    /// Binds a page and starts a new generation.
    pub fn bind(&mut self) -> (generation: u64)
        ensures
            generation == following(old(self).generation),
            *final(self) == (DialogState {
                generation,
                bound: true,
                pending: None,
                last_error: None,
                ..*old(self)
            }),
    {
        self.generation = follow(self.generation);
        self.bound = true;
        self.pending = None;
        self.last_error = None;
        self.generation
    }

    /// Lets the page go and starts a new generation.
    pub fn unbind(&mut self)
        ensures
            *final(self) == (DialogState {
                generation: following(old(self).generation),
                bound: false,
                pending: None,
                ..*old(self)
            }),
    {
        self.generation = follow(self.generation);
        self.bound = false;
        self.pending = None;
    }

    /// Lets the page go if it was bound in `generation`.
    pub fn unbind_if(&mut self, generation: u64)
        ensures
            *final(self) == if generation == old(self).generation {
                DialogState {
                    generation: following(old(self).generation),
                    bound: false,
                    pending: None,
                    ..*old(self)
                }
            } else {
                *old(self)
            },
    {
        if generation == self.generation {
            self.unbind();
        }
    }

    /// Takes note of a dialog that opened. Returns the answer that the policy gives by itself.
    pub fn opened(
        &mut self,
        generation: u64,
        dialog: PendingDialog,
        policy: DialogPolicy,
    ) -> (answer: Option<DialogAnswer>)
        ensures
            *final(self) == state_opened(*old(self), generation, dialog, policy),
            match answer {
                None => generation != old(self).generation || policy == DialogPolicy::Explicit,
                Some(answer) => {
                    &&& generation == old(self).generation
                    &&& policy != DialogPolicy::Explicit
                    &&& answer.id == following(old(self).next_dialog_id)
                    &&& answer.accept == (policy == DialogPolicy::Accept)
                    &&& optional_text(answer.prompt_text) == if policy == DialogPolicy::Accept
                        && dialog.kind == DialogKind::Prompt {
                        Some(Seq::<char>::empty())
                    } else {
                        None
                    }
                },
            },
    {
        if generation != self.generation {
            return None;
        }
        self.next_dialog_id = follow(self.next_dialog_id);
        self.last_error = None;
        let id: u64 = self.next_dialog_id;
        let fills_prompt = policy == DialogPolicy::Accept && dialog.kind == DialogKind::Prompt;
        self.pending = Some(
            Pending {
                id,
                metadata: PendingDialog { opening_revision: id, ..dialog },
                handling: policy != DialogPolicy::Explicit,
            },
        );
        match policy {
            DialogPolicy::Explicit => None,
            DialogPolicy::Accept => Some(
                DialogAnswer {
                    id,
                    accept: true,
                    prompt_text: if fills_prompt {
                        Some(String::new())
                    } else {
                        None
                    },
                },
            ),
            DialogPolicy::Dismiss => Some(DialogAnswer { id, accept: false, prompt_text: None }),
        }
    }

    /// Takes note of a dialog that the page closed by itself.
    pub fn closed(&mut self, generation: u64, frame_id: &str)
        ensures
            *final(self) == state_closed(*old(self), generation, frame_id@),
    {
        let clears = match &self.pending {
            Some(pending) => generation == self.generation && same_text(
                pending.metadata.frame_id.as_str(),
                frame_id,
            ),
            None => false,
        };
        if clears {
            self.pending = None;
        }
    }

    /// Begins the answer to the pending dialog, unless there is a reason to refuse it.
    pub fn begin_response(&mut self, accept: bool, prompt_text: Option<&str>) -> (result: Result<
        DialogAnswer,
        DialogError,
    >)
        ensures
            match result {
                Ok(answer) => {
                    &&& answer_refused(*old(self), accept, prompt_text is Some) is None
                    &&& *final(self) == state_answering(*old(self))
                    &&& answer.id == old(self).pending->0.id
                    &&& answer.accept == accept
                    &&& match prompt_text {
                        Some(text) => optional_text(answer.prompt_text) == Some(text@),
                        None => answer.prompt_text is None,
                    }
                },
                Err(error) => {
                    &&& answer_refused(*old(self), accept, prompt_text is Some) == Some(error)
                    &&& *final(self) == *old(self)
                },
            },
    {
        if !self.bound {
            return Err(DialogError::Unbound);
        }
        let pending = match self.pending.take() {
            Some(pending) => pending,
            None => {
                return Err(DialogError::NothingPending);
            },
        };
        if pending.handling {
            self.pending = Some(pending);
            return Err(DialogError::AlreadyAnswered);
        }
        if let Err(error) = validate_prompt_text(pending.metadata.kind, accept, prompt_text) {
            self.pending = Some(pending);
            return Err(error);
        }
        let id: u64 = pending.id;
        self.pending = Some(Pending { handling: true, ..pending });
        Ok(
            DialogAnswer {
                id,
                accept,
                prompt_text: match prompt_text {
                    Some(text) => Some(text.to_owned()),
                    None => None,
                },
            },
        )
    }

    /// Takes note of how the answer to dialog `id` went: it is done, or it may be tried again.
    pub fn complete(&mut self, id: u64, error: Option<String>)
        ensures
            *final(self) == state_completed(*old(self), id, error),
    {
        let pending = match self.pending.take() {
            Some(pending) => pending,
            None => {
                return ;
            },
        };
        if pending.id != id {
            self.pending = Some(pending);
            return ;
        }
        if let Some(error) = error {
            self.pending = Some(Pending { handling: false, ..pending });
            self.last_error = Some(error);
        } else {
            self.last_error = None;
        }
    }

    /// Hands out the last error of an answer, once.
    pub fn take_error(&mut self) -> (error: Option<String>)
        ensures
            error == old(self).last_error,
            *final(self) == (DialogState { last_error: None, ..*old(self) }),
    {
        self.last_error.take()
    }
}

/// An event of an earlier binding changes nothing.
pub proof fn stale_events_change_nothing(
    state: DialogState,
    generation: u64,
    dialog: PendingDialog,
    policy: DialogPolicy,
    frame_id: Seq<char>,
)
    requires
        generation != state.generation,
    ensures
        state_opened(state, generation, dialog, policy) == state,
        state_closed(state, generation, frame_id) == state,
{
}

/// A dialog that the policy answers by itself takes no answer from a client.
pub proof fn automatic_dialogs_are_answered_once(
    state: DialogState,
    dialog: PendingDialog,
    policy: DialogPolicy,
    accept: bool,
    has_text: bool,
)
    requires
        state.bound,
        policy != DialogPolicy::Explicit,
    ensures
        answer_refused(state_opened(state, state.generation, dialog, policy), accept, has_text)
            == Some(DialogError::AlreadyAnswered),
{
}

/// Under the explicit policy a dialog stays pending until it is answered, and a second answer is
/// refused while the first is on its way.
pub proof fn explicit_dialogs_wait_for_one_answer(
    state: DialogState,
    dialog: PendingDialog,
    accept: bool,
    has_text: bool,
)
    requires
        state.bound,
        prompt_text_fits(dialog.kind, accept, has_text),
    ensures
        ({
            let open = state_opened(state, state.generation, dialog, DialogPolicy::Explicit);
            &&& answer_refused(open, accept, has_text) is None
            &&& answer_refused(state_answering(open), accept, has_text) == Some(
                DialogError::AlreadyAnswered,
            )
        }),
{
}

/// A failed answer leaves the dialog pending and free to be answered again; a successful one
/// clears it.
pub proof fn completion_clears_or_releases(
    state: DialogState,
    accept: bool,
    has_text: bool,
    error: String,
)
    requires
        answer_refused(state, accept, has_text) is None,
    ensures
        ({
            let id = state.pending->0.id;
            let failed = state_completed(state_answering(state), id, Some(error));
            &&& state_completed(state_answering(state), id, None).pending is None
            &&& failed.pending == state.pending
            &&& failed.last_error == Some(error)
            &&& answer_refused(failed, accept, has_text) is None
        }),
{
}

/// A prompt's text goes with accepting a prompt, and with nothing else.
pub proof fn texts_go_with_accepted_prompts(
    kind: DialogKind,
    accept: bool,
    text: Option<&str>,
    result: Result<(), DialogError>,
)
    requires
        call_ensures(validate_prompt_text, (kind, accept, text), result),
    ensures
        result is Ok <==> text is None || (accept && kind is Prompt),
        result matches Err(error) ==> error is UnexpectedPromptText,
{
}

/// A dialog that opens is pending as it came, under a number of its own, which is also its revision. It waits
/// for an answer exactly if the policy is to be told.
pub proof fn opened_dialogs_are_pending(
    state: DialogState,
    dialog: PendingDialog,
    policy: DialogPolicy,
)
    requires
        state.next_dialog_id < u64::MAX,
    ensures
        ({
            let after = state_opened(state, state.generation, dialog, policy);
            &&& after.pending is Some
            &&& after.pending->0.id == state.next_dialog_id + 1
            &&& after.next_dialog_id == state.next_dialog_id + 1
            &&& after.pending->0.metadata.opening_revision == after.pending->0.id
            &&& after.pending->0.metadata.kind == dialog.kind
            &&& after.pending->0.metadata.message == dialog.message
            &&& after.pending->0.metadata.url == dialog.url
            &&& after.pending->0.metadata.frame_id == dialog.frame_id
            &&& after.pending->0.metadata.default_prompt == dialog.default_prompt
            &&& after.pending->0.metadata.opened_at_ms == dialog.opened_at_ms
            &&& (after.pending->0.handling <==> policy is Accept || policy is Dismiss)
            &&& after.last_error is None
            &&& after.bound == state.bound && after.generation == state.generation
        }),
{
}

/// A dialog that closes is no longer pending, if it is the one of its frame.
pub proof fn closed_dialogs_are_no_longer_pending(
    state: DialogState,
    dialog: PendingDialog,
    policy: DialogPolicy,
    frame: Seq<char>,
)
    ensures
        ({
            let open = state_opened(state, state.generation, dialog, policy);
            &&& frame == dialog.frame_id@ ==> state_closed(open, state.generation, frame).pending
                is None
            &&& frame != dialog.frame_id@ ==> state_closed(open, state.generation, frame) == open
        }),
{
}

/// An answer is refused where no page is bound, where nothing is pending, and while another answer is given, in
/// this order.
pub proof fn answers_are_refused_in_order(state: DialogState, accept: bool)
    ensures
        !state.bound <==> answer_refused(state, accept, false) == Some(DialogError::Unbound),
        state.bound && state.pending is None <==> answer_refused(state, accept, false) == Some(
            DialogError::NothingPending,
        ),
        state.bound && state.pending is Some && state.pending->0.handling <==> answer_refused(
            state,
            accept,
            false,
        ) == Some(DialogError::AlreadyAnswered),
        state.bound && state.pending is Some && !state.pending->0.handling <==> answer_refused(
            state,
            accept,
            false,
        ) is None,
        state.bound && state.pending is Some && !state.pending->0.handling && !(
        state.pending->0.metadata.kind is Prompt) ==> answer_refused(state, accept, true) == Some(
            DialogError::UnexpectedPromptText,
        ),
{
}

/// An answer to another dialog than the pending one changes nothing.
pub proof fn late_answers_change_nothing(state: DialogState, id: u64, error: Option<String>)
    ensures
        state.pending is None || state.pending->0.id != id ==> state_completed(state, id, error)
            == state,
{
}

/// What is told of a pending dialog is what is known of it, each under its name.
pub proof fn pending_dialogs_are_told(dialog: PendingDialog, value: JsonValue)
    requires
        call_ensures(PendingDialog::to_json, (&dialog,), value),
    ensures
        value@ matches Json::Record(fields) && {
            &&& field_of(fields, "message"@) == Some(Json::Text(dialog.message@))
            &&& field_of(fields, "url"@) == Some(Json::Text(dialog.url@))
            &&& field_of(fields, "type"@) == Some(
                Json::Text(
                    match dialog.kind {
                        DialogKind::Alert => "alert"@,
                        DialogKind::Confirm => "confirm"@,
                        DialogKind::Prompt => "prompt"@,
                        DialogKind::BeforeUnload => "before_unload"@,
                    },
                ),
            )
            &&& field_of(fields, "has_browser_handler"@) == Some(
                Json::Bool(dialog.has_browser_handler),
            )
            &&& field_of(fields, "opened_at_ms"@) == Some(
                Json::Integer(dialog.opened_at_ms as int),
            )
            &&& field_of(fields, "opening_revision"@) == Some(
                Json::Integer(dialog.opening_revision as int),
            )
            &&& (dialog.default_prompt matches Some(prompt) ==> field_of(fields, "default_prompt"@)
                == Some(Json::Text(prompt@)))
        },
{
    let fields = dialog_fields(dialog);
    reveal_strlit("type");
    reveal_strlit("message");
    reveal_strlit("url");
    reveal_strlit("has_browser_handler");
    reveal_strlit("opened_at_ms");
    reveal_strlit("opening_revision");
    reveal_strlit("default_prompt");
    assert("type"@.len() == 4 && "message"@.len() == 7 && "url"@.len() == 3);
    assert("has_browser_handler"@.len() == 19 && "opened_at_ms"@.len() == 12);
    assert("opening_revision"@.len() == 16 && "default_prompt"@.len() == 14);
    gathered_keeps_last(fields, 0);
    gathered_keeps_last(fields, 1);
    gathered_keeps_last(fields, 2);
    gathered_keeps_last(fields, 3);
    gathered_keeps_last(fields, 4);
    gathered_keeps_last(fields, 5);
    if dialog.default_prompt is Some {
        gathered_keeps_last(fields, 6);
    }
}

/// A new listener is bound to no page and knows of no dialog. Binding one forgets what was pending, and so does
/// unbinding it; each makes what comes from before stale.
pub proof fn binding_starts_afresh(
    fresh: DialogState,
    bound: &mut DialogState,
    generation: u64,
    unbound: &mut DialogState,
)
    requires
        call_ensures(DialogState::new, (), fresh),
        call_ensures(DialogState::bind, (bound,), generation),
        call_ensures(DialogState::unbind, (unbound,), ()),
    ensures
        !fresh.bound && fresh.pending is None && fresh.last_error is None,
        final(bound).bound && final(bound).pending is None && final(bound).last_error is None,
        final(bound).generation == generation && generation != old(bound).generation,
        final(bound).next_dialog_id == old(bound).next_dialog_id,
        !final(unbound).bound && final(unbound).pending is None,
        final(unbound).generation != old(unbound).generation,
        final(unbound).last_error == old(unbound).last_error,
{
}

/// A listener is unbound from the page that it was bound to then, and from no later one.
pub proof fn late_unbinding_changes_nothing(state: &mut DialogState, generation: u64)
    requires
        call_ensures(DialogState::unbind_if, (state, generation), ()),
    ensures
        generation != old(state).generation ==> *final(state) == *old(state),
        generation == old(state).generation ==> !final(state).bound && final(state).pending is None,
{
}

/// A dialog that opens is answered at once exactly if the policy says how: accepted or dismissed, with an empty
/// text for a prompt that is accepted.
pub proof fn policies_answer_dialogs(
    state: &mut DialogState,
    generation: u64,
    dialog: PendingDialog,
    policy: DialogPolicy,
    answer: Option<DialogAnswer>,
)
    requires
        call_ensures(DialogState::opened, (state, generation, dialog, policy), answer),
    ensures
        answer is Some <==> generation == old(state).generation && !(policy is Explicit),
        answer is Some ==> {
            &&& (answer->0.accept <==> policy is Accept)
            &&& final(state).pending is Some && answer->0.id == final(state).pending->0.id
            &&& (answer->0.prompt_text is Some <==> policy is Accept && dialog.kind is Prompt)
            &&& (answer->0.prompt_text is Some ==> answer->0.prompt_text->0@.len() == 0)
        },
        generation != old(state).generation ==> *final(state) == *old(state),
        generation == old(state).generation ==> final(state).pending is Some
            && final(state).pending->0.metadata.kind == dialog.kind
            && final(state).pending->0.metadata.message == dialog.message,
{
}

/// An answer that is given goes to the pending dialog, as it was given; a refused one changes nothing.
pub proof fn answers_go_to_the_pending_dialog(
    state: &mut DialogState,
    accept: bool,
    text: Option<&str>,
    result: Result<DialogAnswer, DialogError>,
)
    requires
        call_ensures(DialogState::begin_response, (state, accept, text), result),
    ensures
        result is Err ==> *final(state) == *old(state),
        result matches Ok(answer) ==> {
            &&& old(state).bound && old(state).pending is Some && !old(state).pending->0.handling
            &&& answer.id == old(state).pending->0.id
            &&& answer.accept == accept
            &&& (answer.prompt_text is Some <==> text is Some)
            &&& (text is Some ==> answer.prompt_text->0@ == text->0@)
            &&& final(state).pending is Some && final(state).pending->0.handling
            &&& final(state).pending->0.id == old(state).pending->0.id
            &&& final(state).pending->0.metadata == old(state).pending->0.metadata
        },
        old(state).bound && old(state).pending is Some && !old(state).pending->0.handling && text
            is None ==> result is Ok,
{
}

/// What went wrong is told once.
pub proof fn errors_are_taken_once(state: &mut DialogState, error: Option<String>)
    requires
        call_ensures(DialogState::take_error, (state,), error),
    ensures
        error == old(state).last_error,
        final(state).last_error is None,
        final(state).pending == old(state).pending && final(state).bound == old(state).bound,
{
}

} // verus!
