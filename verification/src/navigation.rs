//! Navigation: opening an address, going back, and choosing another page. Waiting is laid out as
//! machines from state and event to state and action; times are in nanoseconds.

use crate::flow::PageSwitch;
use crate::report::FailureCategory;
use crate::step_error::{deadline_error, plain_error, protocol, StepError};
use crate::text::{quote, quoted, same_text};
use vstd::prelude::*;
use vstd::string::*;

verus! {

/// How long before the step's deadline an opened page must have settled.
pub const OPEN_SETTLE_DEADLINE_SLACK: u128 = 50_000_000;

/// The time by which an opened page must settle, where enough of it is left.
pub open spec fn settle_time(now: u128, deadline: u128) -> Option<u128> {
    if now < deadline && deadline - OPEN_SETTLE_DEADLINE_SLACK > now {
        Some((deadline - OPEN_SETTLE_DEADLINE_SLACK) as u128)
    } else {
        None
    }
}

/// The time by which an opened page must settle, where enough of it is left.
pub fn open_phase_deadline(now: u128, deadline: u128) -> (by: Option<u128>)
    ensures
        by == settle_time(now, deadline),
{
    if now >= deadline {
        return None;
    }
    match deadline.checked_sub(OPEN_SETTLE_DEADLINE_SLACK) {
        Some(early) => if early > now {
            Some(early)
        } else {
            None
        },
        None => None,
    }
}

/// The failure of a navigation that left no time to settle.
pub fn open_settle_budget_error() -> (error: StepError)
    ensures
        deadline_error(
            error,
            FailureCategory::Timeout,
            "navigation completed without enough remaining time for the open settle condition"@,
            None,
        ),
{
    StepError::new(
        FailureCategory::Timeout,
        "navigation completed without enough remaining time for the open settle condition",
    ).deadline()
}

/// The time by which an opened page must settle.
pub fn prepare_open_settle(now: u128, deadline: u128) -> (result: Result<u128, StepError>)
    ensures
        match result {
            Ok(by) => settle_time(now, deadline) == Some(by),
            Err(error) => settle_time(now, deadline) is None && deadline_error(
                error,
                FailureCategory::Timeout,
                "navigation completed without enough remaining time for the open settle condition"@,
                None,
            ),
        },
{
    match open_phase_deadline(now, deadline) {
        Some(by) => Ok(by),
        None => Err(open_settle_budget_error()),
    }
}

/// An error of the browser protocol, and whether it may pass by itself.
#[derive(Debug)]
pub struct Trouble {
    pub message: String,
    pub retryable: bool,
}

/// Why a navigation failed.
#[derive(Debug)]
pub enum NavigationFault {
    Told(FailureCategory, String),
    Download,
    WrongFrame,
    Expired,
    BackExpired,
    Step(StepError),
}

/// Whether an error stands for a failed navigation.
pub open spec fn is_navigation_error(error: StepError, fault: NavigationFault) -> bool {
    match fault {
        NavigationFault::Told(category, message) => plain_error(error, category, message@),
        NavigationFault::Download => plain_error(
            error,
            FailureCategory::Navigation,
            "navigation resulted in a download"@,
        ),
        NavigationFault::WrongFrame => plain_error(
            error,
            FailureCategory::Protocol,
            "navigation completed for an unexpected frame"@,
        ),
        NavigationFault::Expired => deadline_error(
            error,
            FailureCategory::Timeout,
            "navigation deadline expired"@,
            None,
        ),
        NavigationFault::BackExpired => deadline_error(
            error,
            FailureCategory::Timeout,
            "back navigation deadline expired"@,
            None,
        ),
        NavigationFault::Step(cause) => error == cause,
    }
}

/// The error that stands for a failed navigation.
pub fn navigation_error(fault: NavigationFault) -> (error: StepError)
    ensures
        is_navigation_error(error, fault),
{
    match fault {
        NavigationFault::Told(category, message) => StepError::new(category, message.as_str()),
        NavigationFault::Download => StepError::new(
            FailureCategory::Navigation,
            "navigation resulted in a download",
        ),
        NavigationFault::WrongFrame => protocol("navigation completed for an unexpected frame"),
        NavigationFault::Expired => StepError::new(
            FailureCategory::Timeout,
            "navigation deadline expired",
        ).deadline(),
        NavigationFault::BackExpired => StepError::new(
            FailureCategory::Timeout,
            "back navigation deadline expired",
        ).deadline(),
        NavigationFault::Step(error) => error,
    }
}

/// What happened while an address was opened. `expired` says whether the deadline has passed.
#[derive(Debug)]
pub enum NavigationEvent {
    Replied { error_text: Option<String>, is_download: bool, frame_id: String },
    CommandFailed(Trouble),
    Ticked,
    UrlRead { url: String, expired: bool },
    UrlFailed { trouble: Trouble, expired: bool },
    StateRead { state: String, expired: bool },
    StateFailed { error: StepError, retryable: bool, expired: bool },
    Slept,
}

/// What to do next while an address is opened.
#[derive(Debug)]
pub enum NavigationAction {
    Ignore,
    AwaitCommand,
    ReadUrl,
    ReadState,
    Sleep,
    Done,
    Fail(NavigationFault),
}

/// What an open navigation waits for.
#[derive(Debug, Clone, Copy, PartialEq, Eq, Structural)]
pub enum NavigationStage {
    Commanding,
    ReadingUrl,
    ReadingState,
    Sleeping,
    Over,
}

/// An address that is being opened, in the page or in a frame.
#[derive(Debug)]
pub struct Navigation {
    pub previous_url: String,
    pub frame: Option<String>,
    pub completed: bool,
    pub stage: NavigationStage,
}

/// A navigation that waits for something else.
pub open spec fn navigation_at(
    navigation: Navigation,
    stage: NavigationStage,
    action: NavigationAction,
) -> (Navigation, NavigationAction) {
    (Navigation { stage, ..navigation }, action)
}

fn go(
    navigation: Navigation,
    stage: NavigationStage,
    action: NavigationAction,
) -> (next: (Navigation, NavigationAction))
    ensures
        next == navigation_at(navigation, stage, action),
{
    (Navigation { stage, ..navigation }, action)
}

/// A navigation that failed.
pub open spec fn navigation_failed(
    navigation: Navigation,
    fault: NavigationFault,
) -> (Navigation, NavigationAction) {
    navigation_at(navigation, NavigationStage::Over, NavigationAction::Fail(fault))
}

fn fail(navigation: Navigation, fault: NavigationFault) -> (next: (Navigation, NavigationAction))
    ensures
        next == navigation_failed(navigation, fault),
{
    go(navigation, NavigationStage::Over, NavigationAction::Fail(fault))
}

/// The next look: at the command while it runs, else at the address.
pub open spec fn navigation_resumed(navigation: Navigation) -> (Navigation, NavigationAction) {
    if navigation.completed {
        navigation_at(navigation, NavigationStage::ReadingUrl, NavigationAction::ReadUrl)
    } else {
        navigation_at(navigation, NavigationStage::Commanding, NavigationAction::AwaitCommand)
    }
}

fn resume(navigation: Navigation) -> (next: (Navigation, NavigationAction))
    ensures
        next == navigation_resumed(navigation),
{
    if navigation.completed {
        go(navigation, NavigationStage::ReadingUrl, NavigationAction::ReadUrl)
    } else {
        go(navigation, NavigationStage::Commanding, NavigationAction::AwaitCommand)
    }
}

/// A pause before the next look, unless the deadline has passed.
pub open spec fn navigation_paused(
    navigation: Navigation,
    expired: bool,
) -> (Navigation, NavigationAction) {
    if expired {
        navigation_failed(navigation, NavigationFault::Expired)
    } else {
        navigation_at(navigation, NavigationStage::Sleeping, NavigationAction::Sleep)
    }
}

fn pause(navigation: Navigation, expired: bool) -> (next: (Navigation, NavigationAction))
    ensures
        next == navigation_paused(navigation, expired),
{
    if expired {
        fail(navigation, NavigationFault::Expired)
    } else {
        go(navigation, NavigationStage::Sleeping, NavigationAction::Sleep)
    }
}

/// What the reply to the command leads to.
pub open spec fn reply_taken(
    navigation: Navigation,
    error_text: Option<String>,
    is_download: bool,
    frame_id: String,
) -> (Navigation, NavigationAction) {
    match error_text {
        Some(error) => navigation_failed(
            navigation,
            NavigationFault::Told(FailureCategory::Navigation, error),
        ),
        None => {
            let elsewhere = match navigation.frame {
                Some(frame) => !(frame_id@ == frame@),
                None => false,
            };
            if is_download {
                navigation_failed(navigation, NavigationFault::Download)
            } else if elsewhere {
                navigation_failed(navigation, NavigationFault::WrongFrame)
            } else {
                navigation_at(
                    Navigation { completed: true, ..navigation },
                    NavigationStage::ReadingUrl,
                    NavigationAction::ReadUrl,
                )
            }
        },
    }
}

fn take_reply(
    navigation: Navigation,
    error_text: Option<String>,
    is_download: bool,
    frame_id: String,
) -> (next: (Navigation, NavigationAction))
    ensures
        next == reply_taken(navigation, error_text, is_download, frame_id),
{
    match error_text {
        Some(error) => fail(
            navigation,
            NavigationFault::Told(FailureCategory::Navigation, error),
        ),
        None => {
            let elsewhere = match &navigation.frame {
                Some(frame) => !(same_text(frame_id.as_str(), frame.as_str())),
                None => false,
            };
            if is_download {
                fail(navigation, NavigationFault::Download)
            } else if elsewhere {
                fail(navigation, NavigationFault::WrongFrame)
            } else {
                go(
                    Navigation { completed: true, ..navigation },
                    NavigationStage::ReadingUrl,
                    NavigationAction::ReadUrl,
                )
            }
        },
    }
}

/// The state and action that follow an event. An event that does not fit the stage is ignored.
pub open spec fn navigation_step(
    navigation: Navigation,
    event: NavigationEvent,
) -> (Navigation, NavigationAction) {
    match (navigation.stage, event) {
        (
            NavigationStage::Commanding,
            NavigationEvent::Replied { error_text, is_download, frame_id },
        ) => reply_taken(navigation, error_text, is_download, frame_id),
        (NavigationStage::Commanding, NavigationEvent::CommandFailed(trouble)) => {
            if navigation.frame is Some && trouble.retryable {
                navigation_at(
                    Navigation { completed: true, ..navigation },
                    NavigationStage::ReadingUrl,
                    NavigationAction::ReadUrl,
                )
            } else {
                navigation_failed(
                    navigation,
                    NavigationFault::Told(FailureCategory::Navigation, trouble.message),
                )
            }
        },
        (NavigationStage::Commanding, NavigationEvent::Ticked) => navigation_at(
            navigation,
            NavigationStage::ReadingUrl,
            NavigationAction::ReadUrl,
        ),
        (NavigationStage::ReadingUrl, NavigationEvent::UrlRead { url, expired }) => {
            let moved = navigation.completed || !(url@ == navigation.previous_url@);
            if moved {
                navigation_at(navigation, NavigationStage::ReadingState, NavigationAction::ReadState)
            } else {
                navigation_paused(navigation, expired)
            }
        },
        (NavigationStage::ReadingUrl, NavigationEvent::UrlFailed { trouble, expired }) => {
            if trouble.retryable {
                navigation_paused(navigation, expired)
            } else {
                navigation_failed(
                    navigation,
                    NavigationFault::Told(FailureCategory::Protocol, trouble.message),
                )
            }
        },
        (NavigationStage::ReadingState, NavigationEvent::StateRead { state, expired }) => {
            if state@ == "loading"@ {
                navigation_paused(navigation, expired)
            } else {
                navigation_at(navigation, NavigationStage::Over, NavigationAction::Done)
            }
        },
        (
            NavigationStage::ReadingState,
            NavigationEvent::StateFailed { error, retryable, expired },
        ) => {
            if retryable {
                navigation_paused(navigation, expired)
            } else {
                navigation_failed(navigation, NavigationFault::Step(error))
            }
        },
        (NavigationStage::Sleeping, NavigationEvent::Slept) => navigation_resumed(navigation),
        (stage, _) => navigation_at(navigation, stage, NavigationAction::Ignore),
    }
}

impl Navigation {
    /// A navigation whose command was just sent.
    pub fn start(previous_url: String, frame: Option<String>) -> (next: (
        Navigation,
        NavigationAction,
    ))
        ensures
            next.0 == (Navigation {
                previous_url,
                frame,
                completed: false,
                stage: NavigationStage::Commanding,
            }),
            next.1 == NavigationAction::AwaitCommand,
    {
        (
            Navigation { previous_url, frame, completed: false, stage: NavigationStage::Commanding },
            NavigationAction::AwaitCommand,
        )
    }

    /// Takes an event and says what to do next.
    pub fn next(self, event: NavigationEvent) -> (next: (Navigation, NavigationAction))
        ensures
            next == navigation_step(self, event),
    {
        match (self.stage, event) {
            (
                NavigationStage::Commanding,
                NavigationEvent::Replied { error_text, is_download, frame_id },
            ) => take_reply(self, error_text, is_download, frame_id),
            (NavigationStage::Commanding, NavigationEvent::CommandFailed(trouble)) => {
                if self.frame.is_some() && trouble.retryable {
                    go(
                        Navigation { completed: true, ..self },
                        NavigationStage::ReadingUrl,
                        NavigationAction::ReadUrl,
                    )
                } else {
                    fail(
                        self,
                        NavigationFault::Told(FailureCategory::Navigation, trouble.message),
                    )
                }
            },
            (NavigationStage::Commanding, NavigationEvent::Ticked) => go(
                self,
                NavigationStage::ReadingUrl,
                NavigationAction::ReadUrl,
            ),
            (NavigationStage::ReadingUrl, NavigationEvent::UrlRead { url, expired }) => {
                let moved = self.completed || !(same_text(url.as_str(), self.previous_url.as_str()));
                if moved {
                    go(self, NavigationStage::ReadingState, NavigationAction::ReadState)
                } else {
                    pause(self, expired)
                }
            },
            (NavigationStage::ReadingUrl, NavigationEvent::UrlFailed { trouble, expired }) => {
                if trouble.retryable {
                    pause(self, expired)
                } else {
                    fail(
                        self,
                        NavigationFault::Told(FailureCategory::Protocol, trouble.message),
                    )
                }
            },
            (NavigationStage::ReadingState, NavigationEvent::StateRead { state, expired }) => {
                if same_text(state.as_str(), "loading") {
                    pause(self, expired)
                } else {
                    go(self, NavigationStage::Over, NavigationAction::Done)
                }
            },
            (
                NavigationStage::ReadingState,
                NavigationEvent::StateFailed { error, retryable, expired },
            ) => {
                if retryable {
                    pause(self, expired)
                } else {
                    fail(self, NavigationFault::Step(error))
                }
            },
            (NavigationStage::Sleeping, NavigationEvent::Slept) => resume(self),
            (stage, _) => go(self, stage, NavigationAction::Ignore),
        }
    }
}

/// What was seen while the browser went back.
#[derive(Debug)]
pub enum BackEvent {
    HistoryRead { index: i64, expired: bool },
    HistoryFailed { trouble: Trouble, expired: bool },
    StateRead { ready: bool, expired: bool },
    StateFailed { trouble: Trouble, expired: bool },
}

/// What to do next while the browser goes back. After a pause the history is read again.
#[derive(Debug)]
pub enum BackAction {
    ReadState,
    Sleep,
    Done,
    Fail(NavigationFault),
}

/// A pause, unless the deadline has passed.
pub open spec fn back_waits(expired: bool) -> BackAction {
    if expired {
        BackAction::Fail(NavigationFault::BackExpired)
    } else {
        BackAction::Sleep
    }
}

fn wait(expired: bool) -> (action: BackAction)
    ensures
        action == back_waits(expired),
{
    if expired {
        BackAction::Fail(NavigationFault::BackExpired)
    } else {
        BackAction::Sleep
    }
}

/// What follows while the browser goes back to the entry `wanted`.
pub open spec fn back_step(wanted: i64, event: BackEvent) -> BackAction {
    match event {
        BackEvent::HistoryRead { index, expired } => if index == wanted {
            BackAction::ReadState
        } else {
            back_waits(expired)
        },
        BackEvent::HistoryFailed { trouble, expired } => if trouble.retryable {
            back_waits(expired)
        } else {
            BackAction::Fail(NavigationFault::Told(FailureCategory::Protocol, trouble.message))
        },
        BackEvent::StateRead { ready, expired } => if ready {
            BackAction::Done
        } else {
            back_waits(expired)
        },
        BackEvent::StateFailed { trouble, expired } => if trouble.retryable {
            back_waits(expired)
        } else {
            BackAction::Fail(NavigationFault::Told(FailureCategory::Protocol, trouble.message))
        },
    }
}

/// Says what to do next while the browser goes back to the entry `wanted`.
pub fn go_back(wanted: i64, event: BackEvent) -> (action: BackAction)
    ensures
        action == back_step(wanted, event),
{
    match event {
        BackEvent::HistoryRead { index, expired } => if index == wanted {
            BackAction::ReadState
        } else {
            wait(expired)
        },
        BackEvent::HistoryFailed { trouble, expired } => if trouble.retryable {
            wait(expired)
        } else {
            BackAction::Fail(NavigationFault::Told(FailureCategory::Protocol, trouble.message))
        },
        BackEvent::StateRead { ready, expired } => if ready {
            BackAction::Done
        } else {
            wait(expired)
        },
        BackEvent::StateFailed { trouble, expired } => if trouble.retryable {
            wait(expired)
        } else {
            BackAction::Fail(NavigationFault::Told(FailureCategory::Protocol, trouble.message))
        },
    }
}

/// The entry of the history to go back to.
pub fn history_entry(entries: &Vec<i64>, index: i64) -> (result: Result<i64, StepError>)
    ensures
        match result {
            Ok(id) => 0 <= index < entries@.len() && id == entries@[index as int],
            Err(error) => !(0 <= index < entries@.len()) && plain_error(
                error,
                FailureCategory::Protocol,
                "Chromium navigation history omitted the previous entry"@,
            ),
        },
{
    if index >= 0 && (index as u64) < entries.len() as u64 {
        return Ok(entries[index as usize]);
    }
    Err(protocol("Chromium navigation history omitted the previous entry"))
}

/// A browser target.
#[derive(Debug)]
pub struct TargetFacts {
    pub id: String,
    pub kind: String,
    pub context: Option<String>,
}

/// Whether a target is a page of a browser context.
pub open spec fn is_page_of(target: TargetFacts, page: Seq<char>, context: Seq<char>) -> bool {
    &&& target.id@ == page
    &&& target.kind@ == "page"@
    &&& target.context is Some
    &&& target.context->0@ == context
}

/// Whether a page belongs to a browser context.
pub open spec fn in_context(
    targets: Seq<TargetFacts>,
    page: Seq<char>,
    context: Seq<char>,
) -> bool {
    exists|i: int| 0 <= i < targets.len() && is_page_of(#[trigger] targets[i], page, context)
}

/// Whether a page belongs to a browser context.
pub fn page_in_context(targets: &Vec<TargetFacts>, page: &str, context: &str) -> (belongs: bool)
    ensures
        belongs == in_context(targets@, page@, context@),
{
    let mut i: usize = 0;
    while i < targets.len()
        invariant
            i <= targets.len(),
            forall|k: int| 0 <= k < i ==> !is_page_of(#[trigger] targets@[k], page@, context@),
        decreases targets.len() - i,
    {
        let target = &targets[i];
        if let Some(held) = &target.context {
            if same_text(target.id.as_str(), page) && same_text(target.kind.as_str(), "page")
                && same_text(held.as_str(), context) {
                return true;
            }
        }
        i += 1;
    }
    false
}

/// A page among which a switch chooses. What a switch does not ask for may be left out.
#[derive(Debug)]
pub struct PageFacts {
    pub opener: Option<String>,
    pub name: String,
    pub url: Option<String>,
}

/// Whether a page is one that a switch asks for. `active` is the active page's identifier.
pub open spec fn page_wanted(destination: PageSwitch, page: PageFacts, active: Seq<char>) -> bool {
    match destination {
        PageSwitch::Popup => page.opener is Some && page.opener->0@ == active,
        PageSwitch::Name(name) => page.name@ == name.value@,
        PageSwitch::Url(url) => page.url is Some && page.url->0@ == url.value@,
        PageSwitch::Opener => false,
    }
}

/// Whether a page is one that a switch asks for.
pub fn page_matches(destination: &PageSwitch, page: &PageFacts, active: &str) -> (matches: bool)
    ensures
        matches == page_wanted(*destination, *page, active@),
{
    match destination {
        PageSwitch::Popup => match &page.opener {
            Some(opener) => same_text(opener.as_str(), active),
            None => false,
        },
        PageSwitch::Name(name) => same_text(page.name.as_str(), name.value.as_str()),
        PageSwitch::Url(url) => match &page.url {
            Some(held) => same_text(held.as_str(), url.value.as_str()),
            None => false,
        },
        PageSwitch::Opener => false,
    }
}

/// What the search for a page comes to.
#[derive(Debug)]
pub enum PageChoice {
    Switch(usize),
    Wait,
    Fail(StepError),
}

/// What is told where several pages match.
pub open spec fn ambiguous_page(destination: PageSwitch) -> Seq<char> {
    match destination {
        PageSwitch::Name(name) => "multiple pages match switch_page name "@ + quoted(name.value@),
        PageSwitch::Url(url) => "multiple pages match switch_page URL "@ + quoted(url.value@),
        _ => "active page has multiple popup pages"@,
    }
}

/// What is told where no page matches in time.
pub open spec fn missing_page(destination: PageSwitch) -> Seq<char> {
    match destination {
        PageSwitch::Name(name) => "no page named "@ + quoted(name.value@)
            + " appeared before the step deadline"@,
        PageSwitch::Url(url) => "no page with URL "@ + quoted(url.value@)
            + " appeared before the step deadline"@,
        _ => "popup did not open before the step deadline"@,
    }
}

fn told(before: &str, value: &str, after: &str) -> (text: String)
    ensures
        text@ == before@ + quoted(value@) + after@,
{
    let mut text = before.to_owned();
    let shown = quote(value);
    text.append(shown.as_str());
    text.append(after);
    text
}

/// Chooses the page to switch to among those that match: there must be exactly one, by the
/// deadline.
pub fn choose_page(destination: &PageSwitch, candidates: &Vec<usize>, expired: bool) -> (choice:
    PageChoice)
    ensures
        match choice {
            PageChoice::Switch(page) => candidates@ == seq![page],
            PageChoice::Wait => candidates@.len() == 0 && !expired,
            PageChoice::Fail(error) => {
                ||| candidates@.len() > 1 && plain_error(
                    error,
                    FailureCategory::Navigation,
                    ambiguous_page(*destination),
                )
                ||| candidates@.len() == 0 && expired && deadline_error(
                    error,
                    FailureCategory::Timeout,
                    missing_page(*destination),
                    None,
                )
            },
        },
{
    if candidates.len() == 1 {
        assert(candidates@ == seq![candidates@[0]]);
        return PageChoice::Switch(candidates[0]);
    }
    if candidates.len() > 1 {
        let message = match destination {
            PageSwitch::Name(name) => told(
                "multiple pages match switch_page name ",
                name.value.as_str(),
                "",
            ),
            PageSwitch::Url(url) => told(
                "multiple pages match switch_page URL ",
                url.value.as_str(),
                "",
            ),
            _ => "active page has multiple popup pages".to_owned(),
        };
        proof {
            reveal_strlit("");
            assert(message@ == ambiguous_page(*destination));
        }
        return PageChoice::Fail(StepError::new(FailureCategory::Navigation, message.as_str()));
    }
    if !expired {
        return PageChoice::Wait;
    }
    let message = match destination {
        PageSwitch::Name(name) => told(
            "no page named ",
            name.value.as_str(),
            " appeared before the step deadline",
        ),
        PageSwitch::Url(url) => told(
            "no page with URL ",
            url.value.as_str(),
            " appeared before the step deadline",
        ),
        _ => "popup did not open before the step deadline".to_owned(),
    };
    PageChoice::Fail(StepError::new(FailureCategory::Timeout, message.as_str()).deadline())
}

/// The page that opened the active one.
pub fn opener_page(opener: Option<String>) -> (result: Result<String, StepError>)
    ensures
        match opener {
            Some(page) => result == Ok::<String, StepError>(page),
            None => result matches Err(error) && plain_error(
                error,
                FailureCategory::Navigation,
                "active page has no opener"@,
            ),
        },
{
    match opener {
        Some(page) => Ok(page),
        None => Err(StepError::new(FailureCategory::Navigation, "active page has no opener")),
    }
}

/// A navigation is over only when the page has left the loading state, or with a failure; no event
/// brings one that is over back.
pub proof fn navigation_ends_when_loaded(navigation: Navigation, event: NavigationEvent)
    ensures
        ({
            let (after, action) = navigation_step(navigation, event);
            &&& action is Done ==> after.stage == NavigationStage::Over && (event matches
                NavigationEvent::StateRead { state, .. } && state@ != "loading"@)
            &&& action is Fail ==> after.stage == NavigationStage::Over
            &&& navigation.stage == NavigationStage::Over ==> action is Ignore && after
                == navigation
            &&& navigation.completed ==> after.completed
        }),
{
}

/// The time to settle ends before the deadline, by the slack, and lies ahead.
pub proof fn settling_leaves_slack(now: u128, deadline: u128)
    ensures
        settle_time(now, deadline) matches Some(by) ==> now < by && by
            + OPEN_SETTLE_DEADLINE_SLACK == deadline,
        settle_time(now, deadline) is None <==> now + OPEN_SETTLE_DEADLINE_SLACK >= deadline,
{
}

/// What a command's reply leads to: an error text, a download and a reply for another frame each end the
/// navigation with their own error, an error text before all else. Any other reply completes the command, and
/// the address is read next.
pub proof fn replies_complete_the_command(
    navigation: Navigation,
    error_text: Option<String>,
    is_download: bool,
    frame_id: String,
    next: (Navigation, NavigationAction),
)
    requires
        navigation.stage is Commanding,
        call_ensures(
            Navigation::next,
            (navigation, NavigationEvent::Replied { error_text, is_download, frame_id }),
            next,
        ),
    ensures
        ({
            let wrong = navigation.frame is Some && navigation.frame->0@ != frame_id@;
            &&& error_text is Some ==> next.1 == NavigationAction::Fail(
                NavigationFault::Told(FailureCategory::Navigation, error_text->0),
            )
            &&& error_text is None && is_download ==> next.1 == NavigationAction::Fail(
                NavigationFault::Download,
            )
            &&& error_text is None && !is_download && wrong ==> next.1 == NavigationAction::Fail(
                NavigationFault::WrongFrame,
            )
            &&& error_text is None && !is_download && !wrong ==> next.1 is ReadUrl && next.0.completed
                && next.0.stage is ReadingUrl
            &&& next.0.previous_url == navigation.previous_url && next.0.frame == navigation.frame
        }),
{
}

/// A command that fails ends the navigation with its message, but where a frame navigates and the failure is
/// passing: then it counts as completed. While the command runs, the address is looked at now and again.
pub proof fn only_passing_failures_in_frames_complete_the_command(
    navigation: Navigation,
    trouble: Trouble,
    failed: (Navigation, NavigationAction),
    ticked: (Navigation, NavigationAction),
)
    requires
        navigation.stage is Commanding,
        call_ensures(
            Navigation::next,
            (navigation, NavigationEvent::CommandFailed(trouble)),
            failed,
        ),
        call_ensures(Navigation::next, (navigation, NavigationEvent::Ticked), ticked),
    ensures
        navigation.frame is Some && trouble.retryable ==> failed.1 is ReadUrl && failed.0.completed,
        navigation.frame is None || !trouble.retryable ==> failed.1 == NavigationAction::Fail(
            NavigationFault::Told(FailureCategory::Navigation, trouble.message),
        ),
        ticked.1 is ReadUrl && ticked.0.stage is ReadingUrl,
        ticked.0.completed == navigation.completed,
{
}

/// The document's state is read once the command completed or the address is another than before. The
/// navigation is done exactly if that state is anything but loading. Else it sleeps, or expires where its time
/// is up.
pub proof fn navigations_wait_until_loaded(
    navigation: Navigation,
    url: String,
    state: String,
    expired: bool,
    after_url: (Navigation, NavigationAction),
    after_state: (Navigation, NavigationAction),
)
    requires
        call_ensures(
            Navigation::next,
            (
                Navigation { stage: NavigationStage::ReadingUrl, ..navigation },
                NavigationEvent::UrlRead { url, expired },
            ),
            after_url,
        ),
        call_ensures(
            Navigation::next,
            (
                Navigation { stage: NavigationStage::ReadingState, ..navigation },
                NavigationEvent::StateRead { state, expired },
            ),
            after_state,
        ),
    ensures
        ({
            let moved = navigation.completed || url@ != navigation.previous_url@;
            &&& moved <==> after_url.1 is ReadState
            &&& !moved && !expired <==> after_url.1 is Sleep
            &&& !moved && expired <==> after_url.1 == NavigationAction::Fail(
                NavigationFault::Expired,
            )
        }),
        state@ != "loading"@ <==> after_state.1 is Done,
        state@ == "loading"@ && !expired <==> after_state.1 is Sleep,
        state@ == "loading"@ && expired <==> after_state.1 == NavigationAction::Fail(
            NavigationFault::Expired,
        ),
        after_url.0.completed == navigation.completed,
        after_state.0.completed == navigation.completed,
{
}

/// A failure to read the address or the state is looked past while it is passing and time is left; one that is
/// not passing is told as it is.
pub proof fn passing_failures_are_looked_past(
    navigation: Navigation,
    trouble: Trouble,
    error: StepError,
    retryable: bool,
    expired: bool,
    after_url: (Navigation, NavigationAction),
    after_state: (Navigation, NavigationAction),
)
    requires
        call_ensures(
            Navigation::next,
            (
                Navigation { stage: NavigationStage::ReadingUrl, ..navigation },
                NavigationEvent::UrlFailed { trouble, expired },
            ),
            after_url,
        ),
        call_ensures(
            Navigation::next,
            (
                Navigation { stage: NavigationStage::ReadingState, ..navigation },
                NavigationEvent::StateFailed { error, retryable, expired },
            ),
            after_state,
        ),
    ensures
        !trouble.retryable ==> after_url.1 == NavigationAction::Fail(
            NavigationFault::Told(FailureCategory::Protocol, trouble.message),
        ),
        trouble.retryable && expired ==> after_url.1 == NavigationAction::Fail(
            NavigationFault::Expired,
        ),
        trouble.retryable && !expired ==> after_url.1 is Sleep,
        !retryable ==> after_state.1 == NavigationAction::Fail(NavigationFault::Step(error)),
        retryable && expired ==> after_state.1 == NavigationAction::Fail(NavigationFault::Expired),
        retryable && !expired ==> after_state.1 is Sleep,
{
}

/// After a pause a navigation goes on where it was: with the command while that runs, with the address once
/// it completed.
pub proof fn navigations_go_on_after_a_pause(
    previous_url: String,
    frame: Option<String>,
    first: (Navigation, NavigationAction),
    navigation: Navigation,
    next: (Navigation, NavigationAction),
)
    requires
        call_ensures(Navigation::start, (previous_url, frame), first),
        navigation.stage is Sleeping,
        call_ensures(Navigation::next, (navigation, NavigationEvent::Slept), next),
    ensures
        first.1 is AwaitCommand && first.0.stage is Commanding && !first.0.completed,
        first.0.previous_url@ == previous_url@ && first.0.frame == frame,
        navigation.completed ==> next.1 is ReadUrl && next.0.stage is ReadingUrl,
        !navigation.completed ==> next.1 is AwaitCommand && next.0.stage is Commanding,
{
}

/// Only an expired navigation is told as a timeout, and only that counts as a missed deadline, but for an error
/// that is passed on as it is.
pub proof fn expired_navigations_are_timeouts(fault: NavigationFault, error: StepError)
    requires
        call_ensures(navigation_error, (fault,), error),
    ensures
        fault is Expired || fault is BackExpired ==> error.category is Timeout
            && error.deadline_based,
        fault is Download ==> error.category is Navigation && !error.deadline_based,
        fault is WrongFrame ==> error.category is Protocol && !error.deadline_based,
        fault matches NavigationFault::Told(category, message) ==> error.category == category
            && error.message@ == message@ && !error.deadline_based,
        fault matches NavigationFault::Step(cause) ==> error == cause,
{
}

/// Going back is done once the history stands at the wanted entry and its document is ready. Until then it
/// waits while time is left, past failures that are passing.
pub proof fn going_back_waits_for_its_entry(wanted: i64, event: BackEvent, action: BackAction)
    requires
        call_ensures(go_back, (wanted, event), action),
    ensures
        match event {
            BackEvent::HistoryRead { index, expired } => {
                &&& (action is ReadState <==> index == wanted)
                &&& (action is Sleep <==> index != wanted && !expired)
                &&& (action == BackAction::Fail(NavigationFault::BackExpired) <==> index != wanted
                    && expired)
            },
            BackEvent::StateRead { ready, expired } => {
                &&& (action is Done <==> ready)
                &&& (action is Sleep <==> !ready && !expired)
                &&& (action == BackAction::Fail(NavigationFault::BackExpired) <==> !ready
                    && expired)
            },
            BackEvent::HistoryFailed { trouble, expired }
            | BackEvent::StateFailed { trouble, expired } => {
                &&& (action is Sleep <==> trouble.retryable && !expired)
                &&& (trouble.retryable && expired ==> action == BackAction::Fail(
                    NavigationFault::BackExpired,
                ))
                &&& (!trouble.retryable ==> action == BackAction::Fail(
                    NavigationFault::Told(FailureCategory::Protocol, trouble.message),
                ))
            },
        },
{
}

/// An entry of the history is found exactly if the index is one of the history's.
pub proof fn history_entries_are_found_by_index(
    entries: Vec<i64>,
    index: i64,
    result: Result<i64, StepError>,
)
    requires
        call_ensures(history_entry, (&entries, index), result),
    ensures
        0 <= index < entries@.len() ==> result == Ok::<i64, StepError>(entries@[index as int]),
        index < 0 || index >= entries@.len() ==> result is Err && result->Err_0.category
            is Protocol,
{
}

/// A page belongs to a context exactly if one of the targets is that page, of the kind of a page, and in that
/// context.
pub proof fn pages_belong_to_their_context(
    targets: Vec<TargetFacts>,
    page: &str,
    context: &str,
    belongs: bool,
    i: int,
)
    requires
        call_ensures(page_in_context, (&targets, page, context), belongs),
    ensures
        0 <= i < targets@.len() && targets@[i].id@ == page@ && targets@[i].kind@ == "page"@
            && targets@[i].context is Some && targets@[i].context->0@ == context@ ==> belongs,
        belongs ==> exists|k: int|
            0 <= k < targets@.len() && (#[trigger] targets@[k]).id@ == page@ && targets@[k].kind@
                == "page"@ && targets@[k].context is Some && targets@[k].context->0@ == context@,
{
    if 0 <= i < targets@.len() && targets@[i].id@ == page@ && targets@[i].kind@ == "page"@
        && targets@[i].context is Some && targets@[i].context->0@ == context@ {
        assert(is_page_of(targets@[i], page@, context@));
    }
}

/// A page is a match as a popup if the active page opened it, by name if it has that name, and by address if
/// it has that address.
pub proof fn pages_match_by_what_was_asked(
    destination: PageSwitch,
    page: PageFacts,
    active: &str,
    matched: bool,
)
    requires
        call_ensures(page_matches, (&destination, &page, active), matched),
    ensures
        destination is Popup ==> (matched <==> page.opener is Some && page.opener->0@ == active@),
        destination matches PageSwitch::Name(name) ==> (matched <==> page.name@ == name.value@),
        destination matches PageSwitch::Url(url) ==> (matched <==> page.url is Some && page.url->0@
            == url.value@),
{
}

/// The page that alone matches is switched to. With none it is waited for until time is up, which is a timeout;
/// with more than one the switch fails at once.
pub proof fn the_one_matching_page_is_chosen(
    destination: PageSwitch,
    candidates: Vec<usize>,
    expired: bool,
    choice: PageChoice,
)
    requires
        call_ensures(choose_page, (&destination, &candidates, expired), choice),
    ensures
        candidates@.len() == 1 ==> choice == PageChoice::Switch(candidates@[0]),
        candidates@.len() == 0 && !expired ==> choice is Wait,
        candidates@.len() == 0 && expired ==> (choice matches PageChoice::Fail(error)
            && error.category is Timeout && error.deadline_based),
        candidates@.len() > 1 ==> (choice matches PageChoice::Fail(error) && error.category
            is Navigation && !error.deadline_based),
{
}

/// An opened page has fifty milliseconds less than its deadline to settle, or none at all.
pub proof fn fifty_milliseconds_are_left_to_settle(
    now: u128,
    deadline: u128,
    by: Option<u128>,
    prepared: Result<u128, StepError>,
)
    requires
        call_ensures(open_phase_deadline, (now, deadline), by),
        call_ensures(prepare_open_settle, (now, deadline), prepared),
    ensures
        now + 50_000_000 < deadline ==> by is Some && by->0 + 50_000_000 == deadline,
        now + 50_000_000 >= deadline ==> by is None,
        by is Some ==> prepared == Ok::<u128, StepError>(by->0),
        by is None ==> prepared is Err && prepared->Err_0.category is Timeout
            && prepared->Err_0.deadline_based,
{
}

/// A navigation waits for what it asked for; anything else changes nothing.
pub proof fn events_out_of_turn_leave_a_navigation(
    navigation: Navigation,
    event: NavigationEvent,
    next: (Navigation, NavigationAction),
)
    requires
        call_ensures(Navigation::next, (navigation, event), next),
    ensures
        ({
            let awaited = match event {
                NavigationEvent::Replied { .. }
                | NavigationEvent::CommandFailed(_)
                | NavigationEvent::Ticked => navigation.stage is Commanding,
                NavigationEvent::UrlRead { .. } | NavigationEvent::UrlFailed { .. } =>
                navigation.stage is ReadingUrl,
                NavigationEvent::StateRead { .. } | NavigationEvent::StateFailed { .. } =>
                navigation.stage is ReadingState,
                NavigationEvent::Slept => navigation.stage is Sleeping,
            };
            &&& !awaited ==> next.1 is Ignore && next.0 == navigation
            &&& awaited ==> !(next.1 is Ignore)
        }),
{
}

/// The page that opened the active one is switched to, where there is one.
pub proof fn openers_are_switched_to(opener: Option<String>, result: Result<String, StepError>)
    requires
        call_ensures(opener_page, (opener,), result),
    ensures
        result is Ok <==> opener is Some,
        opener is Some ==> result->Ok_0@ == opener->0@,
        result is Err ==> result->Err_0.category is Navigation && !result->Err_0.deadline_based,
{
}

} // verus!
