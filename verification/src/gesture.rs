//! Gestures of the pointer: clicks, swipes and long presses. Each is laid out as a machine from state
//! and event to state and action.

use crate::flow::ViewportPoint;
use crate::report::FailureCategory;
use crate::step_error::{plain_error, StepError};
use crate::text::{decimal, decimal_text, join};
use vstd::prelude::*;
use vstd::string::*;

verus! {

/// What a click waits for.
#[derive(Debug, Clone, Copy, PartialEq, Eq, Structural)]
pub enum ClickStage {
    Moving,
    Pressing,
    Settling,
    Releasing,
    Over,
}

/// So many clicks at one point. Where it settles, the page is drawn between press and release.
#[derive(Debug, Clone, Copy, PartialEq, Eq, Structural)]
pub struct Clicks {
    pub clicks: u32,
    pub settle: bool,
    pub count: u32,
    pub stage: ClickStage,
}

/// What happens during a click.
#[derive(Debug)]
pub enum ClickEvent {
    Done,
    DialogOpened,
    Failed(StepError),
}

/// What a click does next. A press and a release tell how many clicks they make.
#[derive(Debug)]
#[allow(inconsistent_fields)]
pub enum ClickAction {
    Ignore,
    Move,
    Press { count: u32 },
    Settle,
    Release { count: u32 },
    Finish,
    Fail(StepError),
}

/// The next press, or the end.
pub open spec fn pressed_next(clicks: Clicks) -> (Clicks, ClickAction) {
    if clicks.count < clicks.clicks {
        let count: u32 = (clicks.count + 1) as u32;
        (
            Clicks { count, stage: ClickStage::Pressing, ..clicks },
            ClickAction::Press { count },
        )
    } else {
        (Clicks { stage: ClickStage::Over, ..clicks }, ClickAction::Finish)
    }
}

fn press_or_end(clicks: Clicks) -> (next: (Clicks, ClickAction))
    ensures
        next == pressed_next(clicks),
{
    if clicks.count < clicks.clicks {
        let count: u32 = clicks.count + 1;
        (
            Clicks { count, stage: ClickStage::Pressing, ..clicks },
            ClickAction::Press { count },
        )
    } else {
        (Clicks { stage: ClickStage::Over, ..clicks }, ClickAction::Finish)
    }
}

/// What follows an event of a click. A dialog that opens ends it.
pub open spec fn click_step(clicks: Clicks, event: ClickEvent) -> (Clicks, ClickAction) {
    match (clicks.stage, event) {
        (ClickStage::Over, _) => (clicks, ClickAction::Ignore),
        (_, ClickEvent::Failed(error)) => (
            Clicks { stage: ClickStage::Over, ..clicks },
            ClickAction::Fail(error),
        ),
        (ClickStage::Moving, ClickEvent::Done) => pressed_next(clicks),
        (ClickStage::Pressing, ClickEvent::DialogOpened) => (
            Clicks { stage: ClickStage::Over, ..clicks },
            ClickAction::Finish,
        ),
        (ClickStage::Releasing, ClickEvent::DialogOpened) => (
            Clicks { stage: ClickStage::Over, ..clicks },
            ClickAction::Finish,
        ),
        (ClickStage::Pressing, ClickEvent::Done) => if clicks.settle {
            (Clicks { stage: ClickStage::Settling, ..clicks }, ClickAction::Settle)
        } else {
            (
                Clicks { stage: ClickStage::Releasing, ..clicks },
                ClickAction::Release { count: clicks.count },
            )
        },
        (ClickStage::Settling, ClickEvent::Done) => (
            Clicks { stage: ClickStage::Releasing, ..clicks },
            ClickAction::Release { count: clicks.count },
        ),
        (ClickStage::Releasing, ClickEvent::Done) => pressed_next(clicks),
        _ => (clicks, ClickAction::Ignore),
    }
}

fn next_click(clicks: Clicks, event: ClickEvent) -> (next: (Clicks, ClickAction))
    ensures
        next == click_step(clicks, event),
{
    match (clicks.stage, event) {
        (ClickStage::Over, _) => (clicks, ClickAction::Ignore),
        (_, ClickEvent::Failed(error)) => (
            Clicks { stage: ClickStage::Over, ..clicks },
            ClickAction::Fail(error),
        ),
        (ClickStage::Moving, ClickEvent::Done) => press_or_end(clicks),
        (ClickStage::Pressing, ClickEvent::DialogOpened) => (
            Clicks { stage: ClickStage::Over, ..clicks },
            ClickAction::Finish,
        ),
        (ClickStage::Releasing, ClickEvent::DialogOpened) => (
            Clicks { stage: ClickStage::Over, ..clicks },
            ClickAction::Finish,
        ),
        (ClickStage::Pressing, ClickEvent::Done) => if clicks.settle {
            (Clicks { stage: ClickStage::Settling, ..clicks }, ClickAction::Settle)
        } else {
            (
                Clicks { stage: ClickStage::Releasing, ..clicks },
                ClickAction::Release { count: clicks.count },
            )
        },
        (ClickStage::Settling, ClickEvent::Done) => (
            Clicks { stage: ClickStage::Releasing, ..clicks },
            ClickAction::Release { count: clicks.count },
        ),
        (ClickStage::Releasing, ClickEvent::Done) => press_or_end(clicks),
        _ => (clicks, ClickAction::Ignore),
    }
}

impl Clicks {
    /// Begins so many clicks: the pointer is to be moved.
    pub fn start(clicks: u32, settle: bool) -> (next: (Clicks, ClickAction))
        ensures
            next == (
                Clicks { clicks, settle, count: 0, stage: ClickStage::Moving },
                ClickAction::Move,
            ),
    {
        (Clicks { clicks, settle, count: 0, stage: ClickStage::Moving }, ClickAction::Move)
    }

    /// Takes an event.
    pub fn next(self, event: ClickEvent) -> (next: (Clicks, ClickAction))
        ensures
            next == click_step(self, event),
    {
        next_click(self, event)
    }
}

/// No more presses are made than clicks were wanted, each press is told by its number in turn, and a
/// release tells the number of its press.
pub proof fn clicks_are_counted(clicks: Clicks, event: ClickEvent)
    requires
        clicks.count <= clicks.clicks,
    ensures
        ({
            let (after, action) = click_step(clicks, event);
            &&& after.count <= after.clicks
            &&& after.clicks == clicks.clicks
            &&& (action matches ClickAction::Press { count } ==> count == clicks.count + 1
                && after.count == count)
            &&& (action matches ClickAction::Release { count } ==> count == clicks.count
                && after.count == count && (clicks.stage is Pressing || clicks.stage is Settling))
            &&& (action is Finish ==> clicks.count == clicks.clicks || event is DialogOpened)
            &&& (action is Finish || action is Fail ==> after.stage is Over)
        }),
{
}

/// Where a click stands after events.
pub open spec fn clicks_after(clicks: Clicks, events: Seq<ClickEvent>) -> Clicks
    decreases events.len(),
{
    if events.len() == 0 {
        clicks
    } else {
        click_step(clicks_after(clicks, events.drop_last()), events.last()).0
    }
}

/// A click that failed is not tried again: whatever happens later, nothing is pressed, released or
/// moved any more.
pub proof fn failed_clicks_are_not_repeated(
    clicks: Clicks,
    error: StepError,
    later: Seq<ClickEvent>,
    event: ClickEvent,
)
    ensures
        ({
            let (failed, action) = click_step(clicks, ClickEvent::Failed(error));
            &&& (clicks.stage is Over || action == ClickAction::Fail(error))
            &&& click_step(clicks_after(failed, later), event).1 is Ignore
        }),
{
    stays_over(click_step(clicks, ClickEvent::Failed(error)).0, later);
}

proof fn stays_over(clicks: Clicks, events: Seq<ClickEvent>)
    requires
        clicks.stage is Over,
    ensures
        clicks_after(clicks, events).stage is Over,
    decreases events.len(),
{
    if events.len() > 0 {
        stays_over(clicks, events.drop_last());
    }
}

/// What a gesture that holds the pointer waits for.
#[derive(Debug)]
pub enum HoldStage {
    Pressing,
    Holding,
    Moving,
    Releasing(Option<StepError>),
    Over,
}

/// A gesture that holds the pointer: it is pressed, held, moved where that is wanted, and released.
#[derive(Debug)]
pub struct Hold {
    pub moves: bool,
    pub stage: HoldStage,
}

/// What happens during such a gesture: a piece of it is done, or failed.
#[derive(Debug)]
pub enum HoldEvent {
    Done,
    Failed(StepError),
}

/// What such a gesture does next.
#[derive(Debug)]
pub enum HoldAction {
    Ignore,
    Press,
    Wait,
    Move,
    Release,
    Finish,
    Fail(StepError),
}

/// What follows an event of a gesture that holds the pointer. A move that fails is told only after
/// the release.
pub open spec fn hold_step(hold: Hold, event: HoldEvent) -> (Hold, HoldAction) {
    let Hold { moves, stage } = hold;
    match (stage, event) {
        (HoldStage::Pressing, HoldEvent::Done) => (
            Hold { moves, stage: HoldStage::Holding },
            HoldAction::Wait,
        ),
        (HoldStage::Pressing, HoldEvent::Failed(error)) => (
            Hold { moves, stage: HoldStage::Over },
            HoldAction::Fail(error),
        ),
        (HoldStage::Holding, HoldEvent::Done) => if moves {
            (Hold { moves, stage: HoldStage::Moving }, HoldAction::Move)
        } else {
            (Hold { moves, stage: HoldStage::Releasing(None) }, HoldAction::Release)
        },
        (HoldStage::Moving, HoldEvent::Done) => (
            Hold { moves, stage: HoldStage::Releasing(None) },
            HoldAction::Release,
        ),
        (HoldStage::Moving, HoldEvent::Failed(error)) => (
            Hold { moves, stage: HoldStage::Releasing(Some(error)) },
            HoldAction::Release,
        ),
        (HoldStage::Releasing(moved), HoldEvent::Done) => match moved {
            Some(error) => (Hold { moves, stage: HoldStage::Over }, HoldAction::Fail(error)),
            None => (Hold { moves, stage: HoldStage::Over }, HoldAction::Finish),
        },
        (HoldStage::Releasing(moved), HoldEvent::Failed(error)) => match moved {
            Some(first) => (Hold { moves, stage: HoldStage::Over }, HoldAction::Fail(first)),
            None => (Hold { moves, stage: HoldStage::Over }, HoldAction::Fail(error)),
        },
        (stage, _) => (Hold { moves, stage }, HoldAction::Ignore),
    }
}

fn next_hold(hold: Hold, event: HoldEvent) -> (next: (Hold, HoldAction))
    ensures
        next == hold_step(hold, event),
{
    let Hold { moves, stage } = hold;
    match (stage, event) {
        (HoldStage::Pressing, HoldEvent::Done) => (
            Hold { moves, stage: HoldStage::Holding },
            HoldAction::Wait,
        ),
        (HoldStage::Pressing, HoldEvent::Failed(error)) => (
            Hold { moves, stage: HoldStage::Over },
            HoldAction::Fail(error),
        ),
        (HoldStage::Holding, HoldEvent::Done) => if moves {
            (Hold { moves, stage: HoldStage::Moving }, HoldAction::Move)
        } else {
            (Hold { moves, stage: HoldStage::Releasing(None) }, HoldAction::Release)
        },
        (HoldStage::Moving, HoldEvent::Done) => (
            Hold { moves, stage: HoldStage::Releasing(None) },
            HoldAction::Release,
        ),
        (HoldStage::Moving, HoldEvent::Failed(error)) => (
            Hold { moves, stage: HoldStage::Releasing(Some(error)) },
            HoldAction::Release,
        ),
        (HoldStage::Releasing(moved), HoldEvent::Done) => match moved {
            Some(error) => (Hold { moves, stage: HoldStage::Over }, HoldAction::Fail(error)),
            None => (Hold { moves, stage: HoldStage::Over }, HoldAction::Finish),
        },
        (HoldStage::Releasing(moved), HoldEvent::Failed(error)) => match moved {
            Some(first) => (Hold { moves, stage: HoldStage::Over }, HoldAction::Fail(first)),
            None => (Hold { moves, stage: HoldStage::Over }, HoldAction::Fail(error)),
        },
        (stage, _) => (Hold { moves, stage }, HoldAction::Ignore),
    }
}

impl Hold {
    /// Begins the gesture: the pointer is to be pressed.
    pub fn start(moves: bool) -> (next: (Hold, HoldAction))
        ensures
            next == (Hold { moves, stage: HoldStage::Pressing }, HoldAction::Press),
    {
        (Hold { moves, stage: HoldStage::Pressing }, HoldAction::Press)
    }

    /// Takes an event.
    pub fn next(self, event: HoldEvent) -> (next: (Hold, HoldAction))
        ensures
            next == hold_step(self, event),
    {
        next_hold(self, event)
    }
}

/// A pointer that was pressed is released before the gesture ends, whatever goes wrong in between.
pub proof fn pressed_pointers_are_released(hold: Hold, event: HoldEvent)
    ensures
        ({
            let (after, action) = hold_step(hold, event);
            &&& (action is Finish || action is Fail ==> hold.stage is Releasing || (hold.stage
                is Pressing && event is Failed))
            &&& (after.stage is Releasing && !(hold.stage is Releasing) ==> action is Release)
            &&& (action is Finish || action is Fail ==> after.stage is Over)
            &&& after.moves == hold.moves
        }),
{
}

/// The error of a swipe that would leave the viewport.
pub fn swipe_outside() -> (error: StepError)
    ensures
        plain_error(
            error,
            FailureCategory::Actionability,
            "swipe endpoint is outside the viewport"@,
        ),
{
    StepError::new(FailureCategory::Actionability, "swipe endpoint is outside the viewport")
}

/// The error of a click at a point of the viewport: it tells the point.
pub fn viewport_click_error(point: ViewportPoint, error: StepError) -> (told: StepError)
    ensures
        told.message@ == "viewport click at ("@ + decimal(point.x as nat) + ", "@ + decimal(
            point.y as nat,
        ) + ") failed: "@ + error.message@,
        told == (StepError { message: told.message, ..error }),
{
    let mut message = "viewport click at (".to_owned();
    let x = decimal_text(point.x as u64);
    message.append(x.as_str());
    message.append(", ");
    let y = decimal_text(point.y as u64);
    message.append(y.as_str());
    message.append(") failed: ");
    message.append(error.message.as_str());
    StepError { message, ..error }
}

/// The error of a dialog that a step could not answer.
pub fn dialog_not_answered(error: &str) -> (told: StepError)
    ensures
        plain_error(told, FailureCategory::Actionability, "handle native dialog: "@ + error@),
{
    let message = join("handle native dialog: ", error);
    StepError::new(FailureCategory::Actionability, message.as_str())
}

/// A click moves, then presses and releases as often as it is to click, counting up from one, and is done.
pub proof fn a_click_presses_and_releases(clicks: u32, settle: bool, first: (Clicks, ClickAction))
    requires
        call_ensures(Clicks::start, (clicks, settle), first),
        clicks >= 1,
    ensures
        ({
            let done = ClickEvent::Done;
            let (pressing, second) = click_step(first.0, done);
            let (held, third) = click_step(pressing, done);
            let (releasing, fourth) = if settle {
                click_step(held, done)
            } else {
                (held, third)
            };
            let (last, fifth) = click_step(releasing, done);
            &&& first.1 is Move
            &&& second == (ClickAction::Press { count: 1 })
            &&& settle ==> third is Settle
            &&& fourth == (ClickAction::Release { count: 1 })
            &&& clicks == 1 ==> fifth is Finish && last.stage is Over
            &&& clicks > 1 ==> fifth == (ClickAction::Press { count: 2 })
        }),
{
}

/// A dialog that a press or a release opens ends the click, and a failure ends it with its error.
pub proof fn dialogs_end_a_click(clicks: Clicks, error: StepError)
    ensures
        clicks.stage is Pressing || clicks.stage is Releasing ==> click_step(
            clicks,
            ClickEvent::DialogOpened,
        ).1 is Finish && click_step(clicks, ClickEvent::DialogOpened).0.stage is Over,
        !(clicks.stage is Over) ==> click_step(clicks, ClickEvent::Failed(error)).1
            == ClickAction::Fail(error),
        clicks.stage is Moving || clicks.stage is Settling ==> click_step(
            clicks,
            ClickEvent::DialogOpened,
        ).1 is Ignore,
{
}

/// A hold presses, waits, moves where it is to move, and releases; then it is done.
pub proof fn a_hold_presses_waits_and_releases(moves: bool, first: (Hold, HoldAction))
    requires
        call_ensures(Hold::start, (moves,), first),
    ensures
        ({
            let done = HoldEvent::Done;
            let (holding, second) = hold_step(first.0, done);
            let (next, third) = hold_step(holding, done);
            let (releasing, fourth) = if moves {
                hold_step(next, done)
            } else {
                (next, third)
            };
            let fifth = hold_step(releasing, done).1;
            &&& first.1 is Press && second is Wait
            &&& moves ==> third is Move
            &&& fourth is Release && fifth is Finish
        }),
{
}

/// A move that fails is released all the same, and told before a failure to release.
pub proof fn failed_moves_are_released_and_told(hold: Hold, moved: StepError, released: StepError)
    requires
        hold.stage is Moving,
    ensures
        ({
            let (releasing, first) = hold_step(hold, HoldEvent::Failed(moved));
            let (fine, second) = hold_step(hold, HoldEvent::Done);
            &&& first is Release && second is Release
            &&& hold_step(releasing, HoldEvent::Done).1 == HoldAction::Fail(moved)
            &&& hold_step(releasing, HoldEvent::Failed(released)).1 == HoldAction::Fail(moved)
            &&& hold_step(fine, HoldEvent::Failed(released)).1 == HoldAction::Fail(released)
        }),
{
}

/// A press that fails ends a hold with its error.
pub proof fn failed_presses_end_a_hold(hold: Hold, error: StepError)
    requires
        hold.stage is Pressing,
    ensures
        hold_step(hold, HoldEvent::Failed(error)).1 == HoldAction::Fail(error),
        hold_step(hold, HoldEvent::Failed(error)).0.stage is Over,
{
}

/// A click at a point tells the point and keeps all else of its error.
pub proof fn clicks_at_points_tell_the_point(
    point: ViewportPoint,
    error: StepError,
    told: StepError,
)
    requires
        call_ensures(viewport_click_error, (point, error), told),
    ensures
        told.category == error.category && told.deadline_based == error.deadline_based
            && told.last_observed == error.last_observed && told.visual_artifacts
            == error.visual_artifacts,
        told.message@ == "viewport click at ("@ + decimal(point.x as nat) + ", "@ + decimal(
            point.y as nat,
        ) + ") failed: "@ + error.message@,
{
}

/// A swipe out of the viewport and a dialog that could not be answered are failures of the element.
pub proof fn gestures_that_cannot_be_done_are_told(
    outside: StepError,
    error: &str,
    unanswered: StepError,
)
    requires
        call_ensures(swipe_outside, (), outside),
        call_ensures(dialog_not_answered, (error,), unanswered),
    ensures
        outside.category is Actionability && !outside.deadline_based,
        unanswered.category is Actionability && !unanswered.deadline_based,
        unanswered.message@ == "handle native dialog: "@ + error@,
{
}

} // verus!
