//! What polled conditions decide: assertions, conditions of steps, and scrolling to a target.

use crate::address::{meets, url_matches, url_parsed};
use crate::flow::{CompiledStep, Locator, UrlExpectation, When};
use crate::guards::{
    evaluate_expression, expression_value, guards_match, guards_outcome, is_outcome, GuardMemory,
};
use crate::journal::TextMatch;
use crate::json::Json;
use crate::report::{FailureCategory, REDACTED};
use crate::step_error::{
    assertion_locator_error, deadline_error, locator_error, look_category, plain_error, stands_for,
    LocatorError, Observation, Sighting, StepError,
};
use crate::text::{
    collapse, collapsed, collapsed_is_dark, contains_text, dark, occurs, quote, quoted, same_text,
    stands_at,
};
use crate::values::{Outputs, Resolved};
use std::collections::{BTreeMap, BTreeSet};
use vstd::prelude::*;
use vstd::string::*;

verus! {

/// What a look for an element gave: an observation, an error after which one looks again, told as
/// an observation is, or an error that ends the search.
#[derive(Debug)]
pub enum Look {
    Seen(Observation),
    Retryable(String),
    Failed(LocatorError),
}

impl Look {
    /// How the element was seen. After an error one looks again, it was unavailable.
    pub open spec fn sighting(self) -> Sighting {
        match self {
            Look::Seen(observation) => observation.sighting,
            _ => Sighting::Unavailable,
        }
    }

    /// How the look is told.
    pub open spec fn told(self) -> Seq<char> {
        match self {
            Look::Seen(observation) => observation.text@,
            Look::Retryable(text) => text@,
            Look::Failed(_) => Seq::empty(),
        }
    }

    fn observation(self) -> (result: Result<Observation, LocatorError>)
        ensures
            match result {
                Ok(observation) => {
                    &&& !(self is Failed)
                    &&& observation.sighting == self.sighting()
                    &&& observation.text@ == self.told()
                },
                Err(error) => self == Look::Failed(error),
            },
    {
        match self {
            Look::Seen(observation) => Ok(observation),
            Look::Retryable(text) => Ok(Observation { sighting: Sighting::Unavailable, text }),
            Look::Failed(error) => Err(error),
        }
    }
}

/// What to do after a poll.
#[derive(Debug)]
pub enum Poll {
    Done,
    Again,
    Failed(StepError),
}

/// Whether a poll for a condition on a sighting ends so: with the error of the search, with
/// success where the condition is met, with the error of the deadline, or not yet.
pub open spec fn polled(
    look: Look,
    met: bool,
    expired: bool,
    poll: Poll,
    fails: spec_fn(StepError, LocatorError) -> bool,
    expires: spec_fn(StepError) -> bool,
) -> bool {
    match poll {
        Poll::Failed(error) => match look {
            Look::Failed(cause) => fails(error, cause),
            _ => !met && expired && expires(error),
        },
        Poll::Done => !(look is Failed) && met,
        Poll::Again => !(look is Failed) && !met && !expired,
    }
}

/// Polls for an element to be hidden. It is where nothing matches, and where what matches is hidden
/// or no longer part of the page.
pub fn poll_hidden(look: Look, now: u128, deadline: u128) -> (poll: Poll)
    ensures
        polled(
            look,
            look.sighting() is NoMatch || look.sighting() is Detached || look.sighting() is Hidden,
            now >= deadline,
            poll,
            |error: StepError, cause: LocatorError|
                stands_for(
                    error,
                    cause,
                    FailureCategory::Assertion,
                    "assertion deadline expired"@,
                ),
            |error: StepError|
                deadline_error(
                    error,
                    FailureCategory::Assertion,
                    "target remained visible"@,
                    Some(look.told()),
                ),
        ),
{
    match look.observation() {
        Ok(observation) => match observation.sighting {
            Sighting::NoMatch | Sighting::Detached | Sighting::Hidden => Poll::Done,
            _ => if now >= deadline {
                Poll::Failed(
                    StepError::assertion("target remained visible").deadline().observed(
                        observation.text,
                    ),
                )
            } else {
                Poll::Again
            },
        },
        Err(error) => Poll::Failed(assertion_locator_error(error)),
    }
}

/// Polls for an element whose text is asserted. Where it is there, its text is to be read.
pub fn poll_text_target(look: Look, now: u128, deadline: u128) -> (poll: Poll)
    ensures
        polled(
            look,
            look.sighting() is Ready,
            now >= deadline,
            poll,
            |error: StepError, cause: LocatorError|
                stands_for(
                    error,
                    cause,
                    FailureCategory::Assertion,
                    "assertion deadline expired"@,
                ),
            |error: StepError|
                deadline_error(
                    error,
                    FailureCategory::Assertion,
                    "text target was not visible"@,
                    Some(look.told()),
                ),
        ),
{
    match look.observation() {
        Ok(observation) => match observation.sighting {
            Sighting::Ready => Poll::Done,
            _ => if now >= deadline {
                Poll::Failed(
                    StepError::assertion("text target was not visible").deadline().observed(
                        observation.text,
                    ),
                )
            } else {
                Poll::Again
            },
        },
        Err(error) => Poll::Failed(assertion_locator_error(error)),
    }
}

/// Whether a text is the expected one, or contains it. White space counts only as where it stands, and
/// letters only as they are written.
pub open spec fn matches_text(actual: Seq<char>, expected: Seq<char>, kind: TextMatch) -> bool {
    match kind {
        TextMatch::Exact => collapsed(actual) == collapsed(expected),
        TextMatch::Contains => occurs(collapsed(actual), collapsed(expected)),
    }
}

/// Whether a text is the expected one, or contains it.
pub fn text_matches(actual: &str, expected: &str, kind: TextMatch) -> (matches: bool)
    ensures
        matches == matches_text(actual@, expected@, kind),
{
    let seen = collapse(actual);
    let wanted = collapse(expected);
    match kind {
        TextMatch::Exact => same_text(seen.as_str(), wanted.as_str()),
        TextMatch::Contains => contains_text(seen.as_str(), wanted.as_str()),
    }
}

/// How the text that was read is told.
pub open spec fn text_seen(expected: Seq<char>, actual: Seq<char>) -> Seq<char> {
    "expected "@ + quoted(expected) + "; text was "@ + quoted(actual)
}

/// Whether the text that was read ends a poll so.
pub open spec fn text_polled(
    read: Result<String, StepError>,
    retryable: bool,
    expected: Seq<char>,
    kind: TextMatch,
    expired: bool,
    poll: Poll,
) -> bool {
    match read {
        Ok(actual) => {
            let matched = matches_text(actual@, expected, kind);
            match poll {
                Poll::Done => matched,
                Poll::Again => !matched && !expired,
                Poll::Failed(error) => !matched && expired && deadline_error(
                    error,
                    FailureCategory::Assertion,
                    "text assertion did not match"@,
                    Some(text_seen(expected, actual@)),
                ),
            }
        },
        Err(cause) => {
            let again = cause.category == FailureCategory::Protocol && retryable;
            match poll {
                Poll::Done => false,
                Poll::Again => again && !expired,
                Poll::Failed(error) => if again {
                    expired && deadline_error(
                        error,
                        FailureCategory::Assertion,
                        "text target was unavailable"@,
                        Some(cause.message@),
                    )
                } else {
                    error == cause
                },
            }
        },
    }
}

/// Decides a text assertion from the text that was read, or, where reading failed, from whether such
/// a message tells to look again.
pub fn poll_text(
    read: Result<String, StepError>,
    retryable: bool,
    expected: &str,
    kind: TextMatch,
    now: u128,
    deadline: u128,
) -> (poll: Poll)
    ensures
        text_polled(read, retryable, expected@, kind, now >= deadline, poll),
{
    match read {
        Ok(actual) => {
            if text_matches(actual.as_str(), expected, kind) {
                Poll::Done
            } else if now >= deadline {
                let mut observed = "expected ".to_owned();
                let wanted = quote(expected);
                observed.append(wanted.as_str());
                observed.append("; text was ");
                let seen = quote(actual.as_str());
                observed.append(seen.as_str());
                Poll::Failed(
                    StepError::assertion("text assertion did not match").deadline().observed(
                        observed,
                    ),
                )
            } else {
                Poll::Again
            }
        },
        Err(error) => {
            if error.category == FailureCategory::Protocol && retryable {
                if now >= deadline {
                    Poll::Failed(
                        StepError::assertion("text target was unavailable").deadline().observed(
                            error.message,
                        ),
                    )
                } else {
                    Poll::Again
                }
            } else {
                Poll::Failed(error)
            }
        },
    }
}

/// How an expected value is told: quoted, unless it is secret.
pub open spec fn expected_text(value: Resolved<String>) -> Seq<char> {
    if value.secret {
        REDACTED@
    } else {
        quoted(value.value@)
    }
}

/// How an expectation of an address is told.
pub open spec fn expectation_text(expectation: UrlExpectation) -> Seq<char> {
    match expectation {
        UrlExpectation::Equals(value) => "Equals("@ + expected_text(value) + ")"@,
        UrlExpectation::Path(value) => "Path("@ + expected_text(value) + ")"@,
    }
}

/// How the address that was seen is told.
pub open spec fn url_seen(expectation: UrlExpectation, actual: Seq<char>) -> Seq<char> {
    "expected "@ + expectation_text(expectation) + "; URL was "@ + quoted(actual)
}

fn tell_expected(value: &Resolved<String>) -> (text: String)
    ensures
        text@ == expected_text(*value),
{
    if value.secret {
        REDACTED.to_owned()
    } else {
        quote(value.value.as_str())
    }
}

fn tell_url(expectation: &UrlExpectation, actual: &str) -> (text: String)
    ensures
        text@ == url_seen(*expectation, actual@),
{
    let mut text = "expected ".to_owned();
    let (kind, value) = match expectation {
        UrlExpectation::Equals(value) => ("Equals(", value),
        UrlExpectation::Path(value) => ("Path(", value),
    };
    text.append(kind);
    let wanted = tell_expected(value);
    text.append(wanted.as_str());
    text.append(")");
    text.append("; URL was ");
    let seen = quote(actual);
    text.append(seen.as_str());
    proof {
        assert(text@ =~= url_seen(*expectation, actual@));
    }
    text
}

/// Decides a poll from whether an address meets an expectation.
pub fn poll_address(
    matched: bool,
    actual: &str,
    expectation: &UrlExpectation,
    now: u128,
    deadline: u128,
) -> (poll: Poll)
    ensures
        match poll {
            Poll::Done => matched,
            Poll::Again => !matched && now < deadline,
            Poll::Failed(error) => {
                &&& !matched
                &&& now >= deadline
                &&& deadline_error(
                    error,
                    FailureCategory::Assertion,
                    "URL assertion did not match"@,
                    Some(url_seen(*expectation, actual@)),
                )
            },
        },
{
    if matched {
        Poll::Done
    } else if now >= deadline {
        let observed = tell_url(expectation, actual);
        Poll::Failed(
            StepError::assertion("URL assertion did not match").deadline().observed(observed),
        )
    } else {
        Poll::Again
    }
}

/// Polls for the address of the page.
pub fn poll_url(actual: &str, expectation: &UrlExpectation, now: u128, deadline: u128) -> (poll:
    Poll)
    ensures
        match poll {
            Poll::Done => meets(actual@, url_parsed(actual@), *expectation),
            Poll::Again => !meets(actual@, url_parsed(actual@), *expectation) && now < deadline,
            Poll::Failed(error) => {
                &&& !meets(actual@, url_parsed(actual@), *expectation)
                &&& now >= deadline
                &&& deadline_error(
                    error,
                    FailureCategory::Assertion,
                    "URL assertion did not match"@,
                    Some(url_seen(*expectation, actual@)),
                )
            },
        },
{
    let matched = url_matches(actual, expectation);
    poll_address(matched, actual, expectation, now, deadline)
}

/// Polls for the target of scrolling. Where it is not there yet, the page is to be scrolled before
/// the next look.
pub fn poll_scroll(look: Look, now: u128, deadline: u128) -> (poll: Poll)
    ensures
        polled(
            look,
            look.sighting() is Ready,
            now >= deadline,
            poll,
            |error: StepError, cause: LocatorError|
                stands_for(
                    error,
                    cause,
                    look_category(cause),
                    "target did not become actionable"@,
                ),
            |error: StepError|
                deadline_error(
                    error,
                    FailureCategory::Timeout,
                    "scroll_until_visible deadline expired"@,
                    Some(look.told()),
                ),
        ),
{
    match look.observation() {
        Ok(observation) => match observation.sighting {
            Sighting::Ready => Poll::Done,
            _ => if now >= deadline {
                Poll::Failed(
                    StepError::new(
                        FailureCategory::Timeout,
                        "scroll_until_visible deadline expired",
                    ).deadline().observed(observation.text),
                )
            } else {
                Poll::Again
            },
        },
        Err(error) => Poll::Failed(locator_error(error)),
    }
}

/// Decides the condition of a step. For a condition on an element, `look` is what one look for any
/// visible element gave.
pub fn when_matches(
    when: &When,
    outputs: &Outputs,
    look: Result<Observation, LocatorError>,
) -> (result: Result<bool, StepError>)
    ensures
        match when {
            When::Expression(expression) => is_outcome(
                result,
                expression_value(*expression, outputs@),
            ),
            When::Visible(_) => match (result, look) {
                (Ok(matches), Ok(seen)) => matches == (seen.sighting is Ready),
                (Err(error), Err(cause)) => stands_for(
                    error,
                    cause,
                    look_category(cause),
                    "target did not become actionable"@,
                ),
                _ => false,
            },
            When::Hidden(_) => match (result, look) {
                (Ok(matches), Ok(seen)) => matches == !(seen.sighting is Ready),
                (Err(error), Err(cause)) => stands_for(
                    error,
                    cause,
                    look_category(cause),
                    "target did not become actionable"@,
                ),
                _ => false,
            },
        },
{
    match when {
        When::Expression(expression) => evaluate_expression(expression, outputs),
        When::Visible(_) => match look {
            Ok(seen) => Ok(matches!(seen.sighting, Sighting::Ready)),
            Err(error) => Err(locator_error(error)),
        },
        When::Hidden(_) => match look {
            Ok(seen) => Ok(!matches!(seen.sighting, Sighting::Ready)),
            Err(error) => Err(locator_error(error)),
        },
    }
}

/// Whether a step is due, or has to look for an element first.
#[derive(Debug, Clone, Copy, PartialEq, Eq, Structural)]
pub enum Due {
    Skip,
    Run,
    Look,
}

/// Whether a step is due once its guards are decided. A condition on an element is left to a look.
pub open spec fn due_of(
    guards: Result<bool, Seq<char>>,
    when: Option<When>,
    outputs: Seq<(Seq<char>, Json)>,
) -> Result<Due, Seq<char>> {
    match guards {
        Err(message) => Err(message),
        Ok(false) => Ok(Due::Skip),
        Ok(true) => match when {
            None => Ok(Due::Run),
            Some(When::Expression(expression)) => match expression_value(expression, outputs) {
                Err(message) => Err(message),
                Ok(value) => Ok(
                    if value {
                        Due::Run
                    } else {
                        Due::Skip
                    },
                ),
            },
            Some(_) => Ok(Due::Look),
        },
    }
}

/// Decides whether a step is due.
pub fn step_due(
    step: &CompiledStep,
    outputs: &Outputs,
    results: &mut BTreeMap<usize, bool>,
    stopped_loops: &mut BTreeSet<usize>,
) -> (result: Result<Due, StepError>)
    ensures
        ({
            let memory = GuardMemory { results: old(results)@, stopped: old(stopped_loops)@ };
            let (said, after) = guards_outcome(step.guards@, outputs@, memory);
            &&& match (result, due_of(said, step.when, outputs@)) {
                (Ok(due), Ok(expected)) => due == expected,
                (Err(error), Err(message)) => plain_error(
                    error,
                    FailureCategory::Protocol,
                    message,
                ),
                _ => false,
            }
            &&& final(results)@ == after.results
            &&& final(stopped_loops)@ == after.stopped
        }),
{
    match guards_match(&step.guards, outputs, results, stopped_loops) {
        Err(error) => Err(error),
        Ok(matches) => if !matches {
            Ok(Due::Skip)
        } else {
            match &step.when {
                None => Ok(Due::Run),
                Some(When::Expression(expression)) => match evaluate_expression(
                    expression,
                    outputs,
                ) {
                    Err(error) => Err(error),
                    Ok(value) => if value {
                        Ok(Due::Run)
                    } else {
                        Ok(Due::Skip)
                    },
                },
                Some(_) => Ok(Due::Look),
            }
        },
    }
}

/// A poll for a hidden element is done exactly if nothing matches, or what matches is hidden or detached. It
/// fails at the deadline and not before, and on an error that is not looked past.
pub proof fn hidden_elements_are_not_to_be_seen(look: Look, now: u128, deadline: u128, poll: Poll)
    requires
        call_ensures(poll_hidden, (look, now, deadline), poll),
    ensures
        match look {
            Look::Seen(seen) => {
                let hidden = seen.sighting is NoMatch || seen.sighting is Hidden || seen.sighting
                    is Detached;
                &&& (poll is Done <==> hidden)
                &&& (poll is Again <==> !hidden && now < deadline)
                &&& (poll matches Poll::Failed(error) ==> error.category is Assertion
                    && error.deadline_based && error.last_observed is Some
                    && error.last_observed->0@ == seen.text@)
            },
            Look::Retryable(text) => {
                &&& (poll is Again <==> now < deadline)
                &&& (poll is Failed <==> now >= deadline)
            },
            Look::Failed(_) => poll is Failed,
        },
{
}

/// A poll for the target of a text or of scrolling is done exactly if the element is ready.
pub proof fn targets_are_ready(look: Look, now: u128, deadline: u128, text: Poll, scroll: Poll)
    requires
        call_ensures(poll_text_target, (look, now, deadline), text),
        call_ensures(poll_scroll, (look, now, deadline), scroll),
    ensures
        text is Done == scroll is Done,
        text is Again == scroll is Again,
        match look {
            Look::Seen(seen) => {
                &&& (text is Done <==> seen.sighting is Ready)
                &&& (text is Again <==> !(seen.sighting is Ready) && now < deadline)
            },
            Look::Retryable(_) => text is Again <==> now < deadline,
            Look::Failed(_) => text is Failed && scroll is Failed,
        },
        !(look is Failed) ==> {
            &&& (text matches Poll::Failed(error) ==> error.category is Assertion
                && error.deadline_based)
            &&& (scroll matches Poll::Failed(error) ==> error.category is Timeout
                && error.deadline_based)
        },
{
}

/// Texts match whatever white space is between their words, and by every character else: a text matches itself,
/// matching exactly is mutual, and a text that matches exactly is also contained.
pub proof fn texts_match_but_for_white_space(
    actual: &str,
    expected: &str,
    exact: bool,
    back: bool,
    within: bool,
)
    requires
        call_ensures(text_matches, (actual, expected, TextMatch::Exact), exact),
        call_ensures(text_matches, (expected, actual, TextMatch::Exact), back),
        call_ensures(text_matches, (actual, expected, TextMatch::Contains), within),
    ensures
        actual@ == expected@ ==> exact,
        exact == back,
        exact ==> within,
        exact ==> dark(actual@) == dark(expected@),
        dark(expected@).len() == 0 ==> within,
        exact <==> collapsed(actual@) == collapsed(expected@),
        within <==> exists|at: int| #![trigger collapsed(actual@).skip(at)]
            0 <= at <= collapsed(actual@).len() - collapsed(expected@).len() && collapsed(actual@).skip(
                at,
            ).take(collapsed(expected@).len() as int) == collapsed(expected@),
{
    let seen = collapsed(actual@);
    let wanted = collapsed(expected@);
    collapsed_is_dark(actual@);
    collapsed_is_dark(expected@);
    if seen == wanted {
        assert(seen.subrange(0, wanted.len() as int) =~= wanted);
        assert(stands_at(seen, wanted, 0));
    }
    if wanted.len() == 0 {
        assert(seen.subrange(0, 0) =~= wanted);
        assert(stands_at(seen, wanted, 0));
    }
    if within {
        let at = choose|at: int| stands_at(seen, wanted, at);
        assert(seen.skip(at).take(wanted.len() as int) =~= seen.subrange(at, at + wanted.len()));
        assert(seen.skip(at).len() == seen.len() - at);
    }
    if exists|at: int| #![trigger seen.skip(at)]
        0 <= at <= seen.len() - wanted.len() && seen.skip(at).take(wanted.len() as int) == wanted {
        let at = choose|at: int| #![trigger seen.skip(at)]
            0 <= at <= seen.len() - wanted.len() && seen.skip(at).take(wanted.len() as int)
                == wanted;
        assert(seen.skip(at).take(wanted.len() as int) =~= seen.subrange(at, at + wanted.len()));
        assert(stands_at(seen, wanted, at));
    }
}

/// A text assertion is done exactly if the text matches. It fails at the deadline and not before, with what was
/// read; a text that could not be read is read again only after an error that is looked past.
pub proof fn text_assertions_wait_for_their_text(
    read: Result<String, StepError>,
    retryable: bool,
    expected: &str,
    kind: TextMatch,
    now: u128,
    deadline: u128,
    poll: Poll,
)
    requires
        call_ensures(poll_text, (read, retryable, expected, kind, now, deadline), poll),
    ensures
        match read {
            Ok(actual) => {
                &&& (poll is Done <==> matches_text(actual@, expected@, kind))
                &&& (poll is Again ==> now < deadline)
                &&& (poll matches Poll::Failed(error) ==> now >= deadline && error.category
                    is Assertion && error.deadline_based)
            },
            Err(cause) => {
                &&& !(poll is Done)
                &&& (poll is Again <==> cause.category is Protocol && retryable && now < deadline)
                &&& (!(cause.category is Protocol && retryable) ==> poll == Poll::Failed(cause))
            },
        },
{
}

/// An assertion on the address is done exactly if the address meets it, and fails at the deadline and not
/// before.
pub proof fn address_assertions_wait_for_their_address(
    actual: &str,
    expectation: UrlExpectation,
    now: u128,
    deadline: u128,
    poll: Poll,
    matched: bool,
)
    requires
        call_ensures(poll_url, (actual, &expectation, now, deadline), poll),
        call_ensures(url_matches, (actual, &expectation), matched),
    ensures
        poll is Done <==> matched,
        poll is Again <==> !matched && now < deadline,
        poll matches Poll::Failed(error) ==> now >= deadline && error.category is Assertion
            && error.deadline_based,
{
}

/// A condition on an element holds exactly if a visible one was seen, or exactly if none was; the one is the
/// opposite of the other.
pub proof fn conditions_follow_what_is_seen(
    locator: Locator,
    outputs: Outputs,
    look: Result<Observation, LocatorError>,
    visible: Result<bool, StepError>,
    hidden: Result<bool, StepError>,
)
    requires
        call_ensures(when_matches, (&When::Visible(locator), &outputs, look), visible),
        call_ensures(when_matches, (&When::Hidden(locator), &outputs, look), hidden),
    ensures
        match look {
            Ok(seen) => {
                &&& visible == Ok::<bool, StepError>(seen.sighting is Ready)
                &&& hidden == Ok::<bool, StepError>(!(seen.sighting is Ready))
            },
            Err(_) => visible is Err && hidden is Err,
        },
{
}

/// A step is skipped where its guards or its condition do not hold, and run where they do; a condition on an
/// element is looked for first.
pub proof fn steps_are_due_where_nothing_holds_them_back(
    guards: Result<bool, Seq<char>>,
    when: Option<When>,
    outputs: Seq<(Seq<char>, Json)>,
)
    ensures
        ({
            let due = due_of(guards, when, outputs);
            match guards {
                Err(message) => due == Err::<Due, Seq<char>>(message),
                Ok(passed) => {
                    &&& (!passed ==> due == Ok::<Due, Seq<char>>(Due::Skip))
                    &&& (passed && when is None ==> due == Ok::<Due, Seq<char>>(Due::Run))
                    &&& (passed && (when matches Some(When::Expression(expression))
                        && expression_value(expression, outputs) == Ok::<bool, Seq<char>>(true))
                        ==> due == Ok::<Due, Seq<char>>(Due::Run))
                    &&& (passed && (when matches Some(When::Expression(expression))
                        && expression_value(expression, outputs) == Ok::<bool, Seq<char>>(false))
                        ==> due == Ok::<Due, Seq<char>>(Due::Skip))
                    &&& (passed && (when matches Some(When::Visible(_))) ==> due == Ok::<
                        Due,
                        Seq<char>,
                    >(Due::Look))
                    &&& (passed && (when matches Some(When::Hidden(_))) ==> due == Ok::<
                        Due,
                        Seq<char>,
                    >(Due::Look))
                },
            }
        }),
{
}

/// A step without guards is due by its condition alone, and nothing is remembered of it.
pub proof fn unguarded_steps_are_due_by_their_condition(
    step: CompiledStep,
    outputs: Outputs,
    results: &mut BTreeMap<usize, bool>,
    stopped: &mut BTreeSet<usize>,
    result: Result<Due, StepError>,
)
    requires
        step.guards@.len() == 0,
        call_ensures(step_due, (&step, &outputs, results, stopped), result),
    ensures
        step.when is None ==> result == Ok::<Due, StepError>(Due::Run),
        step.when matches Some(When::Visible(_)) ==> result == Ok::<Due, StepError>(Due::Look),
        step.when matches Some(When::Hidden(_)) ==> result == Ok::<Due, StepError>(Due::Look),
        step.when matches Some(When::Expression(expression)) ==> (expression_value(
            expression,
            outputs@,
        ) matches Ok(holds) ==> result == Ok::<Due, StepError>(
            if holds {
                Due::Run
            } else {
                Due::Skip
            },
        )),
        final(results)@ == old(results)@ && final(stopped)@ == old(stopped)@,
{
}

/// An address is awaited until it matches or time is up.
pub proof fn addresses_are_awaited(
    matched: bool,
    actual: &str,
    expectation: UrlExpectation,
    now: u128,
    deadline: u128,
    poll: Poll,
)
    requires
        call_ensures(poll_address, (matched, actual, &expectation, now, deadline), poll),
    ensures
        poll is Done <==> matched,
        poll is Again <==> !matched && now < deadline,
        poll matches Poll::Failed(error) ==> error.category is Assertion && error.deadline_based,
{
}

} // verus!
