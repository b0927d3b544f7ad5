//! Why a step failed.

use crate::number::{duration_ms, millis_of};
use crate::report::FailureCategory;
use crate::text::optional_text;
use vstd::prelude::*;
use vstd::string::*;

verus! {

/// The two pictures that a failed comparison leaves.
#[derive(Debug, Clone, PartialEq, Eq)]
pub struct VisualArtifacts {
    pub actual_path: String,
    pub diff_path: String,
    pub actual_png: Vec<u8>,
    pub diff_png: Vec<u8>,
}

/// Why a step failed.
#[derive(Debug, Clone, PartialEq, Eq)]
pub struct StepError {
    pub category: FailureCategory,
    pub message: String,
    pub last_observed: Option<String>,
    pub deadline_based: bool,
    pub visual_artifacts: Option<VisualArtifacts>,
}

/// Whether an error is of a category with a message, and says nothing else.
pub open spec fn plain_error(
    error: StepError,
    category: FailureCategory,
    message: Seq<char>,
) -> bool {
    &&& error.category == category
    &&& error.message@ == message
    &&& error.last_observed is None
    &&& !error.deadline_based
    &&& error.visual_artifacts is None
}

/// Whether an error is of a category with a message, and comes from a deadline.
pub open spec fn deadline_error(
    error: StepError,
    category: FailureCategory,
    message: Seq<char>,
    observed: Option<Seq<char>>,
) -> bool {
    &&& error.category == category
    &&& error.message@ == message
    &&& optional_text(error.last_observed) == observed
    &&& error.deadline_based
    &&& error.visual_artifacts is None
}

impl StepError {
    /// An error with nothing but its category and message.
    pub fn new(category: FailureCategory, message: &str) -> (error: StepError)
        ensures
            plain_error(error, category, message@),
    {
        StepError {
            category,
            message: message.to_owned(),
            last_observed: None,
            deadline_based: false,
            visual_artifacts: None,
        }
    }

    /// A failed assertion.
    pub fn assertion(message: &str) -> (error: StepError)
        ensures
            plain_error(error, FailureCategory::Assertion, message@),
    {
        StepError::new(FailureCategory::Assertion, message)
    }

    /// The error with what was seen last.
    pub fn observed(self, value: String) -> (error: StepError)
        ensures
            error == (StepError { last_observed: Some(value), ..self }),
    {
        StepError { last_observed: Some(value), ..self }
    }

    /// The error, marked as coming from a deadline.
    pub fn deadline(self) -> (error: StepError)
        ensures
            error == (StepError { deadline_based: true, ..self }),
    {
        StepError { deadline_based: true, ..self }
    }

    /// The error with the pictures of a comparison.
    pub fn visual_artifacts(
        self,
        actual_path: String,
        diff_path: String,
        actual_png: Vec<u8>,
        diff_png: Vec<u8>,
    ) -> (error: StepError)
        ensures
            error == (StepError {
                visual_artifacts: Some(
                    VisualArtifacts { actual_path, diff_path, actual_png, diff_png },
                ),
                ..self
            }),
    {
        StepError {
            visual_artifacts: Some(
                VisualArtifacts { actual_path, diff_path, actual_png, diff_png },
            ),
            ..self
        }
    }
}

/// An error of the browser protocol.
pub fn protocol(message: &str) -> (error: StepError)
    ensures
        plain_error(error, FailureCategory::Protocol, message@),
{
    StepError::new(FailureCategory::Protocol, message)
}

/// The timeout to report with an error, where it comes from a deadline. `timeout` is in
/// nanoseconds.
pub fn deadline_timeout_ms(error: &StepError, timeout: u128) -> (millis: Option<u64>)
    ensures
        millis == if error.deadline_based {
            Some(millis_of(timeout))
        } else {
            None
        },
{
    if error.deadline_based {
        Some(duration_ms(timeout))
    } else {
        None
    }
}

/// What a look for an element found.
#[derive(Debug, Clone, Copy, PartialEq, Eq, Structural)]
pub enum Sighting {
    NoMatch,
    Multiple,
    Detached,
    Hidden,
    Blocked,
    Unavailable,
    Ready,
}

/// What a look for an element found, and how that is told.
#[derive(Debug, Clone, PartialEq, Eq)]
pub struct Observation {
    pub sighting: Sighting,
    pub text: String,
}

/// Why the look for an element failed.
#[derive(Debug, Clone, PartialEq, Eq)]
pub enum LocatorError {
    Timeout { last: Observation },
    Protocol(String),
    InvalidResponse(String),
}

/// The category of a deadline that passed while an element was last seen so.
pub open spec fn sighting_category(sighting: Sighting) -> FailureCategory {
    match sighting {
        Sighting::NoMatch => FailureCategory::Locator,
        Sighting::Multiple => FailureCategory::Locator,
        Sighting::Unavailable => FailureCategory::Protocol,
        _ => FailureCategory::Actionability,
    }
}

fn category_of(sighting: Sighting) -> (category: FailureCategory)
    ensures
        category == sighting_category(sighting),
{
    match sighting {
        Sighting::NoMatch | Sighting::Multiple => FailureCategory::Locator,
        Sighting::Unavailable => FailureCategory::Protocol,
        _ => FailureCategory::Actionability,
    }
}

/// Whether a step error stands for a failed look for an element: a deadline in the given
/// category and words, or what went wrong in the browser protocol.
pub open spec fn stands_for(
    error: StepError,
    cause: LocatorError,
    category: FailureCategory,
    words: Seq<char>,
) -> bool {
    match cause {
        LocatorError::Timeout { last } => deadline_error(error, category, words, Some(last.text@)),
        LocatorError::Protocol(message) => plain_error(
            error,
            FailureCategory::Protocol,
            message@,
        ),
        LocatorError::InvalidResponse(message) => plain_error(
            error,
            FailureCategory::Protocol,
            message@,
        ),
    }
}

/// The category that the last sighting of a failed look gives.
pub open spec fn look_category(cause: LocatorError) -> FailureCategory {
    match cause {
        LocatorError::Timeout { last } => sighting_category(last.sighting),
        _ => FailureCategory::Protocol,
    }
}

/// The error of an action whose target was not found.
pub fn locator_error(cause: LocatorError) -> (error: StepError)
    ensures
        stands_for(error, cause, look_category(cause), "target did not become actionable"@),
{
    match cause {
        LocatorError::Timeout { last } => StepError::new(
            category_of(last.sighting),
            "target did not become actionable",
        ).deadline().observed(last.text),
        LocatorError::Protocol(message) => protocol(message.as_str()),
        LocatorError::InvalidResponse(message) => protocol(message.as_str()),
    }
}

/// The error of an assertion whose target was not found.
pub fn assertion_locator_error(cause: LocatorError) -> (error: StepError)
    ensures
        stands_for(error, cause, FailureCategory::Assertion, "assertion deadline expired"@),
{
    match cause {
        LocatorError::Timeout { last } => StepError::assertion(
            "assertion deadline expired",
        ).deadline().observed(last.text),
        LocatorError::Protocol(message) => protocol(message.as_str()),
        LocatorError::InvalidResponse(message) => protocol(message.as_str()),
    }
}

/// The error of an opened page that did not settle.
pub fn settle_locator_error(cause: LocatorError) -> (error: StepError)
    ensures
        stands_for(
            error,
            cause,
            look_category(cause),
            "open settle condition was not satisfied before the step deadline"@,
        ),
{
    match cause {
        LocatorError::Timeout { last } => StepError::new(
            category_of(last.sighting),
            "open settle condition was not satisfied before the step deadline",
        ).deadline().observed(last.text),
        LocatorError::Protocol(message) => protocol(message.as_str()),
        LocatorError::InvalidResponse(message) => protocol(message.as_str()),
    }
}

/// A look that ends without a ready element is told by what was last seen: none or several elements are the
/// locator's failure, an element that could not be asked is the protocol's, and any other is one of the element
/// itself. Only a look whose time was up counts as a missed deadline.
pub proof fn failed_looks_are_told_by_what_was_seen(
    cause: LocatorError,
    look: StepError,
    settle: StepError,
    assertion: StepError,
)
    requires
        call_ensures(locator_error, (cause,), look),
        call_ensures(settle_locator_error, (cause,), settle),
        call_ensures(assertion_locator_error, (cause,), assertion),
    ensures
        match cause {
            LocatorError::Timeout { last } => {
                &&& (last.sighting is NoMatch || last.sighting is Multiple <==> look.category is Locator)
                &&& (last.sighting is Unavailable <==> look.category is Protocol)
                &&& (last.sighting is Detached || last.sighting is Hidden || last.sighting is Blocked
                    || last.sighting is Ready <==> look.category is Actionability)
                &&& settle.category == look.category
                &&& assertion.category is Assertion
                &&& look.deadline_based && settle.deadline_based && assertion.deadline_based
                &&& look.last_observed is Some && look.last_observed->0@ == last.text@
                &&& settle.last_observed is Some && settle.last_observed->0@ == last.text@
                &&& assertion.last_observed is Some && assertion.last_observed->0@ == last.text@
            },
            LocatorError::Protocol(message) | LocatorError::InvalidResponse(message) => {
                &&& look.category is Protocol && look.message@ == message@ && !look.deadline_based
                &&& settle.category is Protocol && settle.message@ == message@
                    && !settle.deadline_based
                &&& assertion.category is Protocol && assertion.message@ == message@
                    && !assertion.deadline_based
            },
        },
{
}

/// A step tells its time limit exactly if it missed its deadline.
pub proof fn only_missed_deadlines_tell_the_limit(
    error: StepError,
    timeout: u128,
    millis: Option<u64>,
    late: StepError,
)
    requires
        call_ensures(deadline_timeout_ms, (&error, timeout), millis),
        call_ensures(StepError::deadline, (error,), late),
    ensures
        millis is Some <==> error.deadline_based,
        millis is Some && timeout < 1_000_000 * (u64::MAX as int) ==> millis->0 * 1_000_000
            <= timeout < (millis->0 + 1) * 1_000_000,
        late.deadline_based && late.category == error.category && late.message == error.message
            && late.last_observed == error.last_observed,
{
}

} // verus!
