//! What a session's browser tells: the outcome of an interactive step, of closing, and of a browser
//! that is lost.

use crate::interactive::{InteractiveStepError, InteractiveStepResult};
use crate::json::Json;
use crate::recorder::{join_texts, joined};
use crate::report::FailureCategory;
use crate::run_report::BrowserStatus;
use crate::secrets::redacted;
use crate::step_error::{plain_error, protocol, StepError};
use crate::text::{join, optional_text, texts_view};
use crate::values::{Outputs, Redactor};
use crate::visual::MAX_IMAGE_BYTES;
use vstd::prelude::*;
use vstd::string::*;

verus! {

/// The outcome of an interactive step: the names of the outputs and the file that it left, or its
/// error, without secrets. The address and title are read later.
pub fn interactive_outcome(
    result: Result<Option<String>, StepError>,
    outputs: &Outputs,
    redactor: &Redactor,
) -> (outcome: Result<InteractiveStepResult, InteractiveStepError>)
    ensures
        match (outcome, result) {
            (Ok(done), Ok(artifact)) => {
                &&& done.url@.len() == 0
                &&& done.title@.len() == 0
                &&& texts_view(done.outputs@) == outputs@.map_values(
                    |output: (Seq<char>, Json)| output.0,
                )
                &&& done.artifact == artifact
            },
            (Err(told), Err(error)) => {
                &&& told.category == error.category
                &&& told.message@ == redacted(error.message@, redactor.secrets@)
                &&& optional_text(told.last_observed) == match error.last_observed {
                    Some(text) => Some(redacted(text@, redactor.secrets@)),
                    None => None,
                }
            },
            _ => false,
        },
{
    match result {
        Ok(artifact) => Ok(
            InteractiveStepResult {
                url: String::new(),
                title: String::new(),
                outputs: outputs.names(),
                artifact,
            },
        ),
        Err(error) => {
            let last_observed = match error.last_observed {
                Some(text) => Some(redactor.redact(text.as_str())),
                None => None,
            };
            Err(
                InteractiveStepError {
                    category: error.category,
                    message: redactor.redact(error.message.as_str()),
                    last_observed,
                },
            )
        },
    }
}

/// The address and title of a page, without secrets.
pub fn shown_page(url: Option<String>, title: &str, redactor: &Redactor) -> (shown: (
    String,
    String,
))
    ensures
        shown.0@ == redacted(
            match url {
                Some(url) => url@,
                None => Seq::empty(),
            },
            redactor.secrets@,
        ),
        shown.1@ == redacted(title@, redactor.secrets@),
{
    let url = match url {
        Some(url) => url,
        None => String::new(),
    };
    (redactor.redact(url.as_str()), redactor.redact(title))
}

/// Whether a screenshot shows the whole page rather than what is in view. That of a frame never does.
pub fn captures_full_page(full_page: bool, in_frame: bool) -> (full: bool)
    ensures
        full == (full_page && !in_frame),
{
    full_page && !in_frame
}

/// Refuses a screenshot of too many bytes.
pub fn check_screenshot_size(bytes: usize) -> (result: Result<(), StepError>)
    ensures
        match result {
            Ok(_) => bytes <= MAX_IMAGE_BYTES,
            Err(error) => bytes > MAX_IMAGE_BYTES && plain_error(
                error,
                FailureCategory::Protocol,
                "captured screenshot exceeds the image byte limit"@,
            ),
        },
{
    if bytes > MAX_IMAGE_BYTES {
        Err(protocol("captured screenshot exceeds the image byte limit"))
    } else {
        Ok(())
    }
}

/// The error of a crop that does not fit the frame.
pub fn crop_outside() -> (error: StepError)
    ensures
        plain_error(
            error,
            FailureCategory::Protocol,
            "screenshot crop must fit within the active frame viewport"@,
        ),
{
    protocol("screenshot crop must fit within the active frame viewport")
}

/// What is told of a browser that is lost, if it is. `monitored` tells whether its status is still
/// watched.
pub open spec fn lost_text(status: BrowserStatus, error: Seq<char>, monitored: bool) -> Option<
    Seq<char>,
> {
    match status {
        BrowserStatus::Failed => Some("Chromium is unavailable: "@ + error),
        BrowserStatus::Closed => Some("Chromium is closed"@),
        BrowserStatus::Running => if monitored {
            None
        } else {
            Some("Chromium status monitor stopped"@)
        },
    }
}

/// What is told of a browser that is lost, if it is.
pub fn browser_unavailable(status: BrowserStatus, error: &str, monitored: bool) -> (text: Option<
    String,
>)
    ensures
        optional_text(text) == lost_text(status, error@, monitored),
{
    match status {
        BrowserStatus::Failed => Some(join("Chromium is unavailable: ", error)),
        BrowserStatus::Closed => Some("Chromium is closed".to_owned()),
        BrowserStatus::Running => if monitored {
            None
        } else {
            Some("Chromium status monitor stopped".to_owned())
        },
    }
}

/// How a browser context was disposed of.
#[derive(Debug)]
pub enum Disposal {
    Done,
    Failed(String),
    TimedOut,
}

/// The errors of closing.
pub open spec fn closing_errors(router: Option<String>, disposal: Disposal) -> Seq<Seq<char>> {
    let first = match router {
        Some(error) => seq![error@],
        None => Seq::empty(),
    };
    match disposal {
        Disposal::Done => first,
        Disposal::Failed(error) => first.push(error@),
        Disposal::TimedOut => first.push("dispose browser context timed out"@),
    }
}

/// The outcome of closing: every error is told.
pub fn close_result(router: Option<String>, disposal: Disposal) -> (result: Result<(), String>)
    ensures
        match result {
            Ok(_) => closing_errors(router, disposal).len() == 0,
            Err(message) => closing_errors(router, disposal).len() > 0 && message@ == joined(
                closing_errors(router, disposal),
                "; "@,
            ),
        },
{
    let mut errors: Vec<String> = Vec::new();
    if let Some(error) = &router {
        errors.push(error.clone());
    }
    match &disposal {
        Disposal::Done => {},
        Disposal::Failed(error) => {
            errors.push(error.clone());
        },
        Disposal::TimedOut => {
            errors.push("dispose browser context timed out".to_owned());
        },
    }
    assert(texts_view(errors@) =~= closing_errors(router, disposal));
    if errors.len() == 0 {
        Ok(())
    } else {
        Err(join_texts(&errors, "; "))
    }
}

/// What an interactive step leaves is told by the names of its outputs, in order, and its artifact; one that
/// fails is told by its category, without secrets.
pub proof fn interactive_steps_are_told(
    result: Result<Option<String>, StepError>,
    outputs: Outputs,
    redactor: Redactor,
    outcome: Result<InteractiveStepResult, InteractiveStepError>,
    i: int,
)
    requires
        call_ensures(interactive_outcome, (result, &outputs, &redactor), outcome),
    ensures
        outcome is Ok <==> result is Ok,
        result is Ok ==> outcome->Ok_0.artifact == result->Ok_0 && outcome->Ok_0.outputs@.len()
            == outputs@.len() && (0 <= i < outputs@.len() ==> outcome->Ok_0.outputs@[i]@
            == outputs@[i].0),
        result is Err ==> outcome->Err_0.category == result->Err_0.category
            && outcome->Err_0.message@ == redacted(result->Err_0.message@, redactor.secrets@),
{
    if let Ok(done) = outcome {
        let names = texts_view(done.outputs@);
        assert(names.len() == done.outputs@.len());
        if 0 <= i < outputs@.len() {
            assert(names[i] == done.outputs@[i]@);
        }
    }
}

/// A page's address and title are shown without secrets, and no address as an empty one.
pub proof fn pages_are_shown_without_secrets(
    url: Option<String>,
    title: &str,
    redactor: Redactor,
    shown: (String, String),
)
    requires
        call_ensures(shown_page, (url, title, &redactor), shown),
    ensures
        url is Some ==> shown.0@ == redacted(url->0@, redactor.secrets@),
        shown.1@ == redacted(title@, redactor.secrets@),
        url is None && redactor.secrets@.len() == 0 ==> shown.0@.len() == 0,
{
}

/// A whole page is captured only outside of frames, and only if it was asked for.
pub proof fn whole_pages_are_captured_outside_frames(full_page: bool, in_frame: bool, full: bool)
    requires
        call_ensures(captures_full_page, (full_page, in_frame), full),
    ensures
        full <==> full_page && !in_frame,
{
}

/// A browser is available exactly if it runs and is watched.
pub proof fn browsers_are_available_while_they_run(
    status: BrowserStatus,
    error: &str,
    monitored: bool,
    text: Option<String>,
)
    requires
        call_ensures(browser_unavailable, (status, error, monitored), text),
    ensures
        text is None <==> status is Running && monitored,
        status is Failed ==> text->0@ == "Chromium is unavailable: "@ + error@,
{
}

/// A close succeeds exactly if nothing went wrong, and tells all that did, in order.
pub proof fn closes_tell_all_that_went_wrong(
    router: Option<String>,
    disposal: Disposal,
    result: Result<(), String>,
)
    requires
        call_ensures(close_result, (router, disposal), result),
    ensures
        result is Ok <==> router is None && disposal is Done,
        router is Some && disposal is Done ==> result->Err_0@ == router->0@,
        router is None && disposal is Failed ==> result->Err_0@ == disposal->Failed_0@,
        router is Some && disposal is Failed ==> result->Err_0@ == router->0@ + "; "@
            + disposal->Failed_0@,
        router is None && disposal is TimedOut ==> result->Err_0@
            == "dispose browser context timed out"@,
{
    let errors = closing_errors(router, disposal);
    if router is Some && disposal is Failed {
        assert(errors =~= seq![router->0@, disposal->Failed_0@]);
        assert(errors.drop_last() =~= seq![router->0@]);
        assert(joined(seq![router->0@], "; "@) == router->0@);
    }
}

/// A picture is taken up to 67108864 bytes.
pub proof fn pictures_are_bounded(
    bytes: usize,
    result: Result<(), StepError>,
    outside: StepError,
)
    requires
        call_ensures(check_screenshot_size, (bytes,), result),
        call_ensures(crop_outside, (), outside),
    ensures
        result is Ok <==> bytes <= 67_108_864,
        result is Err ==> result->Err_0.category is Protocol,
        outside.category is Protocol,
{
}

} // verus!
