//! What a step asks of the browser, with its runtime values put together.

use crate::flow::{Assertion, ClearTarget, NativeDialogResponse, Operation, SettleCondition};
use crate::guards::value_text;
use crate::json::{Json, JsonValue};
use crate::outputs::{fits, resolve_runtime, store_output, with_output_secrets};
use crate::report::FailureCategory;
use crate::step_error::{plain_error, protocol, StepError};
use crate::text::{join, optional_text, texts_view};
use crate::values::{resolved_text, Outputs, Redactor, Resolved, RuntimeValue};
use vstd::prelude::*;
use vstd::string::*;

verus! {

/// The script that clears the storage of the page.
pub const CLEAR_STORAGE_EXPRESSION: &'static str =
    "(() => { localStorage.clear(); sessionStorage.clear(); return true; })()";

/// The script that deletes the databases of the page.
pub const CLEAR_INDEXEDDB_EXPRESSION: &'static str = "indexedDB.databases().then(databases => Promise.all(
    databases.filter(database => database.name).map(database => new Promise((resolve, reject) => {
        const request = indexedDB.deleteDatabase(database.name);
        request.onsuccess = () => resolve();
        request.onerror = () => reject(request.error);
        request.onblocked = () => reject(new Error(`IndexedDB database ${database.name} is blocked`));
    }))
))";

/// The script that deletes the caches of the page.
pub const CLEAR_CACHE_STORAGE_EXPRESSION: &'static str =
    "caches.keys().then(names => Promise.all(names.map(name => caches.delete(name))))";

/// What must be true of an element before it is used.
#[derive(Debug, Clone, Copy, PartialEq, Eq, Structural)]
pub enum Need {
    Attached,
    Visible,
    Stable,
    Click,
    Editable,
}

/// What a step asks of the browser.
#[derive(Debug)]
#[allow(inconsistent_fields)]
pub enum StepWork {
    Navigate { settle: Option<Need> },
    Click { clicks: i64 },
    ClickPoint,
    Fill { text: String },
    Erase,
    Select { text: String },
    Scroll,
    ScrollUntilVisible,
    Swipe,
    LongPress,
    Await(Need),
    Pause,
    Back,
    SwitchPage,
    SwitchFrame,
    Press,
    Screenshot { file_name: String },
    AnswerDialog { accept: bool, text: Option<String> },
    ClearCookies,
    RunExpression(&'static str),
    ClearServiceWorkers,
    AssertScreenshot,
    RunScript { args: Vec<String>, capture: bool },
    Request { url: String, save_body: bool },
    Assert,
}

/// What must be true of the step's element before the work begins.
pub open spec fn need_of(work: StepWork) -> Option<Need> {
    match work {
        StepWork::Click { .. } => Some(Need::Click),
        StepWork::Fill { .. } => Some(Need::Editable),
        StepWork::Erase => Some(Need::Editable),
        StepWork::Select { .. } => Some(Need::Click),
        StepWork::Swipe => Some(Need::Click),
        StepWork::LongPress => Some(Need::Click),
        StepWork::Await(need) => Some(need),
        StepWork::Press => Some(Need::Click),
        _ => None,
    }
}

impl StepWork {
    /// What must be true of the step's element before the work begins.
    pub fn need(&self) -> (need: Option<Need>)
        ensures
            need == need_of(*self),
    {
        match self {
            StepWork::Click { .. } => Some(Need::Click),
            StepWork::Fill { .. } => Some(Need::Editable),
            StepWork::Erase => Some(Need::Editable),
            StepWork::Select { .. } => Some(Need::Click),
            StepWork::Swipe => Some(Need::Click),
            StepWork::LongPress => Some(Need::Click),
            StepWork::Await(need) => Some(*need),
            StepWork::Press => Some(Need::Click),
            _ => None,
        }
    }
}

/// The texts of a list of values, or what is told of the first output that one lacks.
pub open spec fn value_texts(
    values: Seq<RuntimeValue>,
    outputs: Seq<(Seq<char>, Json)>,
) -> Result<Seq<Seq<char>>, Seq<char>>
    decreases values.len(),
{
    if values.len() == 0 {
        Ok(Seq::empty())
    } else {
        match value_texts(values.drop_last(), outputs) {
            Err(message) => Err(message),
            Ok(before) => match value_text(values.last(), outputs) {
                Err(message) => Err(message),
                Ok(text) => Ok(before.push(text)),
            },
        }
    }
}

proof fn missing_text_stays_missing(
    values: Seq<RuntimeValue>,
    outputs: Seq<(Seq<char>, Json)>,
    at: int,
)
    requires
        0 <= at <= values.len(),
        value_texts(values.take(at), outputs) is Err,
    ensures
        value_texts(values, outputs) == value_texts(values.take(at), outputs),
    decreases values.len() - at,
{
    if at < values.len() {
        assert(values.take(at + 1).drop_last() == values.take(at));
        missing_text_stays_missing(values, outputs, at + 1);
    } else {
        assert(values.take(at) == values);
    }
}

fn resolve_all(values: &Vec<RuntimeValue>, outputs: &Outputs) -> (result: Result<
    Vec<String>,
    StepError,
>)
    ensures
        match result {
            Ok(texts) => value_texts(values@, outputs@) == Ok::<Seq<Seq<char>>, Seq<char>>(
                texts_view(texts@),
            ),
            Err(error) => value_texts(values@, outputs@) is Err && plain_error(
                error,
                FailureCategory::Protocol,
                value_texts(values@, outputs@)->Err_0,
            ),
        },
{
    let mut texts: Vec<String> = Vec::new();
    let mut i: usize = 0;
    assert(values@.take(0) == Seq::<RuntimeValue>::empty());
    assert(texts_view(texts@) == Seq::<Seq<char>>::empty());
    while i < values.len()
        invariant
            i <= values.len(),
            value_texts(values@.take(i as int), outputs@) == Ok::<Seq<Seq<char>>, Seq<char>>(
                texts_view(texts@),
            ),
        decreases values.len() - i,
    {
        proof {
            let taken = values@.take(i + 1);
            assert(taken.drop_last() == values@.take(i as int));
            assert(taken.last() == values@[i as int]);
        }
        match resolve_runtime(&values[i], outputs) {
            Ok(text) => {
                let ghost before = texts@;
                texts.push(text.value);
                assert(texts_view(texts@) == texts_view(before).push(text.value@));
            },
            Err(error) => {
                proof {
                    missing_text_stays_missing(values@, outputs@, i + 1);
                }
                return Err(error);
            },
        }
        i += 1;
    }
    assert(values@.take(i as int) == values@);
    Ok(texts)
}

/// Whether a result is the work of a step that uses one runtime value, or lacks an output for it.
pub open spec fn is_text(
    result: Result<StepWork, StepError>,
    text: Result<Seq<char>, Seq<char>>,
    held: Option<Seq<char>>,
) -> bool {
    match text {
        Ok(text) => result is Ok && held == Some(text),
        Err(message) => result matches Err(error) && plain_error(
            error,
            FailureCategory::Protocol,
            message,
        ),
    }
}

/// Whether a result is what an operation asks for, given the outputs so far and whether a frame is
/// active.
pub open spec fn is_work(
    result: Result<StepWork, StepError>,
    operation: Operation,
    outputs: Seq<(Seq<char>, Json)>,
    in_frame: bool,
) -> bool {
    match operation {
        Operation::Open { settle, .. } => result matches Ok(work) && work == (StepWork::Navigate {
            settle: match settle {
                Some(SettleCondition::Visible(_)) => Some(Need::Visible),
                Some(SettleCondition::Stable(_)) => Some(Need::Stable),
                None => None,
            },
        }),
        Operation::Click { .. } => result matches Ok(work) && work == (StepWork::Click {
            clicks: 1,
        }),
        Operation::ClickPoint { .. } => result matches Ok(work) && work == StepWork::ClickPoint,
        Operation::DoubleClick { .. } => result matches Ok(work) && work == (StepWork::Click {
            clicks: 2,
        }),
        Operation::Fill { value, .. } => is_text(
            result,
            value_text(value, outputs),
            match result {
                Ok(StepWork::Fill { text }) => Some(text@),
                _ => None,
            },
        ),
        Operation::Erase { .. } => result matches Ok(work) && work == StepWork::Erase,
        Operation::Select { value, .. } => is_text(
            result,
            value_text(value, outputs),
            match result {
                Ok(StepWork::Select { text }) => Some(text@),
                _ => None,
            },
        ),
        Operation::Scroll { .. } => result matches Ok(work) && work == StepWork::Scroll,
        Operation::ScrollUntilVisible { .. } => result matches Ok(work) && work
            == StepWork::ScrollUntilVisible,
        Operation::Swipe { .. } => result matches Ok(work) && work == StepWork::Swipe,
        Operation::LongPress { .. } => result matches Ok(work) && work == StepWork::LongPress,
        Operation::WaitUntilVisible { .. } => result matches Ok(work) && work == StepWork::Await(
            Need::Visible,
        ),
        Operation::WaitUntilStable { .. } => result matches Ok(work) && work == StepWork::Await(
            Need::Stable,
        ),
        Operation::Pause { .. } => result matches Ok(work) && work == StepWork::Pause,
        Operation::Back => if in_frame {
            result matches Err(error) && plain_error(
                error,
                FailureCategory::Navigation,
                "back navigation is unsupported inside a frame; switch_frame to main first"@,
            )
        } else {
            result matches Ok(work) && work == StepWork::Back
        },
        Operation::SwitchPage(_) => result matches Ok(work) && work == StepWork::SwitchPage,
        Operation::SwitchFrame(_) => result matches Ok(work) && work == StepWork::SwitchFrame,
        Operation::Press { .. } => result matches Ok(work) && work == StepWork::Press,
        Operation::Screenshot { name, .. } => result matches Ok(StepWork::Screenshot { file_name })
            && file_name@ == name@ + ".png"@,
        Operation::Recording(_) => result matches Err(error) && plain_error(
            error,
            FailureCategory::Protocol,
            "recording controls must be handled by the flow runner"@,
        ),
        Operation::Dialog { action, text } => match text {
            Some(value) => is_text(
                result,
                value_text(value, outputs),
                match result {
                    Ok(StepWork::AnswerDialog { accept, text }) => if accept == (action
                        == NativeDialogResponse::Accept) {
                        optional_text(text)
                    } else {
                        None
                    },
                    _ => None,
                },
            ),
            None => result matches Ok(work) && work == (StepWork::AnswerDialog {
                accept: action == NativeDialogResponse::Accept,
                text: None,
            }),
        },
        Operation::Clear(target) => result matches Ok(work) && work == match target {
            ClearTarget::Cookies => StepWork::ClearCookies,
            ClearTarget::Storage => StepWork::RunExpression(CLEAR_STORAGE_EXPRESSION),
            ClearTarget::Indexeddb => StepWork::RunExpression(CLEAR_INDEXEDDB_EXPRESSION),
            ClearTarget::CacheStorage => StepWork::RunExpression(CLEAR_CACHE_STORAGE_EXPRESSION),
            ClearTarget::ServiceWorkers => StepWork::ClearServiceWorkers,
        },
        Operation::Evaluate { args, save_as, .. } => match value_texts(args@, outputs) {
            Ok(texts) => result matches Ok(StepWork::RunScript { args, capture }) && texts_view(
                args@,
            ) == texts && capture == save_as is Some,
            Err(message) => result matches Err(error) && plain_error(
                error,
                FailureCategory::Protocol,
                message,
            ),
        },
        Operation::Request { url, save_as, .. } => is_text(
            result,
            value_text(url, outputs),
            match result {
                Ok(StepWork::Request { url, save_body }) => if save_body == save_as is Some {
                    Some(url@)
                } else {
                    None
                },
                _ => None,
            },
        ),
        Operation::Assert(Assertion::Screenshot(_)) => result matches Ok(work) && work
            == StepWork::AssertScreenshot,
        Operation::Assert(_) => result matches Ok(work) && work == StepWork::Assert,
    }
}

/// What an operation asks of the browser. Its runtime values are put together before anything is
/// touched.
pub fn plan_step(operation: &Operation, outputs: &Outputs, in_frame: bool) -> (result: Result<
    StepWork,
    StepError,
>)
    ensures
        is_work(result, *operation, outputs@, in_frame),
{
    match operation {
        Operation::Open { settle, .. } => Ok(
            StepWork::Navigate {
                settle: match settle {
                    Some(SettleCondition::Visible(_)) => Some(Need::Visible),
                    Some(SettleCondition::Stable(_)) => Some(Need::Stable),
                    None => None,
                },
            },
        ),
        Operation::Click { .. } => Ok(StepWork::Click { clicks: 1 }),
        Operation::ClickPoint { .. } => Ok(StepWork::ClickPoint),
        Operation::DoubleClick { .. } => Ok(StepWork::Click { clicks: 2 }),
        Operation::Fill { value, .. } => match resolve_runtime(value, outputs) {
            Ok(text) => Ok(StepWork::Fill { text: text.value }),
            Err(error) => Err(error),
        },
        Operation::Erase { .. } => Ok(StepWork::Erase),
        Operation::Select { value, .. } => match resolve_runtime(value, outputs) {
            Ok(text) => Ok(StepWork::Select { text: text.value }),
            Err(error) => Err(error),
        },
        Operation::Scroll { .. } => Ok(StepWork::Scroll),
        Operation::ScrollUntilVisible { .. } => Ok(StepWork::ScrollUntilVisible),
        Operation::Swipe { .. } => Ok(StepWork::Swipe),
        Operation::LongPress { .. } => Ok(StepWork::LongPress),
        Operation::WaitUntilVisible { .. } => Ok(StepWork::Await(Need::Visible)),
        Operation::WaitUntilStable { .. } => Ok(StepWork::Await(Need::Stable)),
        Operation::Pause { .. } => Ok(StepWork::Pause),
        Operation::Back => if in_frame {
            Err(
                StepError::new(
                    FailureCategory::Navigation,
                    "back navigation is unsupported inside a frame; switch_frame to main first",
                ),
            )
        } else {
            Ok(StepWork::Back)
        },
        Operation::SwitchPage(_) => Ok(StepWork::SwitchPage),
        Operation::SwitchFrame(_) => Ok(StepWork::SwitchFrame),
        Operation::Press { .. } => Ok(StepWork::Press),
        Operation::Screenshot { name, .. } => Ok(
            StepWork::Screenshot { file_name: join(name.as_str(), ".png") },
        ),
        Operation::Recording(_) => Err(
            protocol("recording controls must be handled by the flow runner"),
        ),
        Operation::Dialog { action, text } => {
            let accept = *action == NativeDialogResponse::Accept;
            match text {
                Some(value) => match resolve_runtime(value, outputs) {
                    Ok(text) => Ok(StepWork::AnswerDialog { accept, text: Some(text.value) }),
                    Err(error) => Err(error),
                },
                None => Ok(StepWork::AnswerDialog { accept, text: None }),
            }
        },
        Operation::Clear(target) => Ok(
            match target {
                ClearTarget::Cookies => StepWork::ClearCookies,
                ClearTarget::Storage => StepWork::RunExpression(CLEAR_STORAGE_EXPRESSION),
                ClearTarget::Indexeddb => StepWork::RunExpression(CLEAR_INDEXEDDB_EXPRESSION),
                ClearTarget::CacheStorage => StepWork::RunExpression(
                    CLEAR_CACHE_STORAGE_EXPRESSION,
                ),
                ClearTarget::ServiceWorkers => StepWork::ClearServiceWorkers,
            },
        ),
        Operation::Evaluate { args, save_as, .. } => match resolve_all(args, outputs) {
            Ok(args) => Ok(StepWork::RunScript { args, capture: save_as.is_some() }),
            Err(error) => Err(error),
        },
        Operation::Request { url, save_as, .. } => match resolve_runtime(url, outputs) {
            Ok(url) => Ok(StepWork::Request { url: url.value, save_body: save_as.is_some() }),
            Err(error) => Err(error),
        },
        Operation::Assert(Assertion::Screenshot(_)) => Ok(StepWork::AssertScreenshot),
        Operation::Assert(_) => Ok(StepWork::Assert),
    }
}

/// The function that runs a script in the page. A script whose result is not wanted may end in a
/// promise of anything.
pub open spec fn script_text(script: Seq<char>, capture: bool) -> Seq<char> {
    if capture {
        "function(...args) {\n"@ + script + "\n}"@
    } else {
        "async function(...args) { await (async function(...args) {\n"@ + script
            + "\n})(...args); }"@
    }
}

/// The function that runs a script in the page.
pub fn script_function(script: &str, capture: bool) -> (function: String)
    ensures
        function@ == script_text(script@, capture),
{
    let mut function = if capture {
        "function(...args) {\n".to_owned()
    } else {
        "async function(...args) { await (async function(...args) {\n".to_owned()
    };
    function.append(script);
    function.append(if capture { "\n}" } else { "\n})(...args); }" });
    function
}

/// The failure of a script that threw.
pub fn script_failed() -> (error: StepError)
    ensures
        plain_error(error, FailureCategory::Script, "page script failed"@),
{
    StepError::new(FailureCategory::Script, "page script failed")
}

/// Stores what a script or a request brought, where the step wants it. A script that was to bring
/// something and did not has failed.
pub fn keep_script_result(
    outputs: &mut Outputs,
    redactor: &mut Redactor,
    save_as: &Option<String>,
    value: Option<JsonValue>,
) -> (result: Result<(), StepError>)
    ensures
        match (*save_as, value) {
            (None, _) => result is Ok && *final(outputs) == *old(outputs) && *final(redactor)
                == *old(redactor),
            (Some(name), None) => result matches Err(error) && plain_error(
                error,
                FailureCategory::Protocol,
                "page script returned no JSON-serializable value"@,
            ) && *final(outputs) == *old(outputs) && *final(redactor) == *old(redactor),
            (Some(name), Some(value)) => {
                &&& result is Ok == fits(value@)
                &&& result is Ok ==> final(outputs)@ == crate::json::with_field(
                    old(outputs)@,
                    name@,
                    value@,
                ) && final(redactor).secrets@ == with_output_secrets(
                    old(redactor).secrets@,
                    value@,
                )
                &&& result matches Err(error) ==> plain_error(
                    error,
                    FailureCategory::Protocol,
                    "runtime output exceeds the runtime value size limit"@,
                ) && *final(outputs) == *old(outputs) && *final(redactor) == *old(redactor)
            },
        },
{
    match save_as {
        None => Ok(()),
        Some(name) => match value {
            None => Err(protocol("page script returned no JSON-serializable value")),
            Some(value) => store_output(outputs, redactor, name.as_str(), value),
        },
    }
}

/// Whether an answer of the page to an expression is the given value, or why there is none.
pub open spec fn is_answer(
    result: Result<JsonValue, StepError>,
    exception: Option<Seq<char>>,
    value: Option<Json>,
    threw: Seq<char>,
    nothing: Seq<char>,
) -> bool {
    match (exception, value) {
        (Some(text), _) => result matches Err(error) && plain_error(
            error,
            FailureCategory::Protocol,
            threw + text,
        ),
        (None, None) => result matches Err(error) && plain_error(
            error,
            FailureCategory::Protocol,
            nothing,
        ),
        (None, Some(value)) => result matches Ok(held) && held@ == value,
    }
}

/// The model of an optional value.
pub open spec fn optional_json(value: Option<JsonValue>) -> Option<Json> {
    match value {
        Some(value) => Some(value@),
        None => None,
    }
}

/// What an expression evaluated in the page gave.
pub fn expression_answer(exception: Option<&str>, value: Option<JsonValue>) -> (result: Result<
    JsonValue,
    StepError,
>)
    ensures
        is_answer(
            result,
            match exception {
                Some(text) => Some(text@),
                None => None,
            },
            optional_json(value),
            "page expression threw: "@,
            "page expression returned no value"@,
        ),
{
    if let Some(text) = exception {
        let message = join("page expression threw: ", text);
        return Err(protocol(message.as_str()));
    }
    match value {
        Some(value) => Ok(value),
        None => Err(protocol("page expression returned no value")),
    }
}

/// What a function called on an element gave.
pub fn function_answer(exception: Option<&str>, value: Option<JsonValue>) -> (result: Result<
    JsonValue,
    StepError,
>)
    ensures
        is_answer(
            result,
            match exception {
                Some(text) => Some(text@),
                None => None,
            },
            optional_json(value),
            "page function threw: "@,
            "page function returned no value"@,
        ),
{
    if let Some(text) = exception {
        let message = join("page function threw: ", text);
        return Err(protocol(message.as_str()));
    }
    match value {
        Some(value) => Ok(value),
        None => Err(protocol("page function returned no value")),
    }
}

/// Where an expression is evaluated.
#[derive(Debug, Clone, Copy, PartialEq, Eq, Structural)]
pub enum Place {
    Target,
    FrameOfTarget(i64),
    FrameOfPage(i64),
}

/// Chooses where an expression is evaluated: in the target itself, or in the context of the active
/// frame, which must have one.
pub fn evaluation_place(
    in_local_frame: bool,
    out_of_process: bool,
    context: Option<i64>,
) -> (result: Result<Place, StepError>)
    ensures
        if !in_local_frame {
            result == Ok::<Place, StepError>(Place::Target)
        } else {
            match context {
                Some(id) => result == Ok::<Place, StepError>(
                    if out_of_process {
                        Place::FrameOfTarget(id)
                    } else {
                        Place::FrameOfPage(id)
                    },
                ),
                None => result matches Err(error) && plain_error(
                    error,
                    FailureCategory::Protocol,
                    "active frame has no executable context"@,
                ),
            }
        },
{
    if !in_local_frame {
        return Ok(Place::Target);
    }
    match context {
        Some(id) => Ok(
            if out_of_process {
                Place::FrameOfTarget(id)
            } else {
                Place::FrameOfPage(id)
            },
        ),
        None => Err(protocol("active frame has no executable context")),
    }
}

/// What a step waits for in its element: one that is clicked, chosen from, swiped, pressed or held has to take
/// the click; one whose text changes has to be editable.
pub proof fn steps_wait_for_what_they_need(work: StepWork, need: Option<Need>)
    requires
        call_ensures(StepWork::need, (&work,), need),
    ensures
        work is Click || work is Select || work is Swipe || work is LongPress || work is Press
            <==> need == Some(Need::Click) && !(work is Await),
        work is Fill || work is Erase <==> need == Some(Need::Editable) && !(work is Await),
        work matches StepWork::Await(wanted) ==> need == Some(wanted),
        need is None <==> !(work is Click || work is Select || work is Swipe || work is LongPress
            || work is Press || work is Fill || work is Erase || work is Await),
{
}

/// A click clicks once, a double click twice. Opening settles as it was asked to; waiting waits for what it
/// names; a picture is kept under its name as a PNG file.
pub proof fn steps_do_what_they_say(
    operation: Operation,
    outputs: Outputs,
    in_frame: bool,
    result: Result<StepWork, StepError>,
)
    requires
        call_ensures(plan_step, (&operation, &outputs, in_frame), result),
    ensures
        operation is Click ==> result == Ok::<StepWork, StepError>(StepWork::Click { clicks: 1 }),
        operation is DoubleClick ==> result == Ok::<StepWork, StepError>(
            StepWork::Click { clicks: 2 },
        ),
        operation matches Operation::Open { settle, .. } ==> match settle {
            Some(SettleCondition::Visible(_)) => result == Ok::<StepWork, StepError>(
                StepWork::Navigate { settle: Some(Need::Visible) },
            ),
            Some(SettleCondition::Stable(_)) => result == Ok::<StepWork, StepError>(
                StepWork::Navigate { settle: Some(Need::Stable) },
            ),
            None => result == Ok::<StepWork, StepError>(StepWork::Navigate { settle: None }),
        },
        operation is WaitUntilVisible ==> result == Ok::<StepWork, StepError>(
            StepWork::Await(Need::Visible),
        ),
        operation is WaitUntilStable ==> result == Ok::<StepWork, StepError>(
            StepWork::Await(Need::Stable),
        ),
        operation is ClickPoint ==> result matches Ok(StepWork::ClickPoint),
        operation is Erase ==> result matches Ok(StepWork::Erase),
        operation is Scroll ==> result matches Ok(StepWork::Scroll),
        operation is ScrollUntilVisible ==> result matches Ok(StepWork::ScrollUntilVisible),
        operation is Swipe ==> result matches Ok(StepWork::Swipe),
        operation is LongPress ==> result matches Ok(StepWork::LongPress),
        operation is Pause ==> result matches Ok(StepWork::Pause),
        operation is SwitchPage ==> result matches Ok(StepWork::SwitchPage),
        operation is SwitchFrame ==> result matches Ok(StepWork::SwitchFrame),
        operation is Press ==> result matches Ok(StepWork::Press),
        operation matches Operation::Screenshot { name, .. } ==> (result matches Ok(
            StepWork::Screenshot { file_name },
        ) && file_name@ == name@ + ".png"@),
        operation matches Operation::Assert(assertion) ==> (assertion is Screenshot <==> result
            matches Ok(StepWork::AssertScreenshot)) && (!(assertion is Screenshot) <==> result
            matches Ok(StepWork::Assert)),
        operation is Back && in_frame ==> result is Err && result->Err_0.category is Navigation,
        operation is Back && !in_frame ==> result matches Ok(StepWork::Back),
        operation is Recording ==> result is Err,
{
}

/// A step that takes a value takes the text that the value resolves to, and fails exactly if an output in it is
/// missing.
pub proof fn steps_take_resolved_texts(
    operation: Operation,
    outputs: Outputs,
    in_frame: bool,
    result: Result<StepWork, StepError>,
    value: RuntimeValue,
    resolved: Result<Resolved<String>, String>,
)
    requires
        call_ensures(plan_step, (&operation, &outputs, in_frame), result),
        call_ensures(RuntimeValue::resolve, (&value, &outputs), resolved),
        match operation {
            Operation::Fill { value: held, .. } => held == value,
            Operation::Select { value: held, .. } => held == value,
            Operation::Dialog { text, .. } => text == Some(value),
            Operation::Request { url, .. } => url == value,
            _ => false,
        },
    ensures
        result is Ok <==> resolved is Ok,
        result is Err ==> result->Err_0.category is Protocol,
        result matches Ok(work) ==> match work {
            StepWork::Fill { text } => operation is Fill && text@ == resolved->Ok_0.value@,
            StepWork::Select { text } => operation is Select && text@ == resolved->Ok_0.value@,
            StepWork::AnswerDialog { accept, text } => text is Some && text->0@
                == resolved->Ok_0.value@ && (operation matches Operation::Dialog { action, .. }
                && accept == (action is Accept)),
            StepWork::Request { url, save_body } => url@ == resolved->Ok_0.value@ && (operation
                matches Operation::Request { save_as, .. } && save_body == (save_as is Some)),
            _ => false,
        },
{
}

/// Clearing runs the expression for what is cleared, and a dialog without a text is answered without one.
pub proof fn clearing_is_told_apart(
    operation: Operation,
    outputs: Outputs,
    in_frame: bool,
    result: Result<StepWork, StepError>,
)
    requires
        call_ensures(plan_step, (&operation, &outputs, in_frame), result),
    ensures
        operation matches Operation::Clear(target) ==> match target {
            ClearTarget::Cookies => result matches Ok(StepWork::ClearCookies),
            ClearTarget::ServiceWorkers => result matches Ok(StepWork::ClearServiceWorkers),
            ClearTarget::Storage => result == Ok::<StepWork, StepError>(
                StepWork::RunExpression(CLEAR_STORAGE_EXPRESSION),
            ),
            ClearTarget::Indexeddb => result == Ok::<StepWork, StepError>(
                StepWork::RunExpression(CLEAR_INDEXEDDB_EXPRESSION),
            ),
            ClearTarget::CacheStorage => result == Ok::<StepWork, StepError>(
                StepWork::RunExpression(CLEAR_CACHE_STORAGE_EXPRESSION),
            ),
        },
        operation matches Operation::Dialog { action, text } ==> text is None ==> result == Ok::<
            StepWork,
            StepError,
        >(StepWork::AnswerDialog { accept: action is Accept, text: None }),
{
}

/// The arguments of a script are the texts of its values, one for one, and it is captured exactly if it is
/// saved.
pub proof fn scripts_get_the_texts_of_their_values(
    operation: Operation,
    outputs: Outputs,
    result: Result<StepWork, StepError>,
    i: int,
)
    requires
        call_ensures(plan_step, (&operation, &outputs, false), result),
    ensures
        operation matches Operation::Evaluate { args, save_as, .. } ==> (result matches Ok(work)
            ==> (work matches StepWork::RunScript { args: texts, capture } && texts@.len()
            == args@.len() && capture == (save_as is Some) && (0 <= i < args@.len()
            ==> resolved_text(args@[i].parts@, outputs@) == Ok::<Seq<char>, Seq<char>>(
            texts@[i]@,
        )))),
{
    if let Operation::Evaluate { args, .. } = operation {
        if let Ok(StepWork::RunScript { args: texts, .. }) = result {
            texts_are_of_their_values(args@, outputs@, i);
            assert(texts_view(texts@).len() == texts@.len());
        }
    }
}

proof fn texts_are_of_their_values(
    values: Seq<RuntimeValue>,
    outputs: Seq<(Seq<char>, Json)>,
    i: int,
)
    requires
        value_texts(values, outputs) is Ok,
    ensures
        value_texts(values, outputs)->Ok_0.len() == values.len(),
        0 <= i < values.len() ==> value_text(values[i], outputs) == Ok::<Seq<char>, Seq<char>>(
            value_texts(values, outputs)->Ok_0[i],
        ),
    decreases values.len(),
{
    if values.len() > 0 {
        texts_are_of_their_values(values.drop_last(), outputs, i);
    }
}

/// An answer of the page is its value, unless it threw or gave none.
pub proof fn answers_are_values(
    exception: Option<&str>,
    value: Option<JsonValue>,
    expression: Result<JsonValue, StepError>,
    function: Result<JsonValue, StepError>,
)
    requires
        call_ensures(expression_answer, (exception, value), expression),
        call_ensures(function_answer, (exception, value), function),
    ensures
        expression is Ok <==> exception is None && value is Some,
        function is Ok <==> exception is None && value is Some,
        exception is None && value is Some ==> expression->Ok_0@ == value->0@ && function->Ok_0@
            == value->0@,
        exception is Some ==> expression->Err_0.message@ == "page expression threw: "@
            + exception->0@ && function->Err_0.message@ == "page function threw: "@ + exception->0@,
        expression is Err ==> expression->Err_0.category is Protocol,
        function is Err ==> function->Err_0.category is Protocol,
{
}

/// A script runs in the page itself, or in the frame's own context, which there has to be.
pub proof fn scripts_run_where_the_frame_is(
    in_local_frame: bool,
    out_of_process: bool,
    context: Option<i64>,
    result: Result<Place, StepError>,
)
    requires
        call_ensures(evaluation_place, (in_local_frame, out_of_process, context), result),
    ensures
        result is Err <==> in_local_frame && context is None,
        result matches Ok(Place::Target) <==> !in_local_frame,
        in_local_frame && context is Some && out_of_process ==> result == Ok::<Place, StepError>(
            Place::FrameOfTarget(context->0),
        ),
        in_local_frame && context is Some && !out_of_process ==> result == Ok::<Place, StepError>(
            Place::FrameOfPage(context->0),
        ),
{
}

/// A script stands in its function as it is; one whose result is not kept is awaited and gives nothing.
pub proof fn scripts_stand_in_their_function(
    script: &str,
    kept: String,
    dropped: String,
)
    requires
        call_ensures(script_function, (script, true), kept),
        call_ensures(script_function, (script, false), dropped),
    ensures
        kept@ == "function(...args) {\n"@ + script@ + "\n}"@,
        dropped@ == "async function(...args) { await (async function(...args) {\n"@ + script@
            + "\n})(...args); }"@,
{
}

/// What a script gives is kept where it is to be kept, and only there; a script that is to give something and
/// does not has failed.
pub proof fn script_results_are_kept_where_asked(
    outputs: &mut Outputs,
    redactor: &mut Redactor,
    save_as: Option<String>,
    value: Option<JsonValue>,
    result: Result<(), StepError>,
)
    requires
        call_ensures(keep_script_result, (outputs, redactor, &save_as, value), result),
    ensures
        save_as is None ==> result is Ok && *final(outputs) == *old(outputs) && *final(redactor)
            == *old(redactor),
        save_as is Some && value is None ==> result is Err && *final(outputs) == *old(outputs),
        save_as is Some && value is Some && result is Ok ==> crate::json::field_of(
            final(outputs)@,
            save_as->0@,
        ) == Some(value->0@),
        result is Err ==> *final(outputs) == *old(outputs) && result->Err_0.category is Protocol,
{
    if save_as is Some && value is Some {
        crate::json::set_field_reads_back(old(outputs)@, save_as->0@, value->0@, save_as->0@);
    }
}

/// A script that throws is a failure of the script.
pub proof fn thrown_scripts_are_told(error: StepError)
    requires
        call_ensures(script_failed, (), error),
    ensures
        error.category is Script && !error.deadline_based && error.last_observed is None,
{
}

} // verus!
