//! What a flow run reports: status, failures, artifacts and the process exit code.

use vstd::prelude::*;
use vstd::string::*;

verus! {

/// The text that stands for a withheld secret.
pub const REDACTED: &'static str = "[REDACTED]";

/// Where a failure comes from.
#[derive(Debug, Clone, Copy, PartialEq, Eq, Structural)]
pub enum FailureCategory {
    BrowserLaunch,
    BrowserCrash,
    Protocol,
    Navigation,
    Timeout,
    Locator,
    Actionability,
    Assertion,
    Script,
    Request,
    Recording,
}

impl FailureCategory {
    /// Whether a failure of this category ends an interactive session.
    pub open spec fn spec_fatal(self) -> bool {
        ||| self is BrowserLaunch
        ||| self is BrowserCrash
        ||| self is Protocol
        ||| self is Recording
    }

    /// Whether a failure of this category ends an interactive session.
    pub fn is_fatal(self) -> (fatal: bool)
        ensures
            fatal == self.spec_fatal(),
    {
        match self {
            FailureCategory::BrowserLaunch
            | FailureCategory::BrowserCrash
            | FailureCategory::Protocol
            | FailureCategory::Recording => true,
            _ => false,
        }
    }

    /// The category's name in lower case.
    pub open spec fn label(self) -> Seq<char> {
        match self {
            FailureCategory::BrowserLaunch => "browserlaunch"@,
            FailureCategory::BrowserCrash => "browsercrash"@,
            FailureCategory::Protocol => "protocol"@,
            FailureCategory::Navigation => "navigation"@,
            FailureCategory::Timeout => "timeout"@,
            FailureCategory::Locator => "locator"@,
            FailureCategory::Actionability => "actionability"@,
            FailureCategory::Assertion => "assertion"@,
            FailureCategory::Script => "script"@,
            FailureCategory::Request => "request"@,
            FailureCategory::Recording => "recording"@,
        }
    }

    /// The category's name in lower case.
    pub fn name(self) -> (name: &'static str)
        ensures
            name@ == self.label(),
    {
        match self {
            FailureCategory::BrowserLaunch => "browserlaunch",
            FailureCategory::BrowserCrash => "browsercrash",
            FailureCategory::Protocol => "protocol",
            FailureCategory::Navigation => "navigation",
            FailureCategory::Timeout => "timeout",
            FailureCategory::Locator => "locator",
            FailureCategory::Actionability => "actionability",
            FailureCategory::Assertion => "assertion",
            FailureCategory::Script => "script",
            FailureCategory::Request => "request",
            FailureCategory::Recording => "recording",
        }
    }
}

/// How a flow ended.
#[derive(Debug, Clone, Copy, PartialEq, Eq, Structural)]
pub enum FlowStatus {
    Passed,
    Failed,
    Interrupted,
}

/// How the process ends.
#[derive(Debug, Clone, Copy, PartialEq, Eq, Structural)]
pub enum ExitCode {
    Success,
    InvalidInput,
    Automation,
    Infrastructure,
    Interrupted,
}

impl ExitCode {
    /// The number handed to the operating system.
    pub fn code(self) -> (code: u8)
        ensures
            code == match self {
                ExitCode::Success => 0u8,
                ExitCode::InvalidInput => 2u8,
                ExitCode::Automation => 3u8,
                ExitCode::Infrastructure => 4u8,
                ExitCode::Interrupted => 130u8,
            },
    {
        match self {
            ExitCode::Success => 0,
            ExitCode::InvalidInput => 2,
            ExitCode::Automation => 3,
            ExitCode::Infrastructure => 4,
            ExitCode::Interrupted => 130,
        }
    }
}

/// Text that may be shown: free of secrets, or the mark that stands for one.
#[derive(Debug, Clone, PartialEq, Eq)]
pub struct SafeText {
    text: String,
}

impl View for SafeText {
    type V = Seq<char>;

    closed spec fn view(&self) -> Seq<char> {
        self.text@
    }
}

impl SafeText {
    /// Text that holds no secret.
    pub fn public(text: String) -> (safe: SafeText)
        ensures
            safe@ == text@,
    {
        SafeText { text }
    }

    /// The mark that stands for a secret.
    pub fn secret() -> (safe: SafeText)
        ensures
            safe@ == REDACTED@,
    {
        SafeText { text: REDACTED.to_owned() }
    }

    /// The text to show.
    pub fn as_str(&self) -> (text: &str)
        ensures
            text@ == self@,
    {
        self.text.as_str()
    }
}

/// The characters of an optional safe text.
pub open spec fn optional_safe(text: Option<SafeText>) -> Option<Seq<char>> {
    match text {
        Some(text) => Some(text@),
        None => None,
    }
}

/// Which step a failure belongs to.
#[derive(Debug, Clone, PartialEq, Eq)]
pub struct StepContext {
    pub number: usize,
    pub source: Option<String>,
    pub source_step: Option<usize>,
    pub id: Option<String>,
    pub operation: String,
    pub locator: Option<SafeText>,
}

/// One failure of a flow.
#[derive(Debug, Clone, PartialEq, Eq)]
pub struct Failure {
    pub category: FailureCategory,
    pub message: SafeText,
    pub step: Option<StepContext>,
    pub current_url: Option<SafeText>,
    pub timeout_ms: Option<u64>,
    pub last_observed: Option<SafeText>,
}

impl Failure {
    /// A failure with nothing but its category and message.
    pub fn new(category: FailureCategory, message: SafeText) -> (failure: Failure)
        ensures
            failure == (Failure {
                category,
                message,
                step: None,
                current_url: None,
                timeout_ms: None,
                last_observed: None,
            }),
    {
        Failure {
            category,
            message,
            step: None,
            current_url: None,
            timeout_ms: None,
            last_observed: None,
        }
    }
}

/// Where a flow left its files.
#[derive(Debug, Clone, PartialEq, Eq)]
pub struct ArtifactPaths {
    pub directory: String,
    pub screenshots: Vec<String>,
    pub failure_screenshot: Option<String>,
    pub visual_actual: Option<String>,
    pub visual_diff: Option<String>,
    pub recording: Option<String>,
    pub partial_recording: Option<String>,
}

/// The outcome of one flow.
#[derive(Debug, Clone, PartialEq, Eq)]
pub struct FlowReport {
    pub name: String,
    pub path: String,
    pub duration_ms: u64,
    pub status: FlowStatus,
    pub failures: Vec<Failure>,
    pub warnings: Vec<SafeText>,
    pub artifacts: ArtifactPaths,
}

/// Whether some failure is fatal.
pub open spec fn any_fatal(failures: Seq<Failure>) -> bool {
    exists|i: int| 0 <= i < failures.len() && (#[trigger] failures[i]).category.spec_fatal()
}

impl FlowReport {
    /// Whether a failure of the report ends an interactive session.
    pub fn has_fatal_failure(&self) -> (fatal: bool)
        ensures
            fatal == any_fatal(self.failures@),
    {
        let mut i: usize = 0;
        while i < self.failures.len()
            invariant
                i <= self.failures.len(),
                forall|k: int|
                    0 <= k < i ==> !(#[trigger] self.failures@[k]).category.spec_fatal(),
            decreases self.failures.len() - i,
        {
            if self.failures[i].category.is_fatal() {
                return true;
            }
            i += 1;
        }
        false
    }

    /// The exit code: an infrastructure failure outweighs everything else.
    pub fn exit_code(&self) -> (code: ExitCode)
        ensures
            code == if any_fatal(self.failures@) {
                ExitCode::Infrastructure
            } else {
                match self.status {
                    FlowStatus::Interrupted => ExitCode::Interrupted,
                    FlowStatus::Failed => ExitCode::Automation,
                    FlowStatus::Passed => ExitCode::Success,
                }
            },
    {
        if self.has_fatal_failure() {
            return ExitCode::Infrastructure;
        }
        match self.status {
            FlowStatus::Interrupted => ExitCode::Interrupted,
            FlowStatus::Failed => ExitCode::Automation,
            FlowStatus::Passed => ExitCode::Success,
        }
    }
}

/// The status of a flow that ended with the given failures.
pub open spec fn status_of(failures: nat, interrupted: bool) -> FlowStatus {
    if interrupted {
        FlowStatus::Interrupted
    } else if failures == 0 {
        FlowStatus::Passed
    } else {
        FlowStatus::Failed
    }
}

/// Failures of the browser, the protocol and the recording are the infrastructure's; all others are the
/// automation's.
pub proof fn infrastructure_failures_are_fatal(category: FailureCategory, fatal: bool)
    requires
        call_ensures(FailureCategory::is_fatal, (category,), fatal),
    ensures
        fatal <==> category is BrowserLaunch || category is BrowserCrash || category is Protocol
            || category is Recording,
{
}

/// A run exits with zero exactly if it passed without a failure of the infrastructure, with four if there was
/// one, whatever else there was, with 130 if it was interrupted, and else with three.
pub proof fn runs_exit_by_what_failed(report: FlowReport, exit: ExitCode, code: u8, i: int)
    requires
        call_ensures(FlowReport::exit_code, (&report,), exit),
        call_ensures(ExitCode::code, (exit,), code),
    ensures
        0 <= i < report.failures@.len() && (report.failures@[i].category is BrowserLaunch
            || report.failures@[i].category is BrowserCrash || report.failures@[i].category is Protocol
            || report.failures@[i].category is Recording) ==> code == 4,
        code == 0 || code == 3 || code == 4 || code == 130,
        code == 0 ==> report.status is Passed,
        code == 130 ==> report.status is Interrupted,
        code == 3 ==> report.status is Failed,
        report.failures@.len() == 0 ==> (code == 0 <==> report.status is Passed) && (code == 3
            <==> report.status is Failed) && (code == 130 <==> report.status is Interrupted),
        (forall|k: int|
            0 <= k < report.failures@.len() ==> {
                let category = (#[trigger] report.failures@[k]).category;
                !(category is BrowserLaunch || category is BrowserCrash || category is Protocol
                    || category is Recording)
            }) ==> code != 4,
{
    if 0 <= i < report.failures@.len() && (report.failures@[i].category is BrowserLaunch
        || report.failures@[i].category is BrowserCrash || report.failures@[i].category is Protocol
        || report.failures@[i].category is Recording) {
        assert(report.failures@[i].category.spec_fatal());
    }
}

/// Invalid input exits with two.
pub proof fn invalid_input_exits_with_two(code: u8)
    requires
        call_ensures(ExitCode::code, (ExitCode::InvalidInput,), code),
    ensures
        code == 2,
{
}

/// No two categories share a name.
pub proof fn category_names_are_distinct(left: FailureCategory, right: FailureCategory)
    ensures
        left.label() == right.label() ==> left == right,
{
    reveal_strlit("browserlaunch");
    reveal_strlit("browsercrash");
    reveal_strlit("protocol");
    reveal_strlit("navigation");
    reveal_strlit("timeout");
    reveal_strlit("locator");
    reveal_strlit("actionability");
    reveal_strlit("assertion");
    reveal_strlit("script");
    reveal_strlit("request");
    reveal_strlit("recording");
    let one = left.label();
    let other = right.label();
    if one == other {
        assert(one.len() == other.len());
        assert(one[0] == other[0]);
        assert(one[1] == other[1]);
        assert(one[3] == other[3]);
        assert(one[2] == other[2]);
        assert(one[4] == other[4]);
    }
}

/// A secret is shown as the mark, whatever it is, and a public text as it is.
pub proof fn secrets_are_shown_as_the_mark(text: String, public: SafeText, secret: SafeText)
    requires
        call_ensures(SafeText::public, (text,), public),
        call_ensures(SafeText::secret, (), secret),
    ensures
        public@ == text@,
        secret@ == "[REDACTED]"@,
{
}

} // verus!
