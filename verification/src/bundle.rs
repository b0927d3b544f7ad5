//! Bundles: what a session exports, and what is left of it when it closes. Each course of events is
//! laid out as a machine from state and event to state and action.

use crate::journal::{single, single_value, JournalEvent};
use crate::json::{
    field, fields_view, gathered, precedes, text_less, text_less_is_total, text_less_is_transitive,
    text_list, text_value, Json, JsonValue,
};
use crate::paths::{extension, file_name, join_path, joined_path, path_extension, path_name};
use crate::recorder::{recording_fields, SessionRecordingFinish};
use crate::replay::{export_error_text, is_safe_bundle_name, safe_bundle_name, ExportError};
use crate::session::{CloseResult, CommandError, ErrorCode, Message};
use crate::text::{same_text, texts_view};
use crate::wire::list_json;
use vstd::prelude::*;
use vstd::string::*;

verus! {

/// The file of a bundle that replays the session.
pub const REPLAY_NAME: &'static str = "replay.yaml";

/// The file of the journal of a session.
pub const JOURNAL_NAME: &'static str = "session.ndjson";

/// The file of the report of a session.
pub const REPORT_NAME: &'static str = "report.json";

/// Whether texts are in order, each possibly more than once.
pub open spec fn in_text_order(texts: Seq<Seq<char>>) -> bool {
    forall|i: int, j: int|
        0 <= i < j < texts.len() ==> !text_less(#[trigger] texts[j], #[trigger] texts[i])
}

proof fn not_less_is_transitive(first: Seq<char>, second: Seq<char>, third: Seq<char>)
    requires
        !text_less(second, first),
        !text_less(third, second),
    ensures
        !text_less(third, first),
{
    if text_less(third, first) {
        text_less_is_total(first, second);
        if first != second {
            text_less_is_transitive(third, first, second);
        }
    }
}

/// Texts in order, each as often as before.
pub fn sort_texts(texts: Vec<String>) -> (sorted: Vec<String>)
    ensures
        in_text_order(texts_view(sorted@)),
        texts_view(sorted@).to_multiset() == texts_view(texts@).to_multiset(),
{
    broadcast use vstd::seq_lib::group_to_multiset_ensures;

    let ghost all = texts@;
    let mut sorted: Vec<String> = Vec::new();
    assert(texts_view(all).take(0) =~= texts_view(sorted@));
    for text in it: texts
        invariant
            it.seq() == all,
            in_text_order(texts_view(sorted@)),
            texts_view(sorted@).to_multiset() == texts_view(all).take(
                it.index() as int,
            ).to_multiset(),
    {
        let ghost i = it.index() as int;
        let ghost before = texts_view(sorted@);
        let mut at: usize = sorted.len();
        while at > 0 && precedes(text.as_str(), sorted[at - 1].as_str())
            invariant
                at <= sorted.len(),
                before == texts_view(sorted@),
                in_text_order(before),
                forall|k: int| at <= k < before.len() ==> text_less(text@, #[trigger] before[k]),
            decreases at,
        {
            assert(before[at - 1] == sorted@[at - 1]@);
            at -= 1;
        }
        proof {
            let after = before.insert(at as int, text@);
            if at > 0 {
                assert(before[at - 1] == sorted@[at - 1]@);
            }
            assert forall|a: int, b: int| 0 <= a < b < after.len() implies !text_less(
                #[trigger] after[b],
                #[trigger] after[a],
            ) by {
                let left = if a < at {
                    a
                } else {
                    a - 1
                };
                let right = if b < at {
                    b
                } else {
                    b - 1
                };
                if a != at && b != at {
                    assert(after[a] == before[left]);
                    assert(after[b] == before[right]);
                } else if a == at {
                    text_less_is_total(text@, before[right]);
                } else {
                    if a < at - 1 {
                        assert(!text_less(before[at - 1], before[a]));
                        not_less_is_transitive(before[a], before[at - 1], text@);
                    }
                }
            }
            assert(texts_view(all).take(i + 1) =~= texts_view(all).take(i).push(text@));
        }
        let ghost told = text@;
        sorted.insert(at, text);
        proof {
            assert(texts_view(sorted@) =~= before.insert(at as int, told));
            vstd::seq_lib::to_multiset_insert(before, at as int, told);
            vstd::seq_lib::to_multiset_build(texts_view(all).take(i), told);
        }
    }
    assert(texts_view(all).take(all.len() as int) =~= texts_view(all));
    sorted
}

/// Texts without those that repeat the one before.
pub open spec fn without_repeats(texts: Seq<Seq<char>>) -> Seq<Seq<char>>
    decreases texts.len(),
{
    if texts.len() == 0 {
        texts
    } else {
        let before = without_repeats(texts.drop_last());
        if before.len() > 0 && before.last() == texts.last() {
            before
        } else {
            before.push(texts.last())
        }
    }
}

fn drop_repeats(texts: Vec<String>) -> (kept: Vec<String>)
    ensures
        texts_view(kept@) == without_repeats(texts_view(texts@)),
{
    let ghost all = texts_view(texts@);
    let mut kept: Vec<String> = Vec::new();
    assert(all.take(0) =~= Seq::<Seq<char>>::empty());
    assert(texts_view(kept@) =~= Seq::<Seq<char>>::empty());
    for text in it: texts
        invariant
            texts_view(it.seq()) == all,
            texts_view(kept@) == without_repeats(all.take(it.index() as int)),
    {
        let ghost i = it.index() as int;
        let ghost before = texts_view(kept@);
        proof {
            assert(all.take(i + 1).drop_last() == all.take(i));
            assert(all.take(i + 1).last() == text@);
        }
        let len = kept.len();
        let repeats = len > 0 && same_text(kept[len - 1].as_str(), text.as_str());
        assert(len > 0 ==> before.last() == kept@[len - 1]@);
        if !repeats {
            kept.push(text);
            assert(texts_view(kept@) =~= before.push(text@));
        }
    }
    assert(all.take(all.len() as int) == all);
    kept
}

/// Whether warnings are those of a session that closed and of its recording, in order and each once.
pub open spec fn merges(
    merged: Seq<Seq<char>>,
    warnings: Seq<Seq<char>>,
    recording: Seq<Seq<char>>,
) -> bool {
    exists|sorted: Seq<Seq<char>>|
        {
            &&& in_text_order(sorted)
            &&& sorted.to_multiset() == (warnings + recording).to_multiset()
            &&& merged == #[trigger] without_repeats(sorted)
        }
}

/// The warnings of a session that closed and of its recording, in order and each once.
pub fn merged_warnings(close: &CloseResult) -> (merged: Vec<String>)
    ensures
        merges(
            texts_view(merged@),
            texts_view(close.warnings@),
            texts_view(close.recording.warnings@),
        ),
{
    let mut all: Vec<String> = Vec::new();
    append_texts(&mut all, &close.warnings);
    append_texts(&mut all, &close.recording.warnings);
    assert(texts_view(all@) =~= texts_view(close.warnings@) + texts_view(
        close.recording.warnings@,
    ));
    let sorted = sort_texts(all);
    drop_repeats(sorted)
}

fn append_texts(texts: &mut Vec<String>, more: &Vec<String>)
    ensures
        texts_view(final(texts)@) == texts_view(old(texts)@) + texts_view(more@),
{
    let ghost before = texts_view(texts@);
    let mut i: usize = 0;
    assert(before =~= before + texts_view(more@).take(0));
    while i < more.len()
        invariant
            i <= more.len(),
            texts_view(texts@) == before + texts_view(more@).take(i as int),
        decreases more.len() - i,
    {
        let ghost between = texts_view(texts@);
        texts.push(more[i].clone());
        assert(texts_view(texts@) =~= between.push(more@[i as int]@));
        assert(texts_view(more@).take(i + 1) =~= texts_view(more@).take(i as int).push(
            more@[i as int]@,
        ));
        assert(texts_view(texts@) =~= before + texts_view(more@).take(i + 1));
        i += 1;
    }
    assert(texts_view(more@).take(i as int) =~= texts_view(more@));
}

proof fn repeats_are_dropped(texts: Seq<Seq<char>>)
    requires
        in_text_order(texts),
    ensures
        forall|i: int, j: int|
            0 <= i < j < without_repeats(texts).len() ==> text_less(
                #[trigger] without_repeats(texts)[i],
                #[trigger] without_repeats(texts)[j],
            ),
        forall|text: Seq<char>| #[trigger]
            without_repeats(texts).contains(text) <==> texts.contains(text),
        texts.len() > 0 ==> without_repeats(texts).len() > 0 && without_repeats(texts).last()
            == texts.last(),
    decreases texts.len(),
{
    let kept = without_repeats(texts);
    if texts.len() > 0 {
        let fewer = texts.drop_last();
        repeats_are_dropped(fewer);
        let before = without_repeats(fewer);
        assert forall|i: int, j: int| 0 <= i < j < kept.len() implies text_less(
            #[trigger] kept[i],
            #[trigger] kept[j],
        ) by {
            if j == before.len() {
                assert(before.contains(before[i]));
                let at = fewer.index_of(before[i]);
                assert(texts[at] == before[i]);
                assert(!text_less(texts.last(), texts[at]));
                text_less_is_total(texts[at], texts.last());
                if texts[at] == texts.last() {
                    if i < before.len() - 1 {
                        assert(text_less(before[i], before[before.len() - 1]));
                        assert(before.contains(before.last()));
                        let last = fewer.index_of(before.last());
                        assert(texts[last] == before.last());
                        assert(!text_less(texts.last(), texts[last]));
                    }
                }
            }
        }
        assert forall|text: Seq<char>| #[trigger] kept.contains(text) <==> texts.contains(text) by {
            if kept.contains(text) {
                let at = kept.index_of(text);
                if at < before.len() {
                    assert(before[at] == text);
                    assert(before.contains(text));
                    let place = fewer.index_of(text);
                    assert(texts[place] == text);
                } else {
                    assert(texts[texts.len() - 1] == text);
                }
            }
            if texts.contains(text) {
                let at = texts.index_of(text);
                if at < fewer.len() {
                    assert(fewer[at] == text);
                    assert(before.contains(text));
                    let place = before.index_of(text);
                    assert(kept[place] == text);
                } else {
                    assert(kept[kept.len() - 1] == text);
                }
            }
        }
    }
}

/// Every warning is told, none is made up, and none is told twice.
pub proof fn warnings_are_told_once(
    merged: Seq<Seq<char>>,
    warnings: Seq<Seq<char>>,
    recording: Seq<Seq<char>>,
    text: Seq<char>,
)
    requires
        merges(merged, warnings, recording),
    ensures
        merged.contains(text) <==> warnings.contains(text) || recording.contains(text),
        merged.no_duplicates(),
{
    broadcast use vstd::seq_lib::group_to_multiset_ensures;

    let sorted = choose|sorted: Seq<Seq<char>>|
        {
            &&& in_text_order(sorted)
            &&& sorted.to_multiset() == (warnings + recording).to_multiset()
            &&& merged == #[trigger] without_repeats(sorted)
        };
    repeats_are_dropped(sorted);
    let all = warnings + recording;
    assert(sorted.contains(text) <==> sorted.to_multiset().count(text) > 0);
    assert(all.contains(text) <==> all.to_multiset().count(text) > 0);
    if warnings.contains(text) {
        let at = warnings.index_of(text);
        assert(all[at] == text);
    }
    if recording.contains(text) {
        let at = recording.index_of(text);
        assert(all[warnings.len() + at] == text);
    }
    if all.contains(text) {
        let at = all.index_of(text);
        if at < warnings.len() {
            assert(warnings[at] == text);
        } else {
            assert(recording[at - warnings.len()] == text);
        }
    }
    assert forall|i: int, j: int| 0 <= i < merged.len() && 0 <= j < merged.len() && i != j implies
        merged[i] != merged[j] by {
        if i < j {
            text_less_is_total(merged[i], merged[j]);
        } else {
            text_less_is_total(merged[j], merged[i]);
        }
    }
}

/// Whether a file is a screenshot.
pub open spec fn is_screenshot(name: Seq<char>) -> bool {
    path_extension(name) == Some("png"@)
}

/// The screenshots among files.
pub open spec fn screenshots_of(names: Seq<Seq<char>>) -> Seq<Seq<char>> {
    names.filter(|name: Seq<char>| is_screenshot(name))
}

/// The screenshots among the files of a directory.
pub fn choose_screenshots(names: &Vec<String>) -> (chosen: Vec<String>)
    ensures
        texts_view(chosen@) == screenshots_of(texts_view(names@)),
{
    let ghost all = texts_view(names@);
    let ghost showing = |name: Seq<char>| is_screenshot(name);
    let mut chosen: Vec<String> = Vec::new();
    let mut i: usize = 0;
    assert(all.take(0).filter(showing) =~= Seq::<Seq<char>>::empty()) by {
        reveal(Seq::filter);
    }
    assert(texts_view(chosen@) =~= Seq::<Seq<char>>::empty());
    while i < names.len()
        invariant
            i <= names.len(),
            all == texts_view(names@),
            showing == (|name: Seq<char>| is_screenshot(name)),
            texts_view(chosen@) == all.take(i as int).filter(showing),
        decreases names.len() - i,
    {
        proof {
            assert(all.take(i + 1).drop_last() == all.take(i as int));
            assert(all.take(i + 1).last() == names@[i as int]@);
            reveal(Seq::filter);
        }
        let shows = match extension(names[i].as_str()) {
            Some(extension) => same_text(extension.as_str(), "png"),
            None => false,
        };
        if shows {
            let ghost before = texts_view(chosen@);
            chosen.push(names[i].clone());
            assert(texts_view(chosen@) =~= before.push(names@[i as int]@));
        }
        i += 1;
    }
    assert(all.take(i as int) == all);
    chosen
}

/// What a client is told of an export.
pub open spec fn export_json(
    name: Seq<char>,
    bundle: Seq<char>,
    screenshots: Seq<String>,
    step_count: u64,
) -> Json {
    Json::Record(
        seq![
            ("name"@, Json::Text(name)),
            ("bundle"@, Json::Text(bundle)),
            ("replay"@, Json::Text(joined_path(bundle, REPLAY_NAME@))),
            ("journal"@, Json::Text(joined_path(bundle, JOURNAL_NAME@))),
            ("report"@, Json::Text(joined_path(bundle, REPORT_NAME@))),
            ("screenshots"@, list_json(screenshots)),
            ("recording_pending"@, Json::Bool(true)),
            ("step_count"@, Json::Integer(step_count as int)),
        ],
    )
}

/// What a client is told of an export.
pub fn export_value(name: &str, bundle: &str, screenshots: &Vec<String>, step_count: u64) -> (value:
    JsonValue)
    ensures
        value@ == export_json(name@, bundle@, screenshots@, step_count),
{
    broadcast use crate::json::group_json_views;

    let replay = join_path(bundle, REPLAY_NAME);
    let journal = join_path(bundle, JOURNAL_NAME);
    let report = join_path(bundle, REPORT_NAME);
    let fields: Vec<(String, JsonValue)> = vec![
        field("name", text_value(name)),
        field("bundle", text_value(bundle)),
        field("replay", text_value(replay.as_str())),
        field("journal", text_value(journal.as_str())),
        field("report", text_value(report.as_str())),
        field("screenshots", text_list(screenshots)),
        field("recording_pending", JsonValue::Bool(true)),
        field("step_count", JsonValue::Unsigned(step_count)),
    ];
    assert(fields_view(fields@) =~= export_json(
        name@,
        bundle@,
        screenshots@,
        step_count,
    )->Record_0);
    JsonValue::Record(fields)
}

/// Why a session is not exported.
#[derive(Debug)]
pub enum BundleFault {
    UnsafeName,
    Exists(String),
    Replay(ExportError),
    Compile(String),
    Artifacts(String),
}

/// The kind of a fault.
pub open spec fn fault_code(fault: BundleFault) -> ErrorCode {
    match fault {
        BundleFault::Artifacts(_) => ErrorCode::Artifacts,
        _ => ErrorCode::ExportInvalid,
    }
}

/// The text of a fault.
pub open spec fn fault_text(fault: BundleFault) -> Seq<char> {
    match fault {
        BundleFault::UnsafeName => "bundle name must be a safe path component"@,
        BundleFault::Exists(bundle) => "bundle "@ + bundle@ + " already exists"@,
        BundleFault::Replay(error) => export_error_text(error),
        BundleFault::Compile(error) => error@,
        BundleFault::Artifacts(error) => error@,
    }
}

impl BundleFault {
    /// The error of the command.
    pub fn into_error(self) -> (error: CommandError)
        ensures
            error.code == fault_code(self),
            error.details is None,
            match error.message {
                Message::Text(text) => text@ == fault_text(self),
                _ => false,
            },
    {
        let (code, text) = match self {
            BundleFault::UnsafeName => (
                ErrorCode::ExportInvalid,
                "bundle name must be a safe path component".to_owned(),
            ),
            BundleFault::Exists(bundle) => {
                let mut text = "bundle ".to_owned();
                text.append(bundle.as_str());
                text.append(" already exists");
                (ErrorCode::ExportInvalid, text)
            },
            BundleFault::Replay(error) => (ErrorCode::ExportInvalid, error.message()),
            BundleFault::Compile(error) => (ErrorCode::ExportInvalid, error),
            BundleFault::Artifacts(error) => (ErrorCode::Artifacts, error),
        };
        CommandError { code, message: Message::Text(text), details: None }
    }
}

/// What an export waits for.
#[derive(Debug, Clone, Copy, PartialEq, Eq, Structural)]
pub enum ExportStage {
    Building,
    Compiling,
    Creating,
    Publishing,
    Logging,
    Flushing,
    CopyingJournal,
    CheckingReport,
    CopyingReport,
    CopyingScreenshots,
    Over,
}

/// The export of a session. A bundle is new where the session has not exported to it before.
#[derive(Debug)]
pub struct Export {
    pub name: String,
    pub bundle: String,
    pub new: bool,
    pub stage: ExportStage,
}

/// How a directory was made.
#[derive(Debug)]
pub enum Creation {
    Done,
    Exists,
    Failed(String),
}

/// What happens during an export. Each piece of work is done, or tells its error.
#[derive(Debug)]
pub enum ExportEvent {
    Built(Option<ExportError>),
    Compiled(Option<String>),
    Created(Creation),
    Done(Option<String>),
    ReportChecked(bool),
    Copied(Result<Vec<String>, String>),
}

/// What an export does next.
#[derive(Debug)]
pub enum ExportAction {
    Ignore,
    BuildReplay,
    Compile,
    CreateDirectory,
    PublishReplay,
    LogExport,
    FlushJournal,
    CopyJournal,
    CheckReport,
    CopyReport,
    CopyScreenshots,
    Fail(BundleFault),
    Finish(Vec<String>),
}

/// The export at another stage.
pub open spec fn exporting(
    export: Export,
    stage: ExportStage,
    action: ExportAction,
) -> (Export, ExportAction) {
    (Export { stage, ..export }, action)
}

fn export_at(
    export: Export,
    stage: ExportStage,
    action: ExportAction,
) -> (next: (Export, ExportAction))
    ensures
        next == exporting(export, stage, action),
{
    (Export { stage, ..export }, action)
}

/// The export that failed.
pub open spec fn export_over(export: Export, fault: BundleFault) -> (Export, ExportAction) {
    (Export { stage: ExportStage::Over, ..export }, ExportAction::Fail(fault))
}

fn export_failed(export: Export, fault: BundleFault) -> (next: (Export, ExportAction))
    ensures
        next == export_over(export, fault),
{
    (Export { stage: ExportStage::Over, ..export }, ExportAction::Fail(fault))
}

/// What follows a piece of work.
pub open spec fn done_then(
    export: Export,
    error: Option<String>,
    stage: ExportStage,
    action: ExportAction,
) -> (Export, ExportAction) {
    match error {
        Some(error) => export_over(export, BundleFault::Artifacts(error)),
        None => exporting(export, stage, action),
    }
}

fn done_or(
    export: Export,
    error: Option<String>,
    stage: ExportStage,
    action: ExportAction,
) -> (next: (Export, ExportAction))
    ensures
        next == done_then(export, error, stage, action),
{
    match error {
        Some(error) => export_failed(export, BundleFault::Artifacts(error)),
        None => export_at(export, stage, action),
    }
}

/// What follows an event of an export.
pub open spec fn export_step(export: Export, event: ExportEvent) -> (Export, ExportAction) {
    match (export.stage, event) {
        (ExportStage::Building, ExportEvent::Built(error)) => match error {
            Some(error) => export_over(export, BundleFault::Replay(error)),
            None => exporting(export, ExportStage::Compiling, ExportAction::Compile),
        },
        (ExportStage::Compiling, ExportEvent::Compiled(error)) => match error {
            Some(error) => export_over(export, BundleFault::Compile(error)),
            None => if export.new {
                exporting(export, ExportStage::Creating, ExportAction::CreateDirectory)
            } else {
                exporting(export, ExportStage::Publishing, ExportAction::PublishReplay)
            },
        },
        (ExportStage::Creating, ExportEvent::Created(creation)) => match creation {
            Creation::Done => exporting(
                export,
                ExportStage::Publishing,
                ExportAction::PublishReplay,
            ),
            Creation::Exists => {
                let bundle = export.bundle;
                export_over(export, BundleFault::Exists(bundle))
            },
            Creation::Failed(error) => export_over(export, BundleFault::Artifacts(error)),
        },
        (ExportStage::Publishing, ExportEvent::Done(error)) => done_then(
            export,
            error,
            ExportStage::Logging,
            ExportAction::LogExport,
        ),
        (ExportStage::Logging, ExportEvent::Done(error)) => done_then(
            export,
            error,
            ExportStage::Flushing,
            ExportAction::FlushJournal,
        ),
        (ExportStage::Flushing, ExportEvent::Done(error)) => done_then(
            export,
            error,
            ExportStage::CopyingJournal,
            ExportAction::CopyJournal,
        ),
        (ExportStage::CopyingJournal, ExportEvent::Done(error)) => done_then(
            export,
            error,
            ExportStage::CheckingReport,
            ExportAction::CheckReport,
        ),
        (ExportStage::CheckingReport, ExportEvent::ReportChecked(exists)) => if exists {
            exporting(export, ExportStage::CopyingReport, ExportAction::CopyReport)
        } else {
            exporting(export, ExportStage::CopyingScreenshots, ExportAction::CopyScreenshots)
        },
        (ExportStage::CopyingReport, ExportEvent::Done(error)) => done_then(
            export,
            error,
            ExportStage::CopyingScreenshots,
            ExportAction::CopyScreenshots,
        ),
        (ExportStage::CopyingScreenshots, ExportEvent::Copied(result)) => match result {
            Ok(screenshots) => exporting(
                export,
                ExportStage::Over,
                ExportAction::Finish(screenshots),
            ),
            Err(error) => export_over(export, BundleFault::Artifacts(error)),
        },
        _ => (export, ExportAction::Ignore),
    }
}

fn next_export(export: Export, event: ExportEvent) -> (next: (Export, ExportAction))
    ensures
        next == export_step(export, event),
{
    match (export.stage, event) {
        (ExportStage::Building, ExportEvent::Built(error)) => match error {
            Some(error) => export_failed(export, BundleFault::Replay(error)),
            None => export_at(export, ExportStage::Compiling, ExportAction::Compile),
        },
        (ExportStage::Compiling, ExportEvent::Compiled(error)) => match error {
            Some(error) => export_failed(export, BundleFault::Compile(error)),
            None => if export.new {
                export_at(export, ExportStage::Creating, ExportAction::CreateDirectory)
            } else {
                export_at(export, ExportStage::Publishing, ExportAction::PublishReplay)
            },
        },
        (ExportStage::Creating, ExportEvent::Created(creation)) => match creation {
            Creation::Done => export_at(
                export,
                ExportStage::Publishing,
                ExportAction::PublishReplay,
            ),
            Creation::Exists => {
                let bundle = export.bundle.clone();
                export_failed(export, BundleFault::Exists(bundle))
            },
            Creation::Failed(error) => export_failed(export, BundleFault::Artifacts(error)),
        },
        (ExportStage::Publishing, ExportEvent::Done(error)) => done_or(
            export,
            error,
            ExportStage::Logging,
            ExportAction::LogExport,
        ),
        (ExportStage::Logging, ExportEvent::Done(error)) => done_or(
            export,
            error,
            ExportStage::Flushing,
            ExportAction::FlushJournal,
        ),
        (ExportStage::Flushing, ExportEvent::Done(error)) => done_or(
            export,
            error,
            ExportStage::CopyingJournal,
            ExportAction::CopyJournal,
        ),
        (ExportStage::CopyingJournal, ExportEvent::Done(error)) => done_or(
            export,
            error,
            ExportStage::CheckingReport,
            ExportAction::CheckReport,
        ),
        (ExportStage::CheckingReport, ExportEvent::ReportChecked(exists)) => if exists {
            export_at(export, ExportStage::CopyingReport, ExportAction::CopyReport)
        } else {
            export_at(export, ExportStage::CopyingScreenshots, ExportAction::CopyScreenshots)
        },
        (ExportStage::CopyingReport, ExportEvent::Done(error)) => done_or(
            export,
            error,
            ExportStage::CopyingScreenshots,
            ExportAction::CopyScreenshots,
        ),
        (ExportStage::CopyingScreenshots, ExportEvent::Copied(result)) => match result {
            Ok(screenshots) => export_at(
                export,
                ExportStage::Over,
                ExportAction::Finish(screenshots),
            ),
            Err(error) => export_failed(export, BundleFault::Artifacts(error)),
        },
        _ => (export, ExportAction::Ignore),
    }
}

/// Whether a bundle is the one that the session has exported to.
pub open spec fn is_own(current: Option<String>, bundle: String) -> bool {
    match current {
        Some(current) => current@ == bundle@,
        None => false,
    }
}

/// How an export begins. `exists` tells whether the bundle is there, `current` is the one that the
/// session has exported to.
pub open spec fn export_begun(
    name: String,
    bundle: String,
    exists: bool,
    current: Option<String>,
) -> (Export, ExportAction) {
    let export = Export { name, bundle, new: !is_own(current, bundle), stage: ExportStage::Building };
    if !safe_bundle_name(name@) {
        export_over(export, BundleFault::UnsafeName)
    } else if exists && !is_own(current, bundle) {
        export_over(export, BundleFault::Exists(bundle))
    } else {
        (export, ExportAction::BuildReplay)
    }
}

impl Export {
    /// Begins an export.
    pub fn start(name: String, bundle: String, exists: bool, current: &Option<String>) -> (next: (
        Export,
        ExportAction,
    ))
        ensures
            next == export_begun(name, bundle, exists, *current),
    {
        let own = match current {
            Some(current) => same_text(current.as_str(), bundle.as_str()),
            None => false,
        };
        let safe = is_safe_bundle_name(name.as_str());
        let place = bundle.clone();
        let export = Export { name, bundle, new: !own, stage: ExportStage::Building };
        if !safe {
            export_failed(export, BundleFault::UnsafeName)
        } else if exists && !own {
            export_failed(export, BundleFault::Exists(place))
        } else {
            (export, ExportAction::BuildReplay)
        }
    }

    /// Takes an event.
    pub fn next(self, event: ExportEvent) -> (next: (Export, ExportAction))
        ensures
            next == export_step(self, event),
    {
        next_export(self, event)
    }
}

/// Whether an action writes into a bundle.
pub open spec fn writes(action: ExportAction) -> bool {
    ||| action is PublishReplay
    ||| action is CopyJournal
    ||| action is CopyReport
    ||| action is CopyScreenshots
}

/// Nothing is written before the replay was built and compiled, and nothing into a bundle that the
/// session did not make: a new one is written to only once its directory was made.
pub proof fn bundles_of_others_are_left_alone(export: Export, event: ExportEvent)
    ensures
        ({
            let (after, action) = export_step(export, event);
            &&& (writes(action) && export.stage is Compiling ==> !export.new)
            &&& (writes(action) && export.stage is Creating ==> event == ExportEvent::Created(
                Creation::Done,
            ))
            &&& (export.stage is Building ==> !writes(action))
            &&& after.name == export.name
            &&& after.bundle == export.bundle
            &&& after.new == export.new
            &&& (action is Finish ==> export.stage is CopyingScreenshots && after.stage is Over)
            &&& (action is Fail ==> after.stage is Over)
        }),
{
}

/// How many events an export still takes at most.
pub open spec fn export_left(stage: ExportStage) -> nat {
    match stage {
        ExportStage::Building => 10,
        ExportStage::Compiling => 9,
        ExportStage::Creating => 8,
        ExportStage::Publishing => 7,
        ExportStage::Logging => 6,
        ExportStage::Flushing => 5,
        ExportStage::CopyingJournal => 4,
        ExportStage::CheckingReport => 3,
        ExportStage::CopyingReport => 2,
        ExportStage::CopyingScreenshots => 1,
        ExportStage::Over => 0,
    }
}

/// An export comes to an end: each event that is not ignored brings it nearer.
pub proof fn exports_end(export: Export, event: ExportEvent)
    ensures
        ({
            let (after, action) = export_step(export, event);
            &&& (action is Ignore ==> after == export)
            &&& (!(action is Ignore) ==> export_left(after.stage) < export_left(export.stage))
        }),
{
}

/// The entry of the journal for a session that closed.
pub fn close_entry(recording: &SessionRecordingFinish) -> (event: JournalEvent)
    ensures
        match event {
            JournalEvent::Close { summary } => summary@ == single(
                "recording"@,
                Json::Record(gathered(recording_fields(*recording))),
            ),
            _ => false,
        },
{
    JournalEvent::Close { summary: single_value("recording", recording.to_json()) }
}

/// The file that is kept of a recording: the complete one, else the partial one.
pub open spec fn kept_recording(recording: SessionRecordingFinish) -> Option<String> {
    match recording.path {
        Some(path) => Some(path),
        None => recording.partial_path,
    }
}

/// Where a file is copied to in a bundle. A path without a file name stands for the bundle itself.
pub open spec fn place_in(bundle: Seq<char>, path: Seq<char>) -> Seq<char> {
    joined_path(
        bundle,
        match path_name(path) {
            Some(name) => name,
            None => Seq::empty(),
        },
    )
}

/// Where a file is copied to in a bundle.
pub fn bundle_place(bundle: &str, path: &str) -> (place: String)
    ensures
        place@ == place_in(bundle@, path@),
{
    match file_name(path) {
        Some(name) => join_path(bundle, name.as_str()),
        None => {
            let none = String::new();
            join_path(bundle, none.as_str())
        },
    }
}

/// What is left of a recording that was copied into a bundle: the copy takes the place of the file.
pub fn with_copied(recording: SessionRecordingFinish, copy: String) -> (result:
    SessionRecordingFinish)
    ensures
        result == copied_recording(recording, copy),
{
    if recording.path.is_some() {
        SessionRecordingFinish { path: Some(copy), ..recording }
    } else {
        SessionRecordingFinish { partial_path: Some(copy), ..recording }
    }
}

/// What the end of a session's artifacts waits for. `at` counts the warnings that were logged.
#[derive(Debug)]
#[allow(inconsistent_fields)]
pub enum ClosingStage {
    Reporting,
    Warning { at: usize },
    Summing,
    Flushing,
    CopyingJournal,
    CheckingReport,
    CopyingReport,
    CheckingRecording { path: String },
    CopyingRecording,
    CopyingScreenshots,
    Over,
}

/// The end of a session's artifacts.
#[derive(Debug)]
pub struct Closing {
    pub bundle: Option<String>,
    pub close: CloseResult,
    pub warnings: Vec<String>,
    pub stage: ClosingStage,
}

/// What happens at the end of a session's artifacts. Each piece of work is done, or tells its error. A
/// recording that was copied comes with the place of its copy.
#[derive(Debug)]
pub enum ClosingEvent {
    Done(Option<String>),
    Checked(bool),
    Copied(Result<String, String>),
}

/// What the end of a session's artifacts does next.
#[derive(Debug)]
pub enum ClosingAction {
    Ignore,
    WriteReport,
    LogWarning(String),
    LogClose,
    FlushJournal,
    CopyJournal,
    CheckReport,
    CopyReport,
    CheckRecording(String),
    CopyRecording(String),
    CopyScreenshots,
    Fail(String),
    Finish,
}

/// The end at another stage.
pub open spec fn closing_then(
    closing: Closing,
    stage: ClosingStage,
    action: ClosingAction,
) -> (Closing, ClosingAction) {
    (Closing { stage, ..closing }, action)
}

fn closing_at(
    closing: Closing,
    stage: ClosingStage,
    action: ClosingAction,
) -> (next: (Closing, ClosingAction))
    ensures
        next == closing_then(closing, stage, action),
{
    (Closing { stage, ..closing }, action)
}

/// The end that failed.
pub open spec fn closing_over(closing: Closing, error: String) -> (Closing, ClosingAction) {
    (Closing { stage: ClosingStage::Over, ..closing }, ClosingAction::Fail(error))
}

fn closing_failed(closing: Closing, error: String) -> (next: (Closing, ClosingAction))
    ensures
        next == closing_over(closing, error),
{
    (Closing { stage: ClosingStage::Over, ..closing }, ClosingAction::Fail(error))
}

/// What follows a piece of work.
pub open spec fn closing_done_then(
    closing: Closing,
    error: Option<String>,
    stage: ClosingStage,
    action: ClosingAction,
) -> (Closing, ClosingAction) {
    match error {
        Some(error) => closing_over(closing, error),
        None => closing_then(closing, stage, action),
    }
}

fn closing_done(
    closing: Closing,
    error: Option<String>,
    stage: ClosingStage,
    action: ClosingAction,
) -> (next: (Closing, ClosingAction))
    ensures
        next == closing_done_then(closing, error, stage, action),
{
    match error {
        Some(error) => closing_failed(closing, error),
        None => closing_at(closing, stage, action),
    }
}

/// The warning to log next, or what sums the session up.
pub open spec fn warned(closing: Closing, at: usize) -> (Closing, ClosingAction) {
    if at < closing.warnings@.len() {
        let warning = closing.warnings@[at as int];
        closing_then(closing, ClosingStage::Warning { at }, ClosingAction::LogWarning(warning))
    } else {
        closing_then(closing, ClosingStage::Summing, ClosingAction::LogClose)
    }
}

fn warn_next(closing: Closing, at: usize) -> (next: (Closing, ClosingAction))
    ensures
        next == warned(closing, at),
{
    if at < closing.warnings.len() {
        let warning = closing.warnings[at].clone();
        closing_at(closing, ClosingStage::Warning { at }, ClosingAction::LogWarning(warning))
    } else {
        closing_at(closing, ClosingStage::Summing, ClosingAction::LogClose)
    }
}

fn find_recording(recording: &SessionRecordingFinish) -> (path: Option<String>)
    ensures
        path == kept_recording(*recording),
{
    match &recording.path {
        Some(path) => Some(path.clone()),
        None => match &recording.partial_path {
            Some(path) => Some(path.clone()),
            None => None,
        },
    }
}

/// The recording to look for, or the screenshots.
pub open spec fn recording_checked(closing: Closing) -> (Closing, ClosingAction) {
    match kept_recording(closing.close.recording) {
        Some(path) => {
            let place = path;
            closing_then(
                closing,
                ClosingStage::CheckingRecording { path },
                ClosingAction::CheckRecording(place),
            )
        },
        None => closing_then(
            closing,
            ClosingStage::CopyingScreenshots,
            ClosingAction::CopyScreenshots,
        ),
    }
}

fn check_recording(closing: Closing) -> (next: (Closing, ClosingAction))
    ensures
        next == recording_checked(closing),
{
    match find_recording(&closing.close.recording) {
        Some(path) => {
            let place = path.clone();
            closing_at(
                closing,
                ClosingStage::CheckingRecording { path },
                ClosingAction::CheckRecording(place),
            )
        },
        None => closing_at(
            closing,
            ClosingStage::CopyingScreenshots,
            ClosingAction::CopyScreenshots,
        ),
    }
}

/// What is left of a recording that was copied.
pub open spec fn copied_recording(recording: SessionRecordingFinish, copy: String) ->
    SessionRecordingFinish {
    if recording.path is Some {
        SessionRecordingFinish { path: Some(copy), ..recording }
    } else {
        SessionRecordingFinish { partial_path: Some(copy), ..recording }
    }
}

/// What follows an event at the end of a session's artifacts.
pub open spec fn closing_step(closing: Closing, event: ClosingEvent) -> (Closing, ClosingAction) {
    let Closing { bundle, close, warnings, stage } = closing;
    match (stage, event) {
        (ClosingStage::Reporting, ClosingEvent::Done(error)) => {
            let closing = Closing { bundle, close, warnings, stage: ClosingStage::Over };
            match error {
                Some(error) => closing_over(closing, error),
                None => warned(closing, 0),
            }
        },
        (ClosingStage::Warning { at }, ClosingEvent::Done(error)) => {
            let closing = Closing { bundle, close, warnings, stage: ClosingStage::Over };
            match error {
                Some(error) => closing_over(closing, error),
                None => if at < closing.warnings@.len() {
                    warned(closing, (at + 1) as usize)
                } else {
                    warned(closing, at)
                },
            }
        },
        (ClosingStage::Summing, ClosingEvent::Done(error)) => if bundle is Some {
            closing_done_then(
                Closing { bundle, close, warnings, stage: ClosingStage::Over },
                error,
                ClosingStage::Flushing,
                ClosingAction::FlushJournal,
            )
        } else {
            closing_done_then(
                Closing { bundle, close, warnings, stage: ClosingStage::Over },
                error,
                ClosingStage::Over,
                ClosingAction::Finish,
            )
        },
        (ClosingStage::Flushing, ClosingEvent::Done(error)) => closing_done_then(
            Closing { bundle, close, warnings, stage: ClosingStage::Over },
            error,
            ClosingStage::CopyingJournal,
            ClosingAction::CopyJournal,
        ),
        (ClosingStage::CopyingJournal, ClosingEvent::Done(error)) => closing_done_then(
            Closing { bundle, close, warnings, stage: ClosingStage::Over },
            error,
            ClosingStage::CheckingReport,
            ClosingAction::CheckReport,
        ),
        (ClosingStage::CheckingReport, ClosingEvent::Checked(exists)) => if exists {
            closing_then(
                Closing { bundle, close, warnings, stage: ClosingStage::Over },
                ClosingStage::CopyingReport,
                ClosingAction::CopyReport,
            )
        } else {
            recording_checked(Closing { bundle, close, warnings, stage: ClosingStage::Over })
        },
        (ClosingStage::CopyingReport, ClosingEvent::Done(error)) => {
            let closing = Closing { bundle, close, warnings, stage: ClosingStage::Over };
            match error {
                Some(error) => closing_over(closing, error),
                None => recording_checked(closing),
            }
        },
        (ClosingStage::CheckingRecording { path }, ClosingEvent::Checked(exists)) => if exists {
            closing_then(
                Closing { bundle, close, warnings, stage: ClosingStage::Over },
                ClosingStage::CopyingRecording,
                ClosingAction::CopyRecording(path),
            )
        } else {
            closing_then(
                Closing { bundle, close, warnings, stage: ClosingStage::Over },
                ClosingStage::CopyingScreenshots,
                ClosingAction::CopyScreenshots,
            )
        },
        (ClosingStage::CopyingRecording, ClosingEvent::Copied(result)) => match result {
            Ok(copy) => {
                let CloseResult { recording, warnings: told } = close;
                let close = CloseResult { recording: copied_recording(recording, copy), warnings: told };
                closing_then(
                    Closing { bundle, close, warnings, stage: ClosingStage::Over },
                    ClosingStage::CopyingScreenshots,
                    ClosingAction::CopyScreenshots,
                )
            },
            Err(error) => closing_over(
                Closing { bundle, close, warnings, stage: ClosingStage::Over },
                error,
            ),
        },
        (ClosingStage::CopyingScreenshots, ClosingEvent::Done(error)) => closing_done_then(
            Closing { bundle, close, warnings, stage: ClosingStage::Over },
            error,
            ClosingStage::Over,
            ClosingAction::Finish,
        ),
        (stage, _) => (Closing { bundle, close, warnings, stage }, ClosingAction::Ignore),
    }
}

fn next_closing(closing: Closing, event: ClosingEvent) -> (next: (Closing, ClosingAction))
    ensures
        next == closing_step(closing, event),
{
    let Closing { bundle, close, warnings, stage } = closing;
    match (stage, event) {
        (ClosingStage::Reporting, ClosingEvent::Done(error)) => {
            let closing = Closing { bundle, close, warnings, stage: ClosingStage::Over };
            match error {
                Some(error) => closing_failed(closing, error),
                None => warn_next(closing, 0),
            }
        },
        (ClosingStage::Warning { at }, ClosingEvent::Done(error)) => {
            let closing = Closing { bundle, close, warnings, stage: ClosingStage::Over };
            match error {
                Some(error) => closing_failed(closing, error),
                None => if at < closing.warnings.len() {
                    warn_next(closing, at + 1)
                } else {
                    warn_next(closing, at)
                },
            }
        },
        (ClosingStage::Summing, ClosingEvent::Done(error)) => if bundle.is_some() {
            closing_done(
                Closing { bundle, close, warnings, stage: ClosingStage::Over },
                error,
                ClosingStage::Flushing,
                ClosingAction::FlushJournal,
            )
        } else {
            closing_done(
                Closing { bundle, close, warnings, stage: ClosingStage::Over },
                error,
                ClosingStage::Over,
                ClosingAction::Finish,
            )
        },
        (ClosingStage::Flushing, ClosingEvent::Done(error)) => closing_done(
            Closing { bundle, close, warnings, stage: ClosingStage::Over },
            error,
            ClosingStage::CopyingJournal,
            ClosingAction::CopyJournal,
        ),
        (ClosingStage::CopyingJournal, ClosingEvent::Done(error)) => closing_done(
            Closing { bundle, close, warnings, stage: ClosingStage::Over },
            error,
            ClosingStage::CheckingReport,
            ClosingAction::CheckReport,
        ),
        (ClosingStage::CheckingReport, ClosingEvent::Checked(exists)) => if exists {
            closing_at(
                Closing { bundle, close, warnings, stage: ClosingStage::Over },
                ClosingStage::CopyingReport,
                ClosingAction::CopyReport,
            )
        } else {
            check_recording(Closing { bundle, close, warnings, stage: ClosingStage::Over })
        },
        (ClosingStage::CopyingReport, ClosingEvent::Done(error)) => {
            let closing = Closing { bundle, close, warnings, stage: ClosingStage::Over };
            match error {
                Some(error) => closing_failed(closing, error),
                None => check_recording(closing),
            }
        },
        (ClosingStage::CheckingRecording { path }, ClosingEvent::Checked(exists)) => if exists {
            closing_at(
                Closing { bundle, close, warnings, stage: ClosingStage::Over },
                ClosingStage::CopyingRecording,
                ClosingAction::CopyRecording(path),
            )
        } else {
            closing_at(
                Closing { bundle, close, warnings, stage: ClosingStage::Over },
                ClosingStage::CopyingScreenshots,
                ClosingAction::CopyScreenshots,
            )
        },
        (ClosingStage::CopyingRecording, ClosingEvent::Copied(result)) => match result {
            Ok(copy) => {
                let CloseResult { recording, warnings: told } = close;
                let close = CloseResult { recording: with_copied(recording, copy), warnings: told };
                closing_at(
                    Closing { bundle, close, warnings, stage: ClosingStage::Over },
                    ClosingStage::CopyingScreenshots,
                    ClosingAction::CopyScreenshots,
                )
            },
            Err(error) => closing_failed(
                Closing { bundle, close, warnings, stage: ClosingStage::Over },
                error,
            ),
        },
        (ClosingStage::CopyingScreenshots, ClosingEvent::Done(error)) => closing_done(
            Closing { bundle, close, warnings, stage: ClosingStage::Over },
            error,
            ClosingStage::Over,
            ClosingAction::Finish,
        ),
        (stage, _) => (Closing { bundle, close, warnings, stage }, ClosingAction::Ignore),
    }
}

impl Closing {
    /// Begins the end of a session's artifacts: the report is to be written.
    pub fn start(bundle: Option<String>, close: CloseResult) -> (next: (Closing, ClosingAction))
        ensures
            next.0.bundle == bundle,
            next.0.close == close,
            next.0.stage is Reporting,
            merges(
                texts_view(next.0.warnings@),
                texts_view(close.warnings@),
                texts_view(close.recording.warnings@),
            ),
            next.1 is WriteReport,
    {
        let warnings = merged_warnings(&close);
        (
            Closing { bundle, close, warnings, stage: ClosingStage::Reporting },
            ClosingAction::WriteReport,
        )
    }

    /// Takes an event.
    pub fn next(self, event: ClosingEvent) -> (next: (Closing, ClosingAction))
        ensures
            next == closing_step(self, event),
    {
        next_closing(self, event)
    }
}

/// The warning that is being logged.
pub open spec fn warning_at(stage: ClosingStage) -> Option<int> {
    match stage {
        ClosingStage::Warning { at } => Some(at as int),
        _ => None,
    }
}

/// A session without a bundle writes into none. Every warning is logged before the session is summed
/// up, one after another.
pub proof fn closings_log_every_warning(closing: Closing, event: ClosingEvent)
    ensures
        ({
            let (after, action) = closing_step(closing, event);
            let count = closing.warnings@.len();
            let now = warning_at(closing.stage);
            let then = warning_at(after.stage);
            &&& after.bundle == closing.bundle
            &&& after.warnings == closing.warnings
            &&& (closing.stage is Summing && closing.bundle is None ==> !(action is FlushJournal))
            &&& (action is LogWarning ==> then is Some && then->0 < count && action->LogWarning_0
                == closing.warnings@[then->0])
            &&& (now is Some && event == ClosingEvent::Done(None) && now->0 + 1 < count ==> then
                == Some(now->0 + 1))
            &&& (action is LogClose ==> (closing.stage is Reporting && count == 0) || (now is Some
                && now->0 + 1 >= count))
            &&& (action is Finish ==> after.stage is Over)
            &&& (action is Fail ==> after.stage is Over)
        }),
{
    assert(closing.warnings@.len() == closing.warnings.len());
}

/// How a bundle is exported: its replay is built and checked, its directory made if it is new, the replay
/// published, the export logged, and the journal, the report and the screenshots copied. The screenshots are
/// told at the end.
pub proof fn a_bundle_is_exported_in_order(
    name: String,
    bundle: String,
    current: Option<String>,
    first: (Export, ExportAction),
    screenshots: Vec<String>,
)
    requires
        safe_bundle_name(name@),
        call_ensures(Export::start, (name, bundle, false, &current), first),
        !is_own(current, bundle),
    ensures
        ({
            let done = ExportEvent::Done(None);
            let (compiling, second) = export_step(first.0, ExportEvent::Built(None));
            let (creating, third) = export_step(compiling, ExportEvent::Compiled(None));
            let (publishing, fourth) = export_step(creating, ExportEvent::Created(Creation::Done));
            let (logging, fifth) = export_step(publishing, done);
            let (flushing, sixth) = export_step(logging, done);
            let (journal, seventh) = export_step(flushing, done);
            let (checking, eighth) = export_step(journal, done);
            let (report, ninth) = export_step(checking, ExportEvent::ReportChecked(true));
            let (pictures, tenth) = export_step(report, done);
            let (over, last) = export_step(pictures, ExportEvent::Copied(Ok(screenshots)));
            &&& first.1 is BuildReplay && second is Compile && third is CreateDirectory
            &&& fourth is PublishReplay && fifth is LogExport && sixth is FlushJournal
            &&& seventh is CopyJournal && eighth is CheckReport && ninth is CopyReport
            &&& tenth is CopyScreenshots && last == ExportAction::Finish(screenshots)
            &&& over.stage is Over && over.bundle == bundle && over.name == name
            &&& export_step(checking, ExportEvent::ReportChecked(false)).1 is CopyScreenshots
            &&& export_step(creating, ExportEvent::Created(Creation::Exists)).1
                == ExportAction::Fail(BundleFault::Exists(bundle))
        }),
{
}

/// An export is refused for an unsafe name, and for a bundle that is there already and is not the session's
/// own. The session's own is written again without a new directory.
pub proof fn exports_are_refused_before_they_write(
    name: String,
    bundle: String,
    exists: bool,
    current: Option<String>,
    first: (Export, ExportAction),
)
    requires
        call_ensures(Export::start, (name, bundle, exists, &current), first),
    ensures
        ({
            let own = current is Some && current->0@ == bundle@;
            &&& !safe_bundle_name(name@) ==> first.1 == ExportAction::Fail(BundleFault::UnsafeName)
            &&& safe_bundle_name(name@) && exists && !own ==> first.1 == ExportAction::Fail(
                BundleFault::Exists(bundle),
            )
            &&& safe_bundle_name(name@) && (own || !exists) ==> first.1 is BuildReplay
            &&& own && first.1 is BuildReplay ==> export_step(
                export_step(first.0, ExportEvent::Built(None)).0,
                ExportEvent::Compiled(None),
            ).1 is PublishReplay
        }),
{
}

/// An export that fails tells what it failed at: a replay that cannot be built or checked, or files.
pub proof fn failed_exports_tell_why(
    export: Export,
    error: String,
    cause: ExportError,
    fault: BundleFault,
    told: CommandError,
)
    requires
        call_ensures(BundleFault::into_error, (fault,), told),
    ensures
        export.stage is Building ==> export_step(export, ExportEvent::Built(Some(cause))).1
            == ExportAction::Fail(BundleFault::Replay(cause)),
        export.stage is Compiling ==> export_step(export, ExportEvent::Compiled(Some(error))).1
            == ExportAction::Fail(BundleFault::Compile(error)),
        export.stage is Creating ==> export_step(
            export,
            ExportEvent::Created(Creation::Failed(error)),
        ).1 == ExportAction::Fail(BundleFault::Artifacts(error)),
        export.stage is Publishing || export.stage is Logging || export.stage is Flushing
            || export.stage is CopyingJournal || export.stage is CopyingReport ==> export_step(
            export,
            ExportEvent::Done(Some(error)),
        ).1 == ExportAction::Fail(BundleFault::Artifacts(error)),
        export.stage is CopyingScreenshots ==> export_step(
            export,
            ExportEvent::Copied(Err(error)),
        ).1 == ExportAction::Fail(BundleFault::Artifacts(error)),
        told.code is Artifacts <==> fault is Artifacts,
        !(fault is Artifacts) ==> told.code is ExportInvalid,
        fault matches BundleFault::Compile(text) ==> (told.message matches Message::Text(words)
            && words@ == text@),
        fault matches BundleFault::Artifacts(text) ==> (told.message matches Message::Text(words)
            && words@ == text@),
        fault matches BundleFault::Replay(cause) ==> (told.message matches Message::Text(words)
            && words@ == export_error_text(cause)),
        fault matches BundleFault::Exists(path) ==> (told.message matches Message::Text(words)
            && words@ == "bundle "@ + path@ + " already exists"@),
        told.details is None,
{
}

/// Of the files of a session those whose names end in png are its screenshots, and no others.
pub proof fn screenshots_are_png_files(names: Vec<String>, chosen: Vec<String>, name: String)
    requires
        call_ensures(choose_screenshots, (&names,), chosen),
    ensures
        texts_view(chosen@).contains(name@) <==> texts_view(names@).contains(name@)
            && path_extension(name@) == Some("png"@),
        chosen@.len() <= names@.len(),
{
    screenshots_are_chosen(texts_view(names@), name@);
    assert(texts_view(chosen@).len() == chosen@.len());
    assert(texts_view(names@).len() == names@.len());
}

proof fn screenshots_are_chosen(names: Seq<Seq<char>>, name: Seq<char>)
    ensures
        screenshots_of(names).contains(name) <==> names.contains(name) && is_screenshot(name),
        screenshots_of(names).len() <= names.len(),
    decreases names.len(),
{
    reveal(Seq::filter);
    if names.len() > 0 {
        let fewer = names.drop_last();
        screenshots_are_chosen(fewer, name);
        let chosen = screenshots_of(names);
        let before = screenshots_of(fewer);
        if is_screenshot(names.last()) {
            assert(chosen == before.push(names.last()));
            if before.contains(name) {
                assert(chosen[before.index_of(name)] == name);
            }
            if name == names.last() {
                assert(chosen[before.len() as int] == name);
            }
            if chosen.contains(name) && name != names.last() {
                assert(before[chosen.index_of(name)] == name);
            }
        }
        if fewer.contains(name) {
            assert(names[fewer.index_of(name)] == name);
        }
        if name == names.last() {
            assert(names[names.len() - 1] == name);
        }
        if names.contains(name) && name != names.last() {
            assert(fewer[names.index_of(name)] == name);
        }
    }
}

/// An export is told with its name, its place and the places of its files in it, and with how many steps and
/// which screenshots it has.
pub proof fn exports_are_told_with_their_places(
    name: &str,
    bundle: &str,
    screenshots: Vec<String>,
    step_count: u64,
    value: JsonValue,
)
    requires
        call_ensures(export_value, (name, bundle, &screenshots, step_count), value),
    ensures
        value@ matches Json::Record(fields) && {
            &&& fields.contains(("name"@, Json::Text(name@)))
            &&& fields.contains(("bundle"@, Json::Text(bundle@)))
            &&& fields.contains(("replay"@, Json::Text(joined_path(bundle@, "replay.yaml"@))))
            &&& fields.contains(("journal"@, Json::Text(joined_path(bundle@, "session.ndjson"@))))
            &&& fields.contains(("report"@, Json::Text(joined_path(bundle@, "report.json"@))))
            &&& fields.contains(("screenshots"@, list_json(screenshots@)))
            &&& fields.contains(("recording_pending"@, Json::Bool(true)))
            &&& fields.contains(("step_count"@, Json::Integer(step_count as int)))
        },
{
    let fields = value@->Record_0;
    assert(fields[0].0 == "name"@);
    assert(fields[1].0 == "bundle"@);
    assert(fields[2].0 == "replay"@);
    assert(fields[3].0 == "journal"@);
    assert(fields[4].0 == "report"@);
    assert(fields[5].0 == "screenshots"@);
    assert(fields[6].0 == "recording_pending"@);
    assert(fields[7].0 == "step_count"@);
}

/// How a session is closed without a bundle: its report is written, each warning logged, the close logged, and
/// it is done.
pub proof fn a_session_is_closed_in_order(closing: Closing)
    requires
        closing.stage is Reporting,
    ensures
        ({
            let done = ClosingEvent::Done(None);
            let (next, first) = closing_step(closing, done);
            &&& closing.warnings@.len() > 0 ==> first == ClosingAction::LogWarning(
                closing.warnings@[0],
            )
            &&& closing.warnings@.len() == 0 ==> first is LogClose
            &&& closing.warnings@.len() == 0 && closing.bundle is None ==> closing_step(next, done).1
                is Finish
            &&& closing.warnings@.len() == 0 && closing.bundle is Some ==> closing_step(next, done).1
                is FlushJournal
        }),
{
}

/// How the bundle of a closed session is completed: the journal, the report, the recording and the screenshots
/// are copied into it, the report and the recording if they are there.
pub proof fn a_bundle_is_completed_in_order(closing: Closing, path: String, copy: String)
    requires
        closing.stage is Flushing,
        closing.close.recording.path == Some(path) || (closing.close.recording.path is None
            && closing.close.recording.partial_path == Some(path)),
    ensures
        ({
            let done = ClosingEvent::Done(None);
            let (journal, first) = closing_step(closing, done);
            let (checking, second) = closing_step(journal, done);
            let (report, third) = closing_step(checking, ClosingEvent::Checked(true));
            let (looking, fourth) = closing_step(report, done);
            let (copying, fifth) = closing_step(looking, ClosingEvent::Checked(true));
            let (pictures, sixth) = closing_step(copying, ClosingEvent::Copied(Ok(copy)));
            let (over, seventh) = closing_step(pictures, done);
            &&& first is CopyJournal && second is CheckReport && third is CopyReport
            &&& fourth == ClosingAction::CheckRecording(path)
            &&& fifth == ClosingAction::CopyRecording(path)
            &&& sixth is CopyScreenshots && seventh is Finish && over.stage is Over
            &&& closing_step(checking, ClosingEvent::Checked(false)).1
                == ClosingAction::CheckRecording(path)
            &&& closing_step(looking, ClosingEvent::Checked(false)).1 is CopyScreenshots
            &&& closing.close.recording.path is Some ==> over.close.recording.path == Some(copy)
                && over.close.recording.partial_path == closing.close.recording.partial_path
            &&& closing.close.recording.path is None ==> over.close.recording.partial_path == Some(
                copy,
            ) && over.close.recording.path is None
            &&& over.close.warnings == closing.close.warnings
            &&& over.close.recording.status == closing.close.recording.status
        }),
{
}

/// A close that fails at any file fails with that error.
pub proof fn failed_closes_tell_their_error(closing: Closing, error: String)
    ensures
        closing.stage is Reporting || closing.stage is Warning || closing.stage is Summing
            || closing.stage is Flushing || closing.stage is CopyingJournal || closing.stage
            is CopyingReport || closing.stage is CopyingScreenshots ==> closing_step(
            closing,
            ClosingEvent::Done(Some(error)),
        ).1 == ClosingAction::Fail(error),
        closing.stage is CopyingRecording ==> closing_step(
            closing,
            ClosingEvent::Copied(Err(error)),
        ).1 == ClosingAction::Fail(error),
        closing.stage is CopyingReport && closing.close.recording.path is None
            && closing.close.recording.partial_path is None ==> closing_step(
            closing,
            ClosingEvent::Done(None),
        ).1 is CopyScreenshots,
{
}

/// A file is copied into a bundle under its own name, and what is told of a recording is then the copy.
pub proof fn copies_keep_their_names(
    bundle: &str,
    path: &str,
    place: String,
    recording: SessionRecordingFinish,
    copy: String,
    told: SessionRecordingFinish,
)
    requires
        call_ensures(bundle_place, (bundle, path), place),
        call_ensures(with_copied, (recording, copy), told),
    ensures
        path_name(path@) matches Some(name) ==> place@ == joined_path(bundle@, name),
        recording.path is Some ==> told.path == Some(copy) && told.partial_path
            == recording.partial_path,
        recording.path is None ==> told.path is None && told.partial_path == Some(copy),
        told.status == recording.status && told.warnings == recording.warnings,
{
}

/// Sorted texts are the same texts, each no greater than the next.
pub proof fn sorted_texts_are_the_same_texts(texts: Vec<String>, sorted: Vec<String>, i: int)
    requires
        call_ensures(sort_texts, (texts,), sorted),
    ensures
        texts_view(sorted@).to_multiset() == texts_view(texts@).to_multiset(),
        sorted@.len() == texts@.len(),
        0 <= i < sorted@.len() - 1 ==> !text_less(sorted@[i + 1]@, sorted@[i]@),
{
    let shown = texts_view(sorted@);
    assert(shown.len() == sorted@.len());
    assert(texts_view(texts@).len() == texts@.len());
    shown.to_multiset_ensures();
    texts_view(texts@).to_multiset_ensures();
    if 0 <= i < sorted@.len() - 1 {
        assert(shown[i] == sorted@[i]@ && shown[i + 1] == sorted@[i + 1]@);
    }
}

/// A close waits for what it asked for; anything else changes nothing.
pub proof fn events_out_of_turn_leave_a_close(closing: Closing, event: ClosingEvent)
    ensures
        ({
            let (after, action) = closing_step(closing, event);
            let awaited = match event {
                ClosingEvent::Checked(_) => closing.stage is CheckingReport || closing.stage
                    is CheckingRecording,
                ClosingEvent::Copied(_) => closing.stage is CopyingRecording,
                ClosingEvent::Done(_) => !(closing.stage is CheckingReport || closing.stage
                    is CheckingRecording || closing.stage is CopyingRecording || closing.stage
                    is Over),
            };
            &&& !awaited ==> action is Ignore && after == closing
            &&& awaited ==> !(action is Ignore)
        }),
{
}

/// A close goes on record with what became of the recording.
pub proof fn closes_go_on_record(recording: SessionRecordingFinish, event: JournalEvent)
    requires
        call_ensures(close_entry, (&recording,), event),
    ensures
        event matches JournalEvent::Close { summary } && summary@ == Json::Record(
            seq![("recording"@, Json::Record(gathered(recording_fields(recording))))],
        ),
{
}

} // verus!
