//! The commands of a client, read from lines of JSON.

use crate::codec::{
    json_parsed, json_text, read_json, signed_of, signed_value, unsigned_of, unsigned_value,
    write_json,
};
use crate::json::{field_of, field_view, fields_view, find_field, Json, JsonValue};
use crate::session::{DialogChoice, Request, SessionCommand, SnapshotScreenshot};
use crate::text::{decimal, decimal_text, join, optional_text, quote, quoted, same_text};
use vstd::prelude::*;
use vstd::string::*;

verus! {

/// A command, by its texts.
#[allow(inconsistent_fields)]
pub ghost enum CommandView {
    Submit { flow: Seq<char>, variables: Seq<(Seq<char>, Seq<char>)> },
    Inspect { accessibility: bool, screenshot: bool },
    Snapshot { screenshot: SnapshotScreenshot, accessibility: bool, since: Option<u64> },
    Act { action: Json },
    Scroll { x: i64, y: i64 },
    Dialog { action: DialogChoice, text: Option<Seq<char>> },
    Export { name: Seq<char> },
    Output { name: Seq<char> },
    Cancel,
    Close,
}

/// The texts of variables.
pub open spec fn variables_view(variables: Seq<(String, String)>) -> Seq<(Seq<char>, Seq<char>)> {
    variables.map_values(|variable: (String, String)| (variable.0@, variable.1@))
}

impl View for SessionCommand {
    type V = CommandView;

    open spec fn view(&self) -> CommandView {
        match *self {
            SessionCommand::Submit { flow, variables } => CommandView::Submit {
                flow: flow@,
                variables: variables_view(variables@),
            },
            SessionCommand::Inspect { accessibility, screenshot } => CommandView::Inspect {
                accessibility,
                screenshot,
            },
            SessionCommand::Snapshot { screenshot, accessibility, since } =>
            CommandView::Snapshot { screenshot, accessibility, since },
            SessionCommand::Act { action } => CommandView::Act { action: action@ },
            SessionCommand::Scroll { x, y } => CommandView::Scroll { x, y },
            SessionCommand::Dialog { action, text } => CommandView::Dialog {
                action,
                text: optional_text(text),
            },
            SessionCommand::Export { name } => CommandView::Export { name: name@ },
            SessionCommand::Output { name } => CommandView::Output { name: name@ },
            SessionCommand::Cancel => CommandView::Cancel,
            SessionCommand::Close => CommandView::Close,
        }
    }
}

/// The numeral of an integer.
pub open spec fn integer_text(number: int) -> Seq<char> {
    if number < 0 {
        "-"@ + decimal((-number) as nat)
    } else {
        decimal(number as nat)
    }
}

/// How a value is told that was not expected.
pub open spec fn unexpected(value: Json) -> Seq<char> {
    match value {
        Json::Null => "null"@,
        Json::Bool(flag) => if flag {
            "boolean `true`"@
        } else {
            "boolean `false`"@
        },
        Json::Integer(number) => "integer `"@ + integer_text(number) + "`"@,
        Json::Real(number) => "floating point `"@ + json_text(Json::Real(number)) + "`"@,
        Json::Text(text) => "string "@ + quoted(text),
        Json::List(_) => "sequence"@,
        Json::Record(_) => "map"@,
    }
}

/// A value of the wrong kind.
pub open spec fn wrong_kind(value: Json, expected: Seq<char>) -> Seq<char> {
    "invalid type: "@ + unexpected(value) + ", expected "@ + expected
}

/// A number out of range, or a value of the wrong kind.
pub open spec fn wrong_number(value: Json, expected: Seq<char>) -> Seq<char> {
    if value is Integer {
        "invalid value: "@ + unexpected(value) + ", expected "@ + expected
    } else {
        wrong_kind(value, expected)
    }
}

/// A field that is not there.
pub open spec fn missing_field(name: Seq<char>) -> Seq<char> {
    "missing field `"@ + name + "`"@
}

/// A name that is none of those known.
pub open spec fn unknown_variant(name: Seq<char>, expected: Seq<char>) -> Seq<char> {
    "unknown variant `"@ + name + "`, expected "@ + expected
}

/// A text field, if it is there.
pub open spec fn text_field(fields: Seq<(Seq<char>, Json)>, name: Seq<char>) -> Result<
    Option<Seq<char>>,
    Seq<char>,
> {
    match field_of(fields, name) {
        None => Ok(None),
        Some(Json::Text(text)) => Ok(Some(text)),
        Some(value) => Err(wrong_kind(value, "a string"@)),
    }
}

/// A text field that may be null.
pub open spec fn optional_text_field(fields: Seq<(Seq<char>, Json)>, name: Seq<char>) -> Result<
    Option<Seq<char>>,
    Seq<char>,
> {
    match field_of(fields, name) {
        Some(Json::Null) => Ok(None),
        _ => text_field(fields, name),
    }
}

/// A truth value, or what stands in its place where it is not there.
pub open spec fn flag_field(
    fields: Seq<(Seq<char>, Json)>,
    name: Seq<char>,
    default: bool,
) -> Result<bool, Seq<char>> {
    match field_of(fields, name) {
        None => Ok(default),
        Some(Json::Bool(flag)) => Ok(flag),
        Some(value) => Err(wrong_kind(value, "a boolean"@)),
    }
}

/// An integer, if it is there.
pub open spec fn integer_field(fields: Seq<(Seq<char>, Json)>, name: Seq<char>) -> Result<
    Option<i64>,
    Seq<char>,
> {
    match field_of(fields, name) {
        None => Ok(None),
        Some(value) => match signed_of(value) {
            Some(number) => Ok(Some(number)),
            None => Err(wrong_number(value, "i64"@)),
        },
    }
}

/// A natural number that may be null, if it is there.
pub open spec fn optional_number_field(fields: Seq<(Seq<char>, Json)>, name: Seq<char>) -> Result<
    Option<u64>,
    Seq<char>,
> {
    match field_of(fields, name) {
        None => Ok(None),
        Some(Json::Null) => Ok(None),
        Some(value) => match unsigned_of(value) {
            Some(number) => Ok(Some(number)),
            None => Err(wrong_number(value, "u64"@)),
        },
    }
}

/// The texts of a record whose fields are texts.
pub open spec fn texts_of(fields: Seq<(Seq<char>, Json)>) -> Result<
    Seq<(Seq<char>, Seq<char>)>,
    Seq<char>,
>
    decreases fields.len(),
{
    if fields.len() == 0 {
        Ok(Seq::empty())
    } else {
        match (texts_of(fields.drop_last()), fields.last().1) {
            (Err(message), _) => Err(message),
            (Ok(texts), Json::Text(text)) => Ok(texts.push((fields.last().0, text))),
            (Ok(_), value) => Err(wrong_kind(value, "a string"@)),
        }
    }
}

/// The variables of a submission: none where the field is not there.
pub open spec fn variables_field(fields: Seq<(Seq<char>, Json)>) -> Result<
    Seq<(Seq<char>, Seq<char>)>,
    Seq<char>,
> {
    match field_of(fields, "variables"@) {
        None => Ok(Seq::empty()),
        Some(Json::Record(variables)) => texts_of(variables),
        Some(value) => Err(wrong_kind(value, "a map"@)),
    }
}

/// The name of a choice: a text, or a record that names it and says no more.
pub open spec fn choice_name(value: Json) -> Result<Seq<char>, Seq<char>> {
    match value {
        Json::Text(name) => Ok(name),
        Json::Record(fields) => if fields.len() == 1 {
            Ok(fields[0].0)
        } else {
            Err("invalid value: map, expected map with a single key"@)
        },
        _ => Err(wrong_kind(value, "string or map"@)),
    }
}

/// What a record says of its choice: nothing, as long as it is null or an empty record.
pub open spec fn choice_rest(value: Json) -> Result<(), Seq<char>> {
    match value {
        Json::Record(fields) => match fields[0].1 {
            Json::Null => Ok(()),
            Json::Record(rest) => if rest.len() == 0 {
                Ok(())
            } else {
                Err(wrong_kind(fields[0].1, "unit"@))
            },
            other => Err(wrong_kind(other, "unit"@)),
        },
        _ => Ok(()),
    }
}

/// Which screenshot a name stands for.
pub open spec fn screenshot_named(name: Seq<char>) -> Option<SnapshotScreenshot> {
    if name == "none"@ {
        Some(SnapshotScreenshot::Omitted)
    } else if name == "viewport"@ {
        Some(SnapshotScreenshot::Viewport)
    } else if name == "full_page"@ {
        Some(SnapshotScreenshot::FullPage)
    } else {
        None
    }
}

/// The screenshot of a snapshot: none where the field is not there.
pub open spec fn screenshot_field(fields: Seq<(Seq<char>, Json)>) -> Result<
    SnapshotScreenshot,
    Seq<char>,
> {
    match field_of(fields, "screenshot"@) {
        None => Ok(SnapshotScreenshot::Omitted),
        Some(value) => match choice_name(value) {
            Err(message) => Err(message),
            Ok(name) => match screenshot_named(name) {
                None => Err(
                    unknown_variant(name, "one of `none`, `viewport`, `full_page`"@),
                ),
                Some(screenshot) => match choice_rest(value) {
                    Err(message) => Err(message),
                    Ok(_) => Ok(screenshot),
                },
            },
        },
    }
}

/// Which answer a name stands for.
pub open spec fn answer_named(name: Seq<char>) -> Option<DialogChoice> {
    if name == "accept"@ {
        Some(DialogChoice::Accept)
    } else if name == "dismiss"@ {
        Some(DialogChoice::Dismiss)
    } else {
        None
    }
}

/// The answer to a dialog, if it is there.
pub open spec fn answer_field(fields: Seq<(Seq<char>, Json)>) -> Result<
    Option<DialogChoice>,
    Seq<char>,
> {
    match field_of(fields, "action"@) {
        None => Ok(None),
        Some(value) => match choice_name(value) {
            Err(message) => Err(message),
            Ok(name) => match answer_named(name) {
                None => Err(unknown_variant(name, "`accept` or `dismiss`"@)),
                Some(answer) => match choice_rest(value) {
                    Err(message) => Err(message),
                    Ok(_) => Ok(Some(answer)),
                },
            },
        },
    }
}

/// The kinds of commands, in the order in which they can be numbered.
#[derive(Debug, Clone, Copy, PartialEq, Eq, Structural)]
pub enum CommandKind {
    Submit,
    Inspect,
    Snapshot,
    Act,
    Scroll,
    Dialog,
    Export,
    Output,
    Cancel,
    Close,
}

/// The kind of command that a name stands for.
pub open spec fn kind_named(name: Seq<char>) -> Option<CommandKind> {
    if name == "submit"@ {
        Some(CommandKind::Submit)
    } else if name == "inspect"@ {
        Some(CommandKind::Inspect)
    } else if name == "snapshot"@ {
        Some(CommandKind::Snapshot)
    } else if name == "act"@ {
        Some(CommandKind::Act)
    } else if name == "scroll"@ {
        Some(CommandKind::Scroll)
    } else if name == "dialog"@ {
        Some(CommandKind::Dialog)
    } else if name == "export"@ {
        Some(CommandKind::Export)
    } else if name == "output"@ {
        Some(CommandKind::Output)
    } else if name == "cancel"@ {
        Some(CommandKind::Cancel)
    } else if name == "close"@ {
        Some(CommandKind::Close)
    } else {
        None
    }
}

/// The kind of command that a number stands for.
pub open spec fn kind_numbered(number: int) -> Option<CommandKind> {
    if number == 0 {
        Some(CommandKind::Submit)
    } else if number == 1 {
        Some(CommandKind::Inspect)
    } else if number == 2 {
        Some(CommandKind::Snapshot)
    } else if number == 3 {
        Some(CommandKind::Act)
    } else if number == 4 {
        Some(CommandKind::Scroll)
    } else if number == 5 {
        Some(CommandKind::Dialog)
    } else if number == 6 {
        Some(CommandKind::Export)
    } else if number == 7 {
        Some(CommandKind::Output)
    } else if number == 8 {
        Some(CommandKind::Cancel)
    } else if number == 9 {
        Some(CommandKind::Close)
    } else {
        None
    }
}

/// The kind of a command, by its name or its number.
pub open spec fn kind_of(fields: Seq<(Seq<char>, Json)>) -> Result<CommandKind, Seq<char>> {
    match field_of(fields, "command"@) {
        None => Err(missing_field("command"@)),
        Some(Json::Text(name)) => match kind_named(name) {
            Some(kind) => Ok(kind),
            None => Err(
                unknown_variant(
                    name,
                    "one of `submit`, `inspect`, `snapshot`, `act`, `scroll`, `dialog`, `export`, `output`, `cancel`, `close`"@,
                ),
            ),
        },
        Some(value) => match unsigned_of(value) {
            Some(number) => match kind_numbered(number as int) {
                Some(kind) => Ok(kind),
                None => Err(wrong_number(value, "variant index 0 <= i < 10"@)),
            },
            None => Err(wrong_kind(value, "variant identifier"@)),
        },
    }
}

/// A text that has to be there.
pub open spec fn needed_text(fields: Seq<(Seq<char>, Json)>, name: Seq<char>) -> Result<
    Seq<char>,
    Seq<char>,
> {
    match text_field(fields, name) {
        Err(message) => Err(message),
        Ok(None) => Err(missing_field(name)),
        Ok(Some(text)) => Ok(text),
    }
}

/// A submission. Fields of the wrong kind are told before fields that are missing.
pub open spec fn submit_of(fields: Seq<(Seq<char>, Json)>) -> Result<CommandView, Seq<char>> {
    match (text_field(fields, "flow"@), variables_field(fields)) {
        (Err(message), _) => Err(message),
        (Ok(_), Err(message)) => Err(message),
        (Ok(None), Ok(_)) => Err(missing_field("flow"@)),
        (Ok(Some(flow)), Ok(variables)) => Ok(CommandView::Submit { flow, variables }),
    }
}

/// An inspection.
pub open spec fn inspect_of(fields: Seq<(Seq<char>, Json)>) -> Result<CommandView, Seq<char>> {
    match (
        flag_field(fields, "accessibility"@, false),
        flag_field(fields, "screenshot"@, false),
    ) {
        (Err(message), _) => Err(message),
        (Ok(_), Err(message)) => Err(message),
        (Ok(accessibility), Ok(screenshot)) => Ok(
            CommandView::Inspect { accessibility, screenshot },
        ),
    }
}

/// A snapshot. It tells of accessibility unless that is not wanted.
pub open spec fn snapshot_of(fields: Seq<(Seq<char>, Json)>) -> Result<CommandView, Seq<char>> {
    match (
        flag_field(fields, "accessibility"@, true),
        screenshot_field(fields),
        optional_number_field(fields, "since"@),
    ) {
        (Err(message), _, _) => Err(message),
        (Ok(_), Err(message), _) => Err(message),
        (Ok(_), Ok(_), Err(message)) => Err(message),
        (Ok(accessibility), Ok(screenshot), Ok(since)) => Ok(
            CommandView::Snapshot { screenshot, accessibility, since },
        ),
    }
}

/// Scrolling. It is not sideways unless that is wanted.
pub open spec fn scroll_of(fields: Seq<(Seq<char>, Json)>) -> Result<CommandView, Seq<char>> {
    match (integer_field(fields, "x"@), integer_field(fields, "y"@)) {
        (Err(message), _) => Err(message),
        (Ok(_), Err(message)) => Err(message),
        (Ok(_), Ok(None)) => Err(missing_field("y"@)),
        (Ok(x), Ok(Some(y))) => Ok(
            CommandView::Scroll {
                x: match x {
                    Some(x) => x,
                    None => 0,
                },
                y,
            },
        ),
    }
}

/// The answer to a dialog.
pub open spec fn dialog_of(fields: Seq<(Seq<char>, Json)>) -> Result<CommandView, Seq<char>> {
    match (answer_field(fields), optional_text_field(fields, "text"@)) {
        (Err(message), _) => Err(message),
        (Ok(_), Err(message)) => Err(message),
        (Ok(None), Ok(_)) => Err(missing_field("action"@)),
        (Ok(Some(action)), Ok(text)) => Ok(CommandView::Dialog { action, text }),
    }
}

/// The command that fields make. Fields that it does not know are ignored.
pub open spec fn command_of(fields: Seq<(Seq<char>, Json)>) -> Result<CommandView, Seq<char>> {
    match kind_of(fields) {
        Err(message) => Err(message),
        Ok(CommandKind::Submit) => submit_of(fields),
        Ok(CommandKind::Inspect) => inspect_of(fields),
        Ok(CommandKind::Snapshot) => snapshot_of(fields),
        Ok(CommandKind::Act) => match field_of(fields, "action"@) {
            Some(action) => Ok(CommandView::Act { action }),
            None => Err(missing_field("action"@)),
        },
        Ok(CommandKind::Scroll) => scroll_of(fields),
        Ok(CommandKind::Dialog) => dialog_of(fields),
        Ok(CommandKind::Export) => match needed_text(fields, "name"@) {
            Ok(name) => Ok(CommandView::Export { name }),
            Err(message) => Err(message),
        },
        Ok(CommandKind::Output) => match needed_text(fields, "name"@) {
            Ok(name) => Ok(CommandView::Output { name }),
            Err(message) => Err(message),
        },
        Ok(CommandKind::Cancel) => Ok(CommandView::Cancel),
        Ok(CommandKind::Close) => Ok(CommandView::Close),
    }
}

/// The identifier that a value has for its response: null where it has none.
pub open spec fn id_of(value: Json) -> Json {
    match value {
        Json::Record(fields) => match field_of(fields, "id"@) {
            Some(id) => id,
            None => Json::Null,
        },
        _ => Json::Null,
    }
}

/// The command that a value makes, if it makes one.
pub open spec fn request_of(value: Json) -> Result<CommandView, Seq<char>> {
    match value {
        Json::Record(fields) => if field_of(fields, "id"@) is None {
            Err(missing_field("id"@))
        } else {
            command_of(fields)
        },
        _ => Err(wrong_kind(value, "struct Request"@)),
    }
}

/// Whether a result and a text, or the text of an error, are the same.
pub open spec fn is_text(result: Result<Option<String>, String>, expected: Result<
    Option<Seq<char>>,
    Seq<char>,
>) -> bool {
    match (result, expected) {
        (Ok(text), Ok(expected)) => optional_text(text) == expected,
        (Err(message), Err(expected)) => message@ == expected,
        _ => false,
    }
}

/// Whether a result is this value, or its error has this text.
pub open spec fn is_result<T>(result: Result<T, String>, expected: Result<T, Seq<char>>) -> bool {
    match (result, expected) {
        (Ok(value), Ok(expected)) => value == expected,
        (Err(message), Err(expected)) => message@ == expected,
        _ => false,
    }
}

/// Whether a result is this command, or its error has this text.
pub open spec fn is_command(
    result: Result<SessionCommand, String>,
    expected: Result<CommandView, Seq<char>>,
) -> bool {
    match (result, expected) {
        (Ok(command), Ok(expected)) => command@ == expected,
        (Err(message), Err(expected)) => message@ == expected,
        _ => false,
    }
}

fn tell_integer(value: &JsonValue) -> (text: Option<String>)
    ensures
        match (text, value@) {
            (Some(text), Json::Integer(number)) => text@ == "integer `"@ + integer_text(number)
                + "`"@,
            (None, Json::Integer(number)) => !(i64::MIN <= number <= u64::MAX),
            (Some(_), _) => false,
            (None, _) => true,
        },
{
    let mut text = "integer `".to_owned();
    match unsigned_value(value) {
        Some(number) => {
            let numeral = decimal_text(number);
            text.append(numeral.as_str());
        },
        None => match signed_value(value) {
            Some(number) => {
                let magnitude: u64 = if number == i64::MIN {
                    9_223_372_036_854_775_808
                } else {
                    (-number) as u64
                };
                text.append("-");
                let numeral = decimal_text(magnitude);
                text.append(numeral.as_str());
                assert(text@ =~= "integer `"@ + integer_text(number as int));
            },
            None => {
                return None;
            },
        },
    }
    text.append("`");
    Some(text)
}

/// An integer of a value is one of 64 bits.
proof fn integers_fit(value: JsonValue)
    ensures
        value@ matches Json::Integer(number) ==> i64::MIN <= number <= u64::MAX,
{
}

fn tell_unexpected(value: &JsonValue) -> (text: String)
    ensures
        text@ == unexpected(value@),
{
    broadcast use crate::json::group_json_views;

    proof {
        integers_fit(*value);
    }
    if let Some(text) = tell_integer(value) {
        return text;
    }
    match value {
        JsonValue::Null => "null".to_owned(),
        JsonValue::Bool(flag) => if *flag {
            "boolean `true`".to_owned()
        } else {
            "boolean `false`".to_owned()
        },
        JsonValue::Text(text) => {
            let shown = quote(text.as_str());
            join("string ", shown.as_str())
        },
        JsonValue::List(_) => "sequence".to_owned(),
        JsonValue::Record(_) => "map".to_owned(),
        _ => {
            let mut text = "floating point `".to_owned();
            let shown = write_json(value);
            text.append(shown.as_str());
            text.append("`");
            text
        },
    }
}

fn tell_wrong(word: &str, value: &JsonValue, expected: &str) -> (message: String)
    ensures
        message@ == word@ + unexpected(value@) + ", expected "@ + expected@,
{
    let mut message = word.to_owned();
    let shown = tell_unexpected(value);
    message.append(shown.as_str());
    message.append(", expected ");
    message.append(expected);
    message
}

fn tell_wrong_kind(value: &JsonValue, expected: &str) -> (message: String)
    ensures
        message@ == wrong_kind(value@, expected@),
{
    tell_wrong("invalid type: ", value, expected)
}

fn tell_wrong_number(value: &JsonValue, expected: &str) -> (message: String)
    ensures
        message@ == wrong_number(value@, expected@),
{
    proof {
        integers_fit(*value);
    }
    if tell_integer(value).is_some() {
        tell_wrong("invalid value: ", value, expected)
    } else {
        tell_wrong_kind(value, expected)
    }
}

fn tell_missing(name: &str) -> (message: String)
    ensures
        message@ == missing_field(name@),
{
    let mut message = "missing field `".to_owned();
    message.append(name);
    message.append("`");
    message
}

fn tell_unknown(name: &str, expected: &str) -> (message: String)
    ensures
        message@ == unknown_variant(name@, expected@),
{
    let mut message = "unknown variant `".to_owned();
    message.append(name);
    message.append("`, expected ");
    message.append(expected);
    message
}

fn take_text(fields: &Vec<(String, JsonValue)>, name: &str) -> (result: Result<
    Option<String>,
    String,
>)
    ensures
        is_text(result, text_field(fields_view(fields@), name@)),
{
    match find_field(fields, name) {
        None => Ok(None),
        Some(JsonValue::Text(text)) => Ok(Some(text.clone())),
        Some(value) => Err(tell_wrong_kind(value, "a string")),
    }
}

fn take_optional_text(fields: &Vec<(String, JsonValue)>, name: &str) -> (result: Result<
    Option<String>,
    String,
>)
    ensures
        is_text(result, optional_text_field(fields_view(fields@), name@)),
{
    match find_field(fields, name) {
        Some(JsonValue::Null) => Ok(None),
        _ => take_text(fields, name),
    }
}

fn take_flag(fields: &Vec<(String, JsonValue)>, name: &str, default: bool) -> (result: Result<
    bool,
    String,
>)
    ensures
        is_result(result, flag_field(fields_view(fields@), name@, default)),
{
    match find_field(fields, name) {
        None => Ok(default),
        Some(JsonValue::Bool(flag)) => Ok(*flag),
        Some(value) => Err(tell_wrong_kind(value, "a boolean")),
    }
}

fn take_integer(fields: &Vec<(String, JsonValue)>, name: &str) -> (result: Result<
    Option<i64>,
    String,
>)
    ensures
        is_result(result, integer_field(fields_view(fields@), name@)),
{
    match find_field(fields, name) {
        None => Ok(None),
        Some(value) => match signed_value(value) {
            Some(number) => Ok(Some(number)),
            None => Err(tell_wrong_number(value, "i64")),
        },
    }
}

fn take_optional_number(fields: &Vec<(String, JsonValue)>, name: &str) -> (result: Result<
    Option<u64>,
    String,
>)
    ensures
        is_result(result, optional_number_field(fields_view(fields@), name@)),
{
    match find_field(fields, name) {
        None => Ok(None),
        Some(JsonValue::Null) => Ok(None),
        Some(value) => match unsigned_value(value) {
            Some(number) => Ok(Some(number)),
            None => Err(tell_wrong_number(value, "u64")),
        },
    }
}

fn take_variables(fields: &Vec<(String, JsonValue)>) -> (result: Result<
    Vec<(String, String)>,
    String,
>)
    ensures
        match (result, variables_field(fields_view(fields@))) {
            (Ok(variables), Ok(expected)) => variables_view(variables@) == expected,
            (Err(message), Err(expected)) => message@ == expected,
            _ => false,
        },
{
    broadcast use crate::json::group_json_views;

    let mut variables: Vec<(String, String)> = Vec::new();
    assert(variables_view(variables@) =~= Seq::<(Seq<char>, Seq<char>)>::empty());
    let entries = match find_field(fields, "variables") {
        None => {
            return Ok(variables);
        },
        Some(JsonValue::Record(entries)) => entries,
        Some(value) => {
            return Err(tell_wrong_kind(value, "a map"));
        },
    };
    let ghost all = fields_view(entries@);
    let mut i: usize = 0;
    assert(all.take(0) =~= Seq::<(Seq<char>, Json)>::empty());
    while i < entries.len()
        invariant
            i <= entries.len(),
            all == fields_view(entries@),
            variables_field(fields_view(fields@)) == texts_of(all),
            texts_of(all.take(i as int)) == Ok::<Seq<(Seq<char>, Seq<char>)>, Seq<char>>(
                variables_view(variables@),
            ),
        decreases entries.len() - i,
    {
        proof {
            assert(all.take(i + 1).drop_last() == all.take(i as int));
            assert(all.take(i + 1).last() == field_view(entries@[i as int]));
        }
        match &entries[i].1 {
            JsonValue::Text(text) => {
                let ghost before = variables_view(variables@);
                variables.push((entries[i].0.clone(), text.clone()));
                assert(variables_view(variables@) =~= before.push(
                    (entries@[i as int].0@, text@),
                ));
            },
            value => {
                let message = tell_wrong_kind(value, "a string");
                proof {
                    errors_stay(all, i + 1);
                }
                return Err(message);
            },
        }
        i += 1;
    }
    assert(all.take(i as int) == all);
    Ok(variables)
}

proof fn errors_stay(fields: Seq<(Seq<char>, Json)>, at: int)
    requires
        0 <= at <= fields.len(),
        texts_of(fields.take(at)) is Err,
    ensures
        texts_of(fields) == texts_of(fields.take(at)),
    decreases fields.len() - at,
{
    if at < fields.len() {
        assert(fields.take(at + 1).drop_last() == fields.take(at));
        errors_stay(fields, at + 1);
    } else {
        assert(fields.take(at) == fields);
    }
}

fn take_choice_name(value: &JsonValue) -> (result: Result<String, String>)
    ensures
        match (result, choice_name(value@)) {
            (Ok(name), Ok(expected)) => name@ == expected,
            (Err(message), Err(expected)) => message@ == expected,
            _ => false,
        },
{
    broadcast use crate::json::group_json_views;

    match value {
        JsonValue::Text(name) => Ok(name.clone()),
        JsonValue::Record(fields) => {
            if fields.len() == 1 {
                assert(fields_view(fields@)[0] == field_view(fields@[0]));
                Ok(fields[0].0.clone())
            } else {
                Err("invalid value: map, expected map with a single key".to_owned())
            }
        },
        _ => Err(tell_wrong_kind(value, "string or map")),
    }
}

fn check_choice_rest(value: &JsonValue) -> (result: Result<(), String>)
    requires
        choice_name(value@) is Ok,
    ensures
        is_result(result, choice_rest(value@)),
{
    broadcast use crate::json::group_json_views;

    match value {
        JsonValue::Record(fields) => {
            assert(fields_view(fields@)[0] == field_view(fields@[0]));
            match &fields[0].1 {
                JsonValue::Null => Ok(()),
                JsonValue::Record(rest) => {
                    if rest.len() == 0 {
                        Ok(())
                    } else {
                        Err(tell_wrong_kind(&fields[0].1, "unit"))
                    }
                },
                other => Err(tell_wrong_kind(other, "unit")),
            }
        },
        _ => Ok(()),
    }
}

fn take_screenshot(fields: &Vec<(String, JsonValue)>) -> (result: Result<
    SnapshotScreenshot,
    String,
>)
    ensures
        is_result(result, screenshot_field(fields_view(fields@))),
{
    let value = match find_field(fields, "screenshot") {
        None => {
            return Ok(SnapshotScreenshot::Omitted);
        },
        Some(value) => value,
    };
    let name = match take_choice_name(value) {
        Ok(name) => name,
        Err(message) => {
            return Err(message);
        },
    };
    let screenshot = if same_text(name.as_str(), "none") {
        SnapshotScreenshot::Omitted
    } else if same_text(name.as_str(), "viewport") {
        SnapshotScreenshot::Viewport
    } else if same_text(name.as_str(), "full_page") {
        SnapshotScreenshot::FullPage
    } else {
        return Err(tell_unknown(name.as_str(), "one of `none`, `viewport`, `full_page`"));
    };
    match check_choice_rest(value) {
        Ok(_) => Ok(screenshot),
        Err(message) => Err(message),
    }
}

fn take_answer(fields: &Vec<(String, JsonValue)>) -> (result: Result<Option<DialogChoice>, String>)
    ensures
        is_result(result, answer_field(fields_view(fields@))),
{
    let value = match find_field(fields, "action") {
        None => {
            return Ok(None);
        },
        Some(value) => value,
    };
    let name = match take_choice_name(value) {
        Ok(name) => name,
        Err(message) => {
            return Err(message);
        },
    };
    let answer = if same_text(name.as_str(), "accept") {
        DialogChoice::Accept
    } else if same_text(name.as_str(), "dismiss") {
        DialogChoice::Dismiss
    } else {
        return Err(tell_unknown(name.as_str(), "`accept` or `dismiss`"));
    };
    match check_choice_rest(value) {
        Ok(_) => Ok(Some(answer)),
        Err(message) => Err(message),
    }
}

fn find_kind(name: &str) -> (kind: Option<CommandKind>)
    ensures
        kind == kind_named(name@),
{
    if same_text(name, "submit") {
        Some(CommandKind::Submit)
    } else if same_text(name, "inspect") {
        Some(CommandKind::Inspect)
    } else if same_text(name, "snapshot") {
        Some(CommandKind::Snapshot)
    } else if same_text(name, "act") {
        Some(CommandKind::Act)
    } else if same_text(name, "scroll") {
        Some(CommandKind::Scroll)
    } else if same_text(name, "dialog") {
        Some(CommandKind::Dialog)
    } else if same_text(name, "export") {
        Some(CommandKind::Export)
    } else if same_text(name, "output") {
        Some(CommandKind::Output)
    } else if same_text(name, "cancel") {
        Some(CommandKind::Cancel)
    } else if same_text(name, "close") {
        Some(CommandKind::Close)
    } else {
        None
    }
}

fn count_kind(number: u64) -> (kind: Option<CommandKind>)
    ensures
        kind == kind_numbered(number as int),
{
    match number {
        0 => Some(CommandKind::Submit),
        1 => Some(CommandKind::Inspect),
        2 => Some(CommandKind::Snapshot),
        3 => Some(CommandKind::Act),
        4 => Some(CommandKind::Scroll),
        5 => Some(CommandKind::Dialog),
        6 => Some(CommandKind::Export),
        7 => Some(CommandKind::Output),
        8 => Some(CommandKind::Cancel),
        9 => Some(CommandKind::Close),
        _ => None,
    }
}

fn take_kind(fields: &Vec<(String, JsonValue)>) -> (result: Result<CommandKind, String>)
    ensures
        is_result(result, kind_of(fields_view(fields@))),
{
    match find_field(fields, "command") {
        None => Err(tell_missing("command")),
        Some(JsonValue::Text(name)) => match find_kind(name.as_str()) {
            Some(kind) => Ok(kind),
            None => Err(
                tell_unknown(
                    name.as_str(),
                    "one of `submit`, `inspect`, `snapshot`, `act`, `scroll`, `dialog`, `export`, `output`, `cancel`, `close`",
                ),
            ),
        },
        Some(value) => match unsigned_value(value) {
            Some(number) => match count_kind(number) {
                Some(kind) => Ok(kind),
                None => Err(tell_wrong_number(value, "variant index 0 <= i < 10")),
            },
            None => Err(tell_wrong_kind(value, "variant identifier")),
        },
    }
}

fn take_name(fields: &Vec<(String, JsonValue)>) -> (result: Result<String, String>)
    ensures
        match (result, needed_text(fields_view(fields@), "name"@)) {
            (Ok(name), Ok(expected)) => name@ == expected,
            (Err(message), Err(expected)) => message@ == expected,
            _ => false,
        },
{
    match take_text(fields, "name") {
        Err(message) => Err(message),
        Ok(None) => Err(tell_missing("name")),
        Ok(Some(text)) => Ok(text),
    }
}

fn take_submit(fields: &Vec<(String, JsonValue)>) -> (result: Result<SessionCommand, String>)
    ensures
        is_command(result, submit_of(fields_view(fields@))),
{
    let flow = match take_text(fields, "flow") {
        Ok(flow) => flow,
        Err(message) => {
            return Err(message);
        },
    };
    let variables = match take_variables(fields) {
        Ok(variables) => variables,
        Err(message) => {
            return Err(message);
        },
    };
    match flow {
        Some(flow) => Ok(SessionCommand::Submit { flow, variables }),
        None => Err(tell_missing("flow")),
    }
}

fn take_inspect(fields: &Vec<(String, JsonValue)>) -> (result: Result<SessionCommand, String>)
    ensures
        is_command(result, inspect_of(fields_view(fields@))),
{
    match take_flag(fields, "accessibility", false) {
        Err(message) => Err(message),
        Ok(accessibility) => match take_flag(fields, "screenshot", false) {
            Err(message) => Err(message),
            Ok(screenshot) => Ok(SessionCommand::Inspect { accessibility, screenshot }),
        },
    }
}

fn take_snapshot(fields: &Vec<(String, JsonValue)>) -> (result: Result<SessionCommand, String>)
    ensures
        is_command(result, snapshot_of(fields_view(fields@))),
{
    let accessibility = match take_flag(fields, "accessibility", true) {
        Ok(accessibility) => accessibility,
        Err(message) => {
            return Err(message);
        },
    };
    let screenshot = match take_screenshot(fields) {
        Ok(screenshot) => screenshot,
        Err(message) => {
            return Err(message);
        },
    };
    match take_optional_number(fields, "since") {
        Ok(since) => Ok(SessionCommand::Snapshot { screenshot, accessibility, since }),
        Err(message) => Err(message),
    }
}

fn take_scroll(fields: &Vec<(String, JsonValue)>) -> (result: Result<SessionCommand, String>)
    ensures
        is_command(result, scroll_of(fields_view(fields@))),
{
    let x = match take_integer(fields, "x") {
        Ok(x) => x,
        Err(message) => {
            return Err(message);
        },
    };
    let y = match take_integer(fields, "y") {
        Ok(y) => y,
        Err(message) => {
            return Err(message);
        },
    };
    match y {
        None => Err(tell_missing("y")),
        Some(y) => match x {
            Some(x) => Ok(SessionCommand::Scroll { x, y }),
            None => Ok(SessionCommand::Scroll { x: 0, y }),
        },
    }
}

fn take_dialog(fields: &Vec<(String, JsonValue)>) -> (result: Result<SessionCommand, String>)
    ensures
        is_command(result, dialog_of(fields_view(fields@))),
{
    let action = match take_answer(fields) {
        Ok(action) => action,
        Err(message) => {
            return Err(message);
        },
    };
    let text = match take_optional_text(fields, "text") {
        Ok(text) => text,
        Err(message) => {
            return Err(message);
        },
    };
    match action {
        Some(action) => Ok(SessionCommand::Dialog { action, text }),
        None => Err(tell_missing("action")),
    }
}

fn take_command(fields: &Vec<(String, JsonValue)>) -> (result: Result<SessionCommand, String>)
    ensures
        is_command(result, command_of(fields_view(fields@))),
{
    let kind = match take_kind(fields) {
        Ok(kind) => kind,
        Err(message) => {
            return Err(message);
        },
    };
    match kind {
        CommandKind::Submit => take_submit(fields),
        CommandKind::Inspect => take_inspect(fields),
        CommandKind::Snapshot => take_snapshot(fields),
        CommandKind::Act => match find_field(fields, "action") {
            Some(action) => Ok(SessionCommand::Act { action: action.clone() }),
            None => Err(tell_missing("action")),
        },
        CommandKind::Scroll => take_scroll(fields),
        CommandKind::Dialog => take_dialog(fields),
        CommandKind::Export => match take_name(fields) {
            Ok(name) => Ok(SessionCommand::Export { name }),
            Err(message) => Err(message),
        },
        CommandKind::Output => match take_name(fields) {
            Ok(name) => Ok(SessionCommand::Output { name }),
            Err(message) => Err(message),
        },
        CommandKind::Cancel => Ok(SessionCommand::Cancel),
        CommandKind::Close => Ok(SessionCommand::Close),
    }
}

/// Whether this is what a line is read as: a request, or the identifier to answer to and the message.
pub open spec fn is_request(
    result: Result<Request, (JsonValue, String)>,
    parsed: Result<Json, Seq<char>>,
) -> bool {
    match parsed {
        Err(message) => match result {
            Err((id, told)) => id@ == Json::Null && told@ == message,
            Ok(_) => false,
        },
        Ok(value) => match (result, request_of(value)) {
            (Ok(request), Ok(command)) => request.id@ == id_of(value) && request.command@ == command,
            (Err((id, told)), Err(message)) => id@ == id_of(value) && told@ == message,
            _ => false,
        },
    }
}

/// Reads a request from a value, or from the error that stands in its place.
pub fn request_from(parsed: Result<JsonValue, String>) -> (result: Result<
    Request,
    (JsonValue, String),
>)
    ensures
        is_request(
            result,
            match parsed {
                Ok(value) => Ok(value@),
                Err(message) => Err(message@),
            },
        ),
{
    broadcast use crate::json::group_json_views;

    let value = match parsed {
        Ok(value) => value,
        Err(message) => {
            return Err((JsonValue::Null, message));
        },
    };
    match &value {
        JsonValue::Record(fields) => match find_field(fields, "id") {
            None => Err((JsonValue::Null, tell_missing("id"))),
            Some(id) => match take_command(fields) {
                Ok(command) => Ok(Request { id: id.clone(), command }),
                Err(message) => Err((id.clone(), message)),
            },
        },
        _ => {
            let message = tell_wrong_kind(&value, "struct Request");
            Err((JsonValue::Null, message))
        },
    }
}

/// Reads a request from a line.
pub fn decode_request(line: &[u8]) -> (result: Result<Request, (JsonValue, String)>)
    ensures
        is_request(result, json_parsed(line@)),
{
    request_from(read_json(line))
}

/// Whether a request is read or refused, it is answered to the identifier that its line gave, or to
/// null where the line gave none that could be read.
pub proof fn requests_keep_their_identifier(
    result: Result<Request, (JsonValue, String)>,
    parsed: Result<Json, Seq<char>>,
)
    requires
        is_request(result, parsed),
    ensures
        ({
            let id = match result {
                Ok(request) => request.id@,
                Err((id, _)) => id@,
            };
            id == match parsed {
                Ok(value) => id_of(value),
                Err(_) => Json::Null,
            }
        }),
{
}

proof fn kinds_are_named()
    ensures
        kind_named("submit"@) == Some(CommandKind::Submit),
        kind_named("inspect"@) == Some(CommandKind::Inspect),
        kind_named("snapshot"@) == Some(CommandKind::Snapshot),
        kind_named("act"@) == Some(CommandKind::Act),
        kind_named("scroll"@) == Some(CommandKind::Scroll),
        kind_named("dialog"@) == Some(CommandKind::Dialog),
        kind_named("export"@) == Some(CommandKind::Export),
        kind_named("output"@) == Some(CommandKind::Output),
        kind_named("cancel"@) == Some(CommandKind::Cancel),
        kind_named("close"@) == Some(CommandKind::Close),
{
    reveal_strlit("submit");
    reveal_strlit("inspect");
    reveal_strlit("snapshot");
    reveal_strlit("act");
    reveal_strlit("scroll");
    reveal_strlit("dialog");
    reveal_strlit("export");
    reveal_strlit("output");
    reveal_strlit("cancel");
    reveal_strlit("close");
    assert("submit"@.len() == 6 && "submit"@[0] == 's' && "submit"@[1] == 'u');
    assert("inspect"@.len() == 7 && "snapshot"@.len() == 8 && "act"@.len() == 3);
    assert("scroll"@.len() == 6 && "scroll"@[0] == 's' && "scroll"@[1] == 'c');
    assert("dialog"@.len() == 6 && "dialog"@[0] == 'd');
    assert("export"@.len() == 6 && "export"@[0] == 'e');
    assert("output"@.len() == 6 && "output"@[0] == 'o');
    assert("cancel"@.len() == 6 && "cancel"@[0] == 'c');
    assert("close"@.len() == 5);
}

/// What a request says is what is done: a command is read by its name, with what it was given.
pub proof fn commands_are_read_by_name(
    value: JsonValue,
    fields: Seq<(Seq<char>, Json)>,
    id: Json,
    name: Seq<char>,
    result: Result<Request, (JsonValue, String)>,
)
    requires
        value@ == Json::Record(fields),
        field_of(fields, "id"@) == Some(id),
        field_of(fields, "command"@) == Some(Json::Text(name)),
        call_ensures(request_from, (Ok::<JsonValue, String>(value),), result),
    ensures
        match result {
            Ok(request) => request.id@ == id,
            Err((told, _)) => told@ == id,
        },
        name == "cancel"@ ==> result is Ok && result->Ok_0.command is Cancel,
        name == "close"@ ==> result is Ok && result->Ok_0.command is Close,
        name == "act"@ ==> match field_of(fields, "action"@) {
            Some(action) => result is Ok && (result->Ok_0.command matches SessionCommand::Act {
                action: held,
            } && held@ == action),
            None => result is Err,
        },
        name == "export"@ ==> match field_of(fields, "name"@) {
            Some(Json::Text(wanted)) => result is Ok && (result->Ok_0.command matches
                SessionCommand::Export { name: held } && held@ == wanted),
            _ => result is Err,
        },
        name == "output"@ ==> match field_of(fields, "name"@) {
            Some(Json::Text(wanted)) => result is Ok && (result->Ok_0.command matches
                SessionCommand::Output { name: held } && held@ == wanted),
            _ => result is Err,
        },
        name == "submit"@ && field_of(fields, "variables"@) is None ==> match field_of(
            fields,
            "flow"@,
        ) {
            Some(Json::Text(flow)) => result is Ok && (result->Ok_0.command matches
                SessionCommand::Submit { flow: held, variables } && held@ == flow
                && variables@.len() == 0),
            _ => result is Err,
        },
{
    kinds_are_named();
    if let Ok(request) = result {
        assert(request.command@ == command_of(fields)->Ok_0);
        if let SessionCommand::Submit { flow, variables } = request.command {
            assert(variables_view(variables@).len() == variables@.len());
        }
    }
}

/// An inspection looks at what it was told to, and at nothing it was not told; a snapshot reads the elements
/// unless it was told not to, takes the picture that it was asked for, and compares with the revision it names.
pub proof fn looks_are_taken_as_asked(
    value: JsonValue,
    fields: Seq<(Seq<char>, Json)>,
    result: Result<Request, (JsonValue, String)>,
)
    requires
        value@ == Json::Record(fields),
        field_of(fields, "id"@) is Some,
        call_ensures(request_from, (Ok::<JsonValue, String>(value),), result),
    ensures
        field_of(fields, "command"@) == Some(Json::Text("inspect"@)) ==> (result matches Ok(request)
            ==> (request.command matches SessionCommand::Inspect { accessibility, screenshot } && {
            &&& accessibility == (field_of(fields, "accessibility"@) == Some(Json::Bool(true)))
            &&& screenshot == (field_of(fields, "screenshot"@) == Some(Json::Bool(true)))
        })),
        field_of(fields, "command"@) == Some(Json::Text("snapshot"@)) ==> (result matches Ok(request)
            ==> (request.command matches SessionCommand::Snapshot {
            screenshot,
            accessibility,
            since,
        } && {
            &&& accessibility == (field_of(fields, "accessibility"@) != Some(Json::Bool(false)))
            &&& (field_of(fields, "screenshot"@) is None ==> screenshot is Omitted)
            &&& (field_of(fields, "screenshot"@) == Some(Json::Text("none"@)) ==> screenshot
                is Omitted)
            &&& (field_of(fields, "screenshot"@) == Some(Json::Text("viewport"@)) ==> screenshot
                is Viewport)
            &&& (field_of(fields, "screenshot"@) == Some(Json::Text("full_page"@)) ==> screenshot
                is FullPage)
            &&& (since is None <==> field_of(fields, "since"@) is None || field_of(
                fields,
                "since"@,
            ) == Some(Json::Null))
            &&& (since is Some ==> unsigned_of(field_of(fields, "since"@)->0) == since)
        })),
{
    kinds_are_named();
    reveal_strlit("none");
    reveal_strlit("viewport");
    reveal_strlit("full_page");
    assert("none"@.len() == 4 && "viewport"@.len() == 8 && "full_page"@.len() == 9);
    if let Ok(request) = result {
        assert(request.command@ == command_of(fields)->Ok_0);
    }
}

/// A look that is asked for with nothing else is granted.
pub proof fn plain_looks_are_granted(
    value: JsonValue,
    fields: Seq<(Seq<char>, Json)>,
    result: Result<Request, (JsonValue, String)>,
)
    requires
        value@ == Json::Record(fields),
        field_of(fields, "id"@) is Some,
        field_of(fields, "accessibility"@) is None,
        field_of(fields, "screenshot"@) is None,
        field_of(fields, "since"@) is None,
        field_of(fields, "command"@) == Some(Json::Text("inspect"@)) || field_of(fields, "command"@)
            == Some(Json::Text("snapshot"@)),
        call_ensures(request_from, (Ok::<JsonValue, String>(value),), result),
    ensures
        result is Ok,
{
    kinds_are_named();
}

/// A scroll goes as far as it was told, and sideways by nothing unless it was told. A dialog is answered as it
/// was told, with the text it was given.
pub proof fn scrolls_and_answers_are_read(
    value: JsonValue,
    fields: Seq<(Seq<char>, Json)>,
    result: Result<Request, (JsonValue, String)>,
)
    requires
        value@ == Json::Record(fields),
        field_of(fields, "id"@) is Some,
        call_ensures(request_from, (Ok::<JsonValue, String>(value),), result),
    ensures
        field_of(fields, "command"@) == Some(Json::Text("scroll"@)) ==> {
            &&& (result matches Ok(request) ==> (request.command matches SessionCommand::Scroll {
                x,
                y,
            } && {
                &&& (field_of(fields, "x"@) is None ==> x == 0)
                &&& (field_of(fields, "x"@) matches Some(held) ==> signed_of(held) == Some(x))
                &&& (field_of(fields, "y"@) matches Some(held) && signed_of(held) == Some(y))
            }))
            &&& (field_of(fields, "y"@) is None ==> result is Err)
        },
        field_of(fields, "command"@) == Some(Json::Text("dialog"@)) ==> (result matches Ok(request)
            ==> (request.command matches SessionCommand::Dialog { action, text } && {
            &&& (field_of(fields, "action"@) == Some(Json::Text("accept"@)) ==> action is Accept)
            &&& (field_of(fields, "action"@) == Some(Json::Text("dismiss"@)) ==> action is Dismiss)
            &&& field_of(fields, "action"@) is Some
            &&& (text is Some ==> field_of(fields, "text"@) == Some(Json::Text(text->0@)))
            &&& (field_of(fields, "text"@) matches Some(Json::Text(held)) ==> text is Some)
        })),
{
    kinds_are_named();
    reveal_strlit("accept");
    reveal_strlit("dismiss");
    assert("accept"@.len() == 6 && "dismiss"@.len() == 7);
    if let Ok(request) = result {
        assert(request.command@ == command_of(fields)->Ok_0);
    }
}

/// The variables of a submission are its texts, name for name, in order.
pub proof fn variables_are_texts(
    fields: Seq<(Seq<char>, Json)>,
    variables: Seq<(Seq<char>, Json)>,
    i: int,
)
    requires
        field_of(fields, "variables"@) == Some(Json::Record(variables)),
    ensures
        variables_field(fields) matches Ok(texts) ==> texts.len() == variables.len() && (0 <= i
            < variables.len() ==> variables[i] == (texts[i].0, Json::Text(texts[i].1))),
        (forall|k: int| 0 <= k < variables.len() ==> (#[trigger] variables[k]).1 is Text)
            <==> variables_field(fields) is Ok,
{
    texts_are_taken(variables, i);
}

proof fn texts_are_taken(fields: Seq<(Seq<char>, Json)>, i: int)
    ensures
        texts_of(fields) matches Ok(texts) ==> texts.len() == fields.len() && (0 <= i < fields.len()
            ==> fields[i] == (texts[i].0, Json::Text(texts[i].1))),
        (forall|k: int| 0 <= k < fields.len() ==> (#[trigger] fields[k]).1 is Text) <==> texts_of(
            fields,
        ) is Ok,
    decreases fields.len(),
{
    if fields.len() > 0 {
        let before = fields.drop_last();
        texts_are_taken(before, i);
        if forall|k: int| 0 <= k < fields.len() ==> (#[trigger] fields[k]).1 is Text {
            assert forall|k: int| 0 <= k < before.len() implies (#[trigger] before[k]).1 is Text by {
                assert(before[k] == fields[k]);
            }
            assert(fields[fields.len() - 1].1 is Text);
        }
        if texts_of(fields) is Ok {
            assert forall|k: int| 0 <= k < fields.len() implies (#[trigger] fields[k]).1 is Text by {
                if k < before.len() {
                    assert(before[k] == fields[k]);
                }
            }
        }
    }
}

/// What is no request is refused: no record, one without an identifier, and one without a known command.
pub proof fn what_is_no_request_is_refused(
    parsed: Result<JsonValue, String>,
    result: Result<Request, (JsonValue, String)>,
)
    requires
        call_ensures(request_from, (parsed,), result),
    ensures
        parsed is Err ==> (result matches Err((id, message)) && id@ is Null && message@
            == parsed->Err_0@),
        parsed matches Ok(value) ==> (!(value@ is Record) ==> result is Err && result->Err_0.0@
            is Null),
        parsed matches Ok(value) ==> (value@ matches Json::Record(fields) ==> (field_of(
            fields,
            "id"@,
        ) is None || field_of(fields, "command"@) is None ==> result is Err)),
{
}

/// A command may be told by its number, which counts the names in their order.
pub proof fn commands_are_numbered_in_order(number: int)
    ensures
        ({
            let names = seq![
                "submit"@,
                "inspect"@,
                "snapshot"@,
                "act"@,
                "scroll"@,
                "dialog"@,
                "export"@,
                "output"@,
                "cancel"@,
                "close"@,
            ];
            &&& 0 <= number < 10 ==> kind_numbered(number) is Some && kind_numbered(number)
                == kind_named(names[number])
            &&& number < 0 || number >= 10 ==> kind_numbered(number) is None
        }),
{
    kinds_are_named();
}

/// A choice may be given by its name alone or as a record of that name with nothing in it.
pub proof fn choices_are_names_or_records(name: Seq<char>, given: Json)
    requires
        given == Json::Record(seq![(name, Json::Null)]),
    ensures
        choice_name(Json::Text(name)) == Ok::<Seq<char>, Seq<char>>(name),
        choice_name(given) == Ok::<Seq<char>, Seq<char>>(name),
        choice_rest(given) is Ok && choice_rest(Json::Text(name)) is Ok,
{
}

} // verus!
