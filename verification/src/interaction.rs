//! Keys, pointer gestures and what the page's own functions say of an element.

use crate::flow::{Key, Modifier, NamedKey};
use crate::report::FailureCategory;
use crate::step_error::{deadline_error, plain_error, protocol, StepError};
use crate::text::{join, quote, quoted, same_text};
use vstd::prelude::*;
use vstd::string::*;

verus! {

/// The function that focuses an element.
pub const FOCUS_FUNCTION: &'static str = "function() {
    if (!this.isConnected) return false;
    this.focus();
    return document.activeElement === this;
}";

/// The function that empties an element before it is filled.
pub const PREPARE_FILL_FUNCTION: &'static str = "function() {
    if (!this.isConnected) return false;
    this.focus();
    if (this instanceof HTMLInputElement) {
        Object.getOwnPropertyDescriptor(HTMLInputElement.prototype, 'value').set.call(this, '');
    } else if (this instanceof HTMLTextAreaElement) {
        Object.getOwnPropertyDescriptor(HTMLTextAreaElement.prototype, 'value').set.call(this, '');
    } else if (this.isContentEditable) {
        const range = document.createRange();
        range.selectNodeContents(this);
        const selection = getSelection();
        selection.removeAllRanges();
        selection.addRange(range);
    } else {
        return false;
    }
    return document.activeElement === this;
}";

/// The function that erases what an element holds.
pub const ERASE_FUNCTION: &'static str = "function() {
    if (!this.isConnected) return 'detached';
    this.focus();
    if (document.activeElement !== this) return 'focus';
    if (this instanceof HTMLInputElement) {
        Object.getOwnPropertyDescriptor(HTMLInputElement.prototype, 'value').set.call(this, '');
    } else if (this instanceof HTMLTextAreaElement) {
        Object.getOwnPropertyDescriptor(HTMLTextAreaElement.prototype, 'value').set.call(this, '');
    } else if (this.isContentEditable) {
        this.replaceChildren();
    } else {
        return 'editable';
    }
    this.dispatchEvent(new InputEvent('input', {
        bubbles: true, inputType: 'deleteContentBackward', data: null
    }));
    this.dispatchEvent(new Event('change', { bubbles: true }));
    return 'ok';
}";

/// The function that selects an option.
pub const SELECT_FUNCTION: &'static str = "function(value) {
    if (!this.isConnected) return 'detached';
    if (!(this instanceof HTMLSelectElement) || this.multiple) return 'select';
    if (!Array.from(this.options).some(option => option.value === value)) return 'option';
    this.focus();
    if (document.activeElement !== this) return 'focus';
    Object.getOwnPropertyDescriptor(HTMLSelectElement.prototype, 'value').set.call(this, value);
    this.dispatchEvent(new Event('input', { bubbles: true }));
    this.dispatchEvent(new Event('change', { bubbles: true }));
    return 'ok';
}";

/// The function that reads the text of an element.
pub const INNER_TEXT_FUNCTION: &'static str = "function() { return this.innerText; }";

/// The function that reads the size of a frame's content.
pub const FRAME_SIZE_FUNCTION: &'static str =
    "function() { return [this.clientWidth, this.clientHeight]; }";

/// The bit of a modifier key in the browser protocol.
pub open spec fn modifier_bit(modifier: Modifier) -> i64 {
    match modifier {
        Modifier::Alt => 1,
        Modifier::Control => 2,
        Modifier::Meta => 4,
        Modifier::Shift => 8,
    }
}

/// Whether the modifier is among the pressed ones.
pub open spec fn is_pressed(modifiers: Seq<Modifier>, modifier: Modifier) -> bool {
    exists|i: int| 0 <= i < modifiers.len() && #[trigger] modifiers[i] == modifier
}

/// The bit of a modifier key that is pressed.
pub open spec fn pressed_bit(modifiers: Seq<Modifier>, modifier: Modifier) -> int {
    if is_pressed(modifiers, modifier) {
        modifier_bit(modifier) as int
    } else {
        0
    }
}

fn presses(modifiers: &Vec<Modifier>, modifier: Modifier) -> (pressed: bool)
    ensures
        pressed == is_pressed(modifiers@, modifier),
{
    let mut i: usize = 0;
    while i < modifiers.len()
        invariant
            i <= modifiers.len(),
            forall|k: int| 0 <= k < i ==> #[trigger] modifiers@[k] != modifier,
        decreases modifiers.len() - i,
    {
        if modifiers[i] == modifier {
            return true;
        }
        i += 1;
    }
    false
}

/// The pressed modifiers as the browser protocol counts them: one bit for each, however often it
/// is named.
pub fn modifier_mask(modifiers: &Vec<Modifier>) -> (mask: i64)
    ensures
        mask == pressed_bit(modifiers@, Modifier::Alt) + pressed_bit(modifiers@, Modifier::Control)
            + pressed_bit(modifiers@, Modifier::Meta) + pressed_bit(modifiers@, Modifier::Shift),
{
    let mut mask: i64 = 0;
    if presses(modifiers, Modifier::Alt) {
        mask = mask + 1;
    }
    if presses(modifiers, Modifier::Control) {
        mask = mask + 2;
    }
    if presses(modifiers, Modifier::Meta) {
        mask = mask + 4;
    }
    if presses(modifiers, Modifier::Shift) {
        mask = mask + 8;
    }
    mask
}

/// The name of a key in the browser protocol.
pub open spec fn key_label(key: Key) -> Seq<char> {
    match key {
        Key::Character(character) => seq![character],
        Key::Named(NamedKey::Enter) => "Enter"@,
        Key::Named(NamedKey::Tab) => "Tab"@,
        Key::Named(NamedKey::Escape) => "Escape"@,
        Key::Named(NamedKey::Space) => " "@,
        Key::Named(NamedKey::Backspace) => "Backspace"@,
        Key::Named(NamedKey::Delete) => "Delete"@,
        Key::Named(NamedKey::ArrowUp) => "ArrowUp"@,
        Key::Named(NamedKey::ArrowDown) => "ArrowDown"@,
        Key::Named(NamedKey::ArrowLeft) => "ArrowLeft"@,
        Key::Named(NamedKey::ArrowRight) => "ArrowRight"@,
        Key::Named(NamedKey::Home) => "Home"@,
        Key::Named(NamedKey::End) => "End"@,
        Key::Named(NamedKey::PageUp) => "PageUp"@,
        Key::Named(NamedKey::PageDown) => "PageDown"@,
    }
}

/// The name of a key in the browser protocol.
pub fn key_name(key: &Key) -> (name: String)
    ensures
        name@ == key_label(*key),
{
    match key {
        Key::Character(character) => {
            let mut name = String::new();
            name.push(*character);
            assert(name@ == seq![*character]);
            name
        },
        Key::Named(NamedKey::Enter) => "Enter".to_owned(),
        Key::Named(NamedKey::Tab) => "Tab".to_owned(),
        Key::Named(NamedKey::Escape) => "Escape".to_owned(),
        Key::Named(NamedKey::Space) => " ".to_owned(),
        Key::Named(NamedKey::Backspace) => "Backspace".to_owned(),
        Key::Named(NamedKey::Delete) => "Delete".to_owned(),
        Key::Named(NamedKey::ArrowUp) => "ArrowUp".to_owned(),
        Key::Named(NamedKey::ArrowDown) => "ArrowDown".to_owned(),
        Key::Named(NamedKey::ArrowLeft) => "ArrowLeft".to_owned(),
        Key::Named(NamedKey::ArrowRight) => "ArrowRight".to_owned(),
        Key::Named(NamedKey::Home) => "Home".to_owned(),
        Key::Named(NamedKey::End) => "End".to_owned(),
        Key::Named(NamedKey::PageUp) => "PageUp".to_owned(),
        Key::Named(NamedKey::PageDown) => "PageDown".to_owned(),
    }
}

/// The character that a key gives with shift, on a US keyboard.
pub open spec fn shifted(character: char) -> char {
    if 'a' <= character <= 'z' {
        (character as u32 - 32) as char
    } else {
        match character {
            '`' => '~',
            '1' => '!',
            '2' => '@',
            '3' => '#',
            '4' => '$',
            '5' => '%',
            '6' => '^',
            '7' => '&',
            '8' => '*',
            '9' => '(',
            '0' => ')',
            '-' => '_',
            '=' => '+',
            '[' => '{',
            ']' => '}',
            '\\' => '|',
            ';' => ':',
            '\'' => '"',
            ',' => '<',
            '.' => '>',
            '/' => '?',
            other => other,
        }
    }
}

fn shift(character: char) -> (result: char)
    ensures
        result == shifted(character),
{
    if 'a' <= character && character <= 'z' {
        ((character as u32 - 32) as u8) as char
    } else {
        match character {
            '`' => '~',
            '1' => '!',
            '2' => '@',
            '3' => '#',
            '4' => '$',
            '5' => '%',
            '6' => '^',
            '7' => '&',
            '8' => '*',
            '9' => '(',
            '0' => ')',
            '-' => '_',
            '=' => '+',
            '[' => '{',
            ']' => '}',
            '\\' => '|',
            ';' => ':',
            '\'' => '"',
            ',' => '<',
            '.' => '>',
            '/' => '?',
            other => other,
        }
    }
}

/// The text that a character key gives with the pressed modifiers, and without them.
pub fn character_text(character: char, modifiers: &Vec<Modifier>) -> (texts: (String, String))
    ensures
        texts.0@ == seq![if is_pressed(modifiers@, Modifier::Shift) {
            shifted(character)
        } else {
            character
        }],
        texts.1@ == seq![character],
{
    let given = if presses(modifiers, Modifier::Shift) {
        shift(character)
    } else {
        character
    };
    let mut text = String::new();
    text.push(given);
    let mut unmodified = String::new();
    unmodified.push(character);
    assert(text@ == seq![given]);
    assert(unmodified@ == seq![character]);
    (text, unmodified)
}

/// What the browser protocol knows of a key.
#[derive(Debug, Clone, PartialEq, Eq)]
pub struct KeyCode {
    pub code: String,
    pub key_code: i64,
}

/// The code and the key code of a key, as `get_key_definition` of `chromiumoxide` knows them.
pub uninterp spec fn key_definition(name: Seq<char>) -> Option<(Seq<char>, i64)>;

/// Calls `get_key_definition` of `chromiumoxide` and copies the code and the key code.
#[verifier::external_body]
fn look_up_key(name: &str) -> (found: Option<KeyCode>)
    ensures
        key_definition(name@) == match found {
            Some(key) => Some((key.code@, key.key_code)),
            None => None,
        },
{
    chromiumoxide::keys::get_key_definition(name).map(|definition| KeyCode {
        code: definition.code.to_owned(),
        key_code: definition.key_code,
    })
}

/// The events that press a key. The character event comes between the key's going down and up.
#[derive(Debug, Clone, PartialEq, Eq)]
pub struct KeyPress {
    pub name: String,
    pub code: String,
    pub key_code: i64,
    pub modifiers: i64,
    pub text: Option<(String, String)>,
}

/// Whether a modifier is pressed that keeps a key from typing.
pub open spec fn is_command(modifiers: Seq<Modifier>) -> bool {
    is_pressed(modifiers, Modifier::Alt) || is_pressed(modifiers, Modifier::Control) || is_pressed(
        modifiers,
        Modifier::Meta,
    )
}

/// The name under which a key is sent: a character as the modifiers make it.
pub open spec fn sent_name(key: Key, modifiers: Seq<Modifier>) -> Seq<char> {
    match key {
        Key::Character(character) => seq![if is_pressed(modifiers, Modifier::Shift) {
            shifted(character)
        } else {
            character
        }],
        Key::Named(_) => key_label(key),
    }
}

/// Whether a result presses a key, given what is known of it. A named key must be known.
pub open spec fn is_press(
    result: Result<KeyPress, StepError>,
    key: Key,
    modifiers: Seq<Modifier>,
    definition: Option<(Seq<char>, i64)>,
) -> bool {
    if definition is None && key is Named {
        result matches Err(error) && plain_error(
            error,
            FailureCategory::Protocol,
            "Chromium has no key definition for "@ + quoted(sent_name(key, modifiers)),
        )
    } else {
        &&& result is Ok
        &&& result->Ok_0.name@ == sent_name(key, modifiers)
        &&& result->Ok_0.code@ == match definition {
            Some((code, _)) => code,
            None => Seq::empty(),
        }
        &&& result->Ok_0.key_code == match definition {
            Some((_, key_code)) => key_code,
            None => 0,
        }
        &&& result->Ok_0.modifiers == pressed_bit(modifiers, Modifier::Alt) + pressed_bit(
            modifiers,
            Modifier::Control,
        ) + pressed_bit(modifiers, Modifier::Meta) + pressed_bit(modifiers, Modifier::Shift)
        &&& match key {
            Key::Character(character) => if is_command(modifiers) {
                result->Ok_0.text is None
            } else {
                result->Ok_0.text matches Some(texts) && texts.0@ == sent_name(key, modifiers)
                    && texts.1@ == seq![character]
            },
            Key::Named(_) => result->Ok_0.text is None,
        }
    }
}

/// The events that press a key of which `definition` is known.
pub fn press_known_key(
    key: &Key,
    modifiers: &Vec<Modifier>,
    definition: Option<KeyCode>,
) -> (result: Result<KeyPress, StepError>)
    ensures
        is_press(
            result,
            *key,
            modifiers@,
            match definition {
                Some(known) => Some((known.code@, known.key_code)),
                None => None,
            },
        ),
{
    let name = sent_key_name(key, modifiers);
    if definition.is_none() {
        if let Key::Named(_) = key {
            let shown = quote(name.as_str());
            let message = join("Chromium has no key definition for ", shown.as_str());
            return Err(protocol(message.as_str()));
        }
    }
    let (code, key_code): (String, i64) = match definition {
        Some(known) => (known.code, known.key_code),
        None => (String::new(), 0),
    };
    let text = match key {
        Key::Character(character) => if presses(modifiers, Modifier::Alt) || presses(
            modifiers,
            Modifier::Control,
        ) || presses(modifiers, Modifier::Meta) {
            None
        } else {
            Some(character_text(*character, modifiers))
        },
        Key::Named(_) => None,
    };
    Ok(KeyPress { name, code, key_code, modifiers: modifier_mask(modifiers), text })
}

fn sent_key_name(key: &Key, modifiers: &Vec<Modifier>) -> (name: String)
    ensures
        name@ == sent_name(*key, modifiers@),
{
    match key {
        Key::Character(character) => {
            let (name, _) = character_text(*character, modifiers);
            name
        },
        Key::Named(_) => key_name(key),
    }
}

/// The events that press a key.
pub fn press_key(key: &Key, modifiers: &Vec<Modifier>) -> (result: Result<KeyPress, StepError>)
    ensures
        is_press(result, *key, modifiers@, key_definition(sent_name(*key, modifiers@))),
{
    let name = sent_key_name(key, modifiers);
    let definition = look_up_key(name.as_str());
    press_known_key(key, modifiers, definition)
}

/// The outcome of two things that were both tried: the first error counts.
pub fn both(first: Result<(), StepError>, second: Result<(), StepError>) -> (result: Result<
    (),
    StepError,
>)
    ensures
        result == match first {
            Ok(_) => second,
            Err(error) => Err(error),
        },
{
    match first {
        Ok(_) => second,
        Err(error) => Err(error),
    }
}

/// Refuses a gesture that would not end before the deadline. Times are in nanoseconds.
pub fn require_gesture_time(now: u128, duration: u128, deadline: u128, operation: &str) -> (result:
    Result<(), StepError>)
    ensures
        match result {
            Ok(_) => now + duration < deadline,
            Err(error) => now + duration >= deadline && deadline_error(
                error,
                FailureCategory::Timeout,
                operation@ + " duration exceeds the remaining step deadline"@,
                None,
            ),
        },
{
    let ends_in_time = match now.checked_add(duration) {
        Some(finished) => finished < deadline,
        None => false,
    };
    if ends_in_time {
        return Ok(());
    }
    let message = join(operation, " duration exceeds the remaining step deadline");
    Err(StepError::new(FailureCategory::Timeout, message.as_str()).deadline())
}

/// How long a pause lasts, and whether it ends in time. Times are in nanoseconds.
pub fn plan_pause(now: u128, duration: u128, deadline: u128) -> (plan: (u128, bool))
    ensures
        ({
            let remaining = if deadline > now {
                deadline - now
            } else {
                0
            };
            &&& plan.1 == (duration <= remaining)
            &&& plan.0 == if duration <= remaining {
                duration as int
            } else {
                remaining
            }
        }),
{
    let remaining: u128 = if deadline > now {
        deadline - now
    } else {
        0
    };
    if duration > remaining {
        (remaining, false)
    } else {
        (duration, true)
    }
}

/// The position in the history before the current one.
pub fn previous_history_index(current_index: i64) -> (result: Result<i64, StepError>)
    ensures
        match result {
            Ok(index) => current_index >= 1 && index == current_index - 1,
            Err(error) => current_index < 1 && plain_error(
                error,
                FailureCategory::Navigation,
                "no previous history entry"@,
            ),
        },
{
    if current_index < 1 {
        return Err(StepError::new(FailureCategory::Navigation, "no previous history entry"));
    }
    Ok(current_index - 1)
}

/// What the page's answer to a request for focus means.
pub fn focus_outcome(focused: bool) -> (result: Result<(), StepError>)
    ensures
        match result {
            Ok(_) => focused,
            Err(error) => !focused && plain_error(
                error,
                FailureCategory::Actionability,
                "target could not receive focus"@,
            ),
        },
{
    if focused {
        Ok(())
    } else {
        Err(StepError::new(FailureCategory::Actionability, "target could not receive focus"))
    }
}

/// What the page's answer to the preparation of a fill means.
pub fn fill_outcome(focused: bool) -> (result: Result<(), StepError>)
    ensures
        match result {
            Ok(_) => focused,
            Err(error) => !focused && plain_error(
                error,
                FailureCategory::Actionability,
                "target could not be prepared for fill"@,
            ),
        },
{
    if focused {
        Ok(())
    } else {
        Err(
            StepError::new(
                FailureCategory::Actionability,
                "target could not be prepared for fill",
            ),
        )
    }
}

/// Why an element could not be erased, by the page's answer.
pub open spec fn erase_refused(answer: Seq<char>) -> Option<Seq<char>> {
    if answer == "ok"@ {
        None
    } else if answer == "detached"@ {
        Some("erase target detached before input dispatch"@)
    } else if answer == "focus"@ {
        Some("erase target could not receive focus"@)
    } else {
        Some("erase target is not editable"@)
    }
}

/// Whether a result is the absence of a reason, or an error with it.
pub open spec fn is_refusal(result: Result<(), StepError>, reason: Option<Seq<char>>) -> bool {
    match result {
        Ok(_) => reason is None,
        Err(error) => reason is Some && plain_error(
            error,
            FailureCategory::Actionability,
            reason->0,
        ),
    }
}

/// What the page's answer to an erasure means.
pub fn erase_outcome(answer: &str) -> (result: Result<(), StepError>)
    ensures
        is_refusal(result, erase_refused(answer@)),
{
    if same_text(answer, "ok") {
        return Ok(());
    }
    let reason = if same_text(answer, "detached") {
        "erase target detached before input dispatch"
    } else if same_text(answer, "focus") {
        "erase target could not receive focus"
    } else {
        "erase target is not editable"
    };
    Err(StepError::new(FailureCategory::Actionability, reason))
}

/// Why an option could not be selected, by the page's answer.
pub open spec fn select_refused(answer: Seq<char>) -> Option<Seq<char>> {
    if answer == "ok"@ {
        None
    } else if answer == "detached"@ {
        Some("select target detached before input dispatch"@)
    } else if answer == "focus"@ {
        Some("select target could not receive focus"@)
    } else if answer == "option"@ {
        Some("select value did not match an option"@)
    } else {
        Some("select target is not a native single-value select"@)
    }
}

/// What the page's answer to a selection means.
pub fn select_outcome(answer: &str) -> (result: Result<(), StepError>)
    ensures
        is_refusal(result, select_refused(answer@)),
{
    if same_text(answer, "ok") {
        return Ok(());
    }
    let reason = if same_text(answer, "detached") {
        "select target detached before input dispatch"
    } else if same_text(answer, "focus") {
        "select target could not receive focus"
    } else if same_text(answer, "option") {
        "select value did not match an option"
    } else {
        "select target is not a native single-value select"
    };
    Err(StepError::new(FailureCategory::Actionability, reason))
}

/// The mask of pressed modifiers has a bit for each that is among them, however often and in whatever order,
/// and no other: one, two, four and eight for alt, control, meta and shift.
pub proof fn masks_have_a_bit_for_each_modifier(modifiers: Vec<Modifier>, mask: i64)
    requires
        call_ensures(modifier_mask, (&modifiers,), mask),
    ensures
        0 <= mask < 16,
        mask % 2 == 1 <==> modifiers@.contains(Modifier::Alt),
        (mask / 2) % 2 == 1 <==> modifiers@.contains(Modifier::Control),
        (mask / 4) % 2 == 1 <==> modifiers@.contains(Modifier::Meta),
        (mask / 8) % 2 == 1 <==> modifiers@.contains(Modifier::Shift),
{
    pressed_is_contained(modifiers@, Modifier::Alt);
    pressed_is_contained(modifiers@, Modifier::Control);
    pressed_is_contained(modifiers@, Modifier::Meta);
    pressed_is_contained(modifiers@, Modifier::Shift);
}

proof fn pressed_is_contained(modifiers: Seq<Modifier>, modifier: Modifier)
    ensures
        is_pressed(modifiers, modifier) == modifiers.contains(modifier),
{
    if modifiers.contains(modifier) {
        let i = choose|i: int| 0 <= i < modifiers.len() && modifiers[i] == modifier;
        assert(modifiers[i] == modifier);
    }
}

/// With shift a letter is its capital, and a key of digits or signs the sign above it. Without it a character
/// stays as it is; what it is without modifiers is told beside it.
pub proof fn characters_are_shifted(
    character: char,
    modifiers: Vec<Modifier>,
    texts: (String, String),
)
    requires
        call_ensures(character_text, (character, &modifiers), texts),
    ensures
        texts.1@ == seq![character],
        !modifiers@.contains(Modifier::Shift) ==> texts.0@ == texts.1@,
        modifiers@.contains(Modifier::Shift) ==> {
            &&& texts.0@.len() == 1
            &&& 'a' <= character <= 'z' ==> texts.0@[0] as int == character as int - 'a' as int
                + 'A' as int
            &&& 'A' <= character <= 'Z' ==> texts.0@[0] == character
            &&& character == '1' ==> texts.0@[0] == '!'
            &&& character == '2' ==> texts.0@[0] == '@'
            &&& character == '3' ==> texts.0@[0] == '#'
            &&& character == '4' ==> texts.0@[0] == '$'
            &&& character == '5' ==> texts.0@[0] == '%'
            &&& character == '6' ==> texts.0@[0] == '^'
            &&& character == '7' ==> texts.0@[0] == '&'
            &&& character == '8' ==> texts.0@[0] == '*'
            &&& character == '9' ==> texts.0@[0] == '('
            &&& character == '0' ==> texts.0@[0] == ')'
            &&& character == '/' ==> texts.0@[0] == '?'
            &&& character == ',' ==> texts.0@[0] == '<'
            &&& character == '.' ==> texts.0@[0] == '>'
            &&& character == ';' ==> texts.0@[0] == ':'
            &&& character == '-' ==> texts.0@[0] == '_'
            &&& character == '=' ==> texts.0@[0] == '+'
        },
{
    pressed_is_contained(modifiers@, Modifier::Shift);
}

/// A key press tells the key by what was looked up of it. A character gives its text, unless a modifier other
/// than shift makes it a command; a named key gives none, and has to be known.
pub proof fn keys_are_pressed_as_known(
    key: Key,
    modifiers: Vec<Modifier>,
    definition: Option<KeyCode>,
    result: Result<KeyPress, StepError>,
    mask: i64,
)
    requires
        call_ensures(press_known_key, (&key, &modifiers, definition), result),
        call_ensures(modifier_mask, (&modifiers,), mask),
    ensures
        result is Err <==> definition is None && key is Named,
        result is Err ==> result->Err_0.category is Protocol,
        result matches Ok(press) ==> {
            let command = modifiers@.contains(Modifier::Alt) || modifiers@.contains(
                Modifier::Control,
            ) || modifiers@.contains(Modifier::Meta);
            &&& press.modifiers == mask
            &&& (definition matches Some(known) ==> press.code@ == known.code@ && press.key_code
                == known.key_code)
            &&& (definition is None ==> press.code@.len() == 0 && press.key_code == 0)
            &&& (press.text is Some <==> key is Character && !command)
            &&& (press.text matches Some(texts) ==> texts.0@ == press.name@ && texts.1@ == seq![
                key->Character_0,
            ])
            &&& (key is Character && !modifiers@.contains(Modifier::Shift) ==> press.name@ == seq![
                key->Character_0,
            ])
        },
{
    pressed_is_contained(modifiers@, Modifier::Alt);
    pressed_is_contained(modifiers@, Modifier::Control);
    pressed_is_contained(modifiers@, Modifier::Meta);
    pressed_is_contained(modifiers@, Modifier::Shift);
}

/// Of two results the first failure counts.
pub proof fn the_first_failure_counts(
    first: Result<(), StepError>,
    second: Result<(), StepError>,
    result: Result<(), StepError>,
)
    requires
        call_ensures(both, (first, second), result),
    ensures
        result is Ok <==> first is Ok && second is Ok,
        first is Err ==> result == first,
        first is Ok ==> result == second,
{
}

/// A gesture starts only if it ends before its step's deadline.
pub proof fn gestures_end_in_time(
    now: u128,
    duration: u128,
    deadline: u128,
    operation: &str,
    result: Result<(), StepError>,
)
    requires
        call_ensures(require_gesture_time, (now, duration, deadline, operation), result),
    ensures
        result is Ok <==> now + duration < deadline,
        result is Err ==> result->Err_0.category is Timeout && result->Err_0.deadline_based,
{
}

/// A pause lasts as long as it was asked to, or until the deadline, and is complete exactly if it was not cut
/// short.
pub proof fn pauses_last_until_the_deadline(
    now: u128,
    duration: u128,
    deadline: u128,
    plan: (u128, bool),
)
    requires
        call_ensures(plan_pause, (now, duration, deadline), plan),
    ensures
        plan.0 <= duration,
        plan.1 <==> plan.0 == duration,
        now <= deadline ==> now + plan.0 <= deadline,
        now <= deadline && !plan.1 ==> now + plan.0 == deadline,
        now >= deadline ==> plan.0 == 0,
{
}

/// Going back goes to the entry just before, which there has to be.
pub proof fn the_previous_entry_is_the_one_before(index: i64, result: Result<i64, StepError>)
    requires
        call_ensures(previous_history_index, (index,), result),
    ensures
        result is Ok <==> index >= 1,
        result matches Ok(previous) ==> previous + 1 == index && previous >= 0,
        result is Err ==> result->Err_0.category is Navigation,
{
}

/// An element that answers anything but that all went well has refused, and is told why.
pub proof fn refused_input_is_told(
    answer: &str,
    erased: Result<(), StepError>,
    selected: Result<(), StepError>,
    focused: bool,
    focus: Result<(), StepError>,
    fill: Result<(), StepError>,
)
    requires
        call_ensures(erase_outcome, (answer,), erased),
        call_ensures(select_outcome, (answer,), selected),
        call_ensures(focus_outcome, (focused,), focus),
        call_ensures(fill_outcome, (focused,), fill),
    ensures
        erased is Ok <==> answer@ == "ok"@,
        selected is Ok <==> answer@ == "ok"@,
        focus is Ok <==> focused,
        fill is Ok <==> focused,
        erased is Err ==> erased->Err_0.category is Actionability,
        selected is Err ==> selected->Err_0.category is Actionability,
        focus is Err ==> focus->Err_0.category is Actionability,
        fill is Err ==> fill->Err_0.category is Actionability,
        answer@ == "option"@ ==> selected is Err && selected->Err_0.message@
            == "select value did not match an option"@,
        answer@ == "detached"@ ==> erased is Err && erased->Err_0.message@
            == "erase target detached before input dispatch"@,
{
    reveal_strlit("ok");
    reveal_strlit("detached");
    reveal_strlit("focus");
    reveal_strlit("option");
    assert("ok"@.len() == 2);
    assert("detached"@.len() == 8);
    assert("focus"@.len() == 5);
    assert("option"@.len() == 6);
}

/// A key is called by its name, a character by itself.
pub proof fn keys_are_called_by_name(key: Key, name: String)
    requires
        call_ensures(key_name, (&key,), name),
    ensures
        match key {
            Key::Character(character) => name@ == seq![character],
            Key::Named(named) => name@ == match named {
                NamedKey::Enter => "Enter"@,
                NamedKey::Tab => "Tab"@,
                NamedKey::Escape => "Escape"@,
                NamedKey::Space => " "@,
                NamedKey::Backspace => "Backspace"@,
                NamedKey::Delete => "Delete"@,
                NamedKey::ArrowUp => "ArrowUp"@,
                NamedKey::ArrowDown => "ArrowDown"@,
                NamedKey::ArrowLeft => "ArrowLeft"@,
                NamedKey::ArrowRight => "ArrowRight"@,
                NamedKey::Home => "Home"@,
                NamedKey::End => "End"@,
                NamedKey::PageUp => "PageUp"@,
                NamedKey::PageDown => "PageDown"@,
            },
        },
{
}

} // verus!
