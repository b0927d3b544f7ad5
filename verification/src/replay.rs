//! The replay that is made of a session's journal.

use crate::action::{environment_references, fields_environment, items_environment};
use crate::codec::{in_key_order, write_yaml, yaml_text};
use crate::journal::{operation_json, single, single_value, JournalEvent, ReplayOperation};
use crate::json::{
    canonical, field, field_is_smaller, field_view, fields_view, gathered, item_is_smaller,
    no_fields, push_field, record_of, text_less, text_less_is_total, text_value, values_view, Json,
    JsonValue,
};
use crate::text::{
    chars_of, decimal, decimal_is_injective, join, same_text, text_of, texts_view,
    wide_decimal_text,
};
use crate::text_map::TextMap;
use vstd::prelude::*;
use vstd::slice::slice_subrange;
use vstd::string::*;

verus! {

/// The largest number of characters of the name of a bundle.
pub const MAX_BUNDLE_NAME: usize = 100;

/// Whether a character is an ASCII letter.
pub open spec fn ascii_letter(ch: char) -> bool {
    'a' <= ch <= 'z' || 'A' <= ch <= 'Z'
}

/// Whether a character is an ASCII letter or digit.
pub open spec fn plain_char(ch: char) -> bool {
    ascii_letter(ch) || '0' <= ch <= '9'
}

fn is_ascii_letter(ch: char) -> (letter: bool)
    ensures
        letter == ascii_letter(ch),
{
    ('a' <= ch && ch <= 'z') || ('A' <= ch && ch <= 'Z')
}

fn is_plain_char(ch: char) -> (plain: bool)
    ensures
        plain == plain_char(ch),
{
    is_ascii_letter(ch) || ('0' <= ch && ch <= '9')
}

/// Whether a name can be that of a bundle: one part of a path that leads nowhere else.
pub open spec fn safe_bundle_name(name: Seq<char>) -> bool {
    &&& 0 < name.len() <= MAX_BUNDLE_NAME
    &&& forall|i: int|
        0 <= i < name.len() ==> plain_char(#[trigger] name[i]) || name[i] == '-' || name[i] == '_'
}

/// Whether a name can be that of a bundle.
pub fn is_safe_bundle_name(name: &str) -> (safe: bool)
    ensures
        safe == safe_bundle_name(name@),
{
    let chars = chars_of(name);
    if chars.len() == 0 || chars.len() > MAX_BUNDLE_NAME {
        return false;
    }
    let mut i: usize = 0;
    while i < chars.len()
        invariant
            i <= chars.len(),
            chars@ == name@,
            forall|k: int|
                0 <= k < i ==> plain_char(#[trigger] name@[k]) || name@[k] == '-' || name@[k] == '_',
        decreases chars.len() - i,
    {
        let ch = chars[i];
        if !is_plain_char(ch) && ch != '-' && ch != '_' {
            assert(name@[i as int] == ch);
            return false;
        }
        i += 1;
    }
    true
}

/// A safe name holds no separator and no dot, so it is a path of one part below any directory.
pub proof fn safe_names_stay_inside(name: Seq<char>)
    requires
        safe_bundle_name(name),
    ensures
        !name.contains('/'),
        !name.contains('.'),
        !name.contains(92 as char),
        name.len() > 0,
{
    assert forall|i: int| 0 <= i < name.len() implies #[trigger] name[i] != '/' && name[i] != '.'
        && name[i] != 92 as char by {
        assert(plain_char(name[i]) || name[i] == '-' || name[i] == '_');
    }
}

/// The small letter of a letter.
pub open spec fn lower(ch: char) -> char {
    if 'A' <= ch <= 'Z' {
        (ch as u32 + 32) as char
    } else {
        ch
    }
}

/// A text in small letters and digits, with one underscore for each run of anything else.
pub open spec fn simplified(text: Seq<char>) -> Seq<char>
    decreases text.len(),
{
    if text.len() == 0 {
        text
    } else {
        let before = simplified(text.drop_last());
        if plain_char(text.last()) {
            before.push(lower(text.last()))
        } else if before.len() > 0 && before.last() == '_' {
            before
        } else {
            before.push('_')
        }
    }
}

/// A text without underscores at its start.
pub open spec fn without_leading(text: Seq<char>) -> Seq<char>
    decreases text.len(),
{
    if text.len() > 0 && text[0] == '_' {
        without_leading(text.skip(1))
    } else {
        text
    }
}

/// A text without underscores at its end.
pub open spec fn without_trailing(text: Seq<char>) -> Seq<char>
    decreases text.len(),
{
    if text.len() > 0 && text.last() == '_' {
        without_trailing(text.drop_last())
    } else {
        text
    }
}

/// The identifier that is made of a text.
pub open spec fn identifier_of(text: Seq<char>) -> Seq<char> {
    let core = without_trailing(without_leading(simplified(text)));
    if core.len() == 0 {
        "secret"@
    } else if '0' <= core[0] <= '9' {
        "secret_"@ + core
    } else {
        core
    }
}

fn simplify(text: &str) -> (result: Vec<char>)
    ensures
        result@ == simplified(text@),
{
    let chars = chars_of(text);
    let mut result: Vec<char> = Vec::new();
    let mut i: usize = 0;
    assert(chars@.take(0) =~= Seq::<char>::empty());
    while i < chars.len()
        invariant
            i <= chars.len(),
            result@ == simplified(chars@.take(i as int)),
        decreases chars.len() - i,
    {
        proof {
            assert(chars@.take(i + 1).drop_last() == chars@.take(i as int));
            assert(chars@.take(i + 1).last() == chars@[i as int]);
        }
        let ch = chars[i];
        if is_plain_char(ch) {
            if 'A' <= ch && ch <= 'Z' {
                result.push((ch as u8 + 32) as char);
            } else {
                result.push(ch);
            }
        } else if result.len() == 0 || result[result.len() - 1] != '_' {
            result.push('_');
        }
        i += 1;
    }
    assert(chars@.take(i as int) == chars@);
    result
}

/// The identifier that is made of a text.
pub fn identifier(value: &str) -> (name: String)
    ensures
        name@ == identifier_of(value@),
{
    let chars = simplify(value);
    let mut start: usize = 0;
    assert(chars@.skip(0) == chars@);
    while start < chars.len() && chars[start] == '_'
        invariant
            start <= chars.len(),
            without_leading(chars@) == without_leading(chars@.skip(start as int)),
        decreases chars.len() - start,
    {
        assert(chars@.skip(start as int).skip(1) == chars@.skip(start + 1));
        start += 1;
    }
    let ghost rest = chars@.skip(start as int);
    let mut end: usize = chars.len();
    assert(chars@.subrange(start as int, end as int) == rest);
    while start < end && chars[end - 1] == '_'
        invariant
            start <= end <= chars.len(),
            without_trailing(rest) == without_trailing(chars@.subrange(start as int, end as int)),
        decreases end,
    {
        assert(chars@.subrange(start as int, end as int).drop_last() == chars@.subrange(
            start as int,
            end - 1,
        ));
        end -= 1;
    }
    let core = text_of(slice_subrange(chars.as_slice(), start, end));
    if start == end {
        "secret".to_owned()
    } else if '0' <= chars[start] && chars[start] <= '9' {
        join("secret_", core.as_str())
    } else {
        core
    }
}

/// Whether a text is a name for a secret: a small letter, then small letters, digits and underscores.
pub open spec fn is_identifier(text: Seq<char>) -> bool {
    &&& text.len() > 0
    &&& 'a' <= text[0] <= 'z'
    &&& forall|i: int|
        0 <= i < text.len() ==> 'a' <= #[trigger] text[i] <= 'z' || '0' <= text[i] <= '9' || text[i]
            == '_'
}

/// Whether every character may stand in an identifier.
pub open spec fn identifier_chars(text: Seq<char>) -> bool {
    forall|i: int|
        0 <= i < text.len() ==> 'a' <= #[trigger] text[i] <= 'z' || '0' <= text[i] <= '9' || text[i]
            == '_'
}

proof fn simplified_is_plain(text: Seq<char>)
    ensures
        identifier_chars(simplified(text)),
    decreases text.len(),
{
    if text.len() > 0 {
        simplified_is_plain(text.drop_last());
    }
}

proof fn leading_is_dropped(text: Seq<char>)
    requires
        identifier_chars(text),
    ensures
        identifier_chars(without_leading(text)),
        without_leading(text).len() > 0 ==> without_leading(text)[0] != '_',
    decreases text.len(),
{
    if text.len() > 0 && text[0] == '_' {
        assert forall|i: int| 0 <= i < text.skip(1).len() implies 'a' <= #[trigger] text.skip(1)[i]
            <= 'z' || '0' <= text.skip(1)[i] <= '9' || text.skip(1)[i] == '_' by {
            assert(text.skip(1)[i] == text[i + 1]);
        }
        leading_is_dropped(text.skip(1));
    }
}

proof fn trailing_is_dropped(text: Seq<char>)
    requires
        identifier_chars(text),
    ensures
        identifier_chars(without_trailing(text)),
        without_trailing(text).len() > 0 ==> without_trailing(text)[0] == text[0],
    decreases text.len(),
{
    if text.len() > 0 && text.last() == '_' {
        trailing_is_dropped(text.drop_last());
    }
}

/// Whatever text an identifier is made of, it can name a secret.
pub proof fn identifiers_can_name_secrets(text: Seq<char>)
    ensures
        is_identifier(identifier_of(text)),
{
    let simple = simplified(text);
    simplified_is_plain(text);
    leading_is_dropped(simple);
    trailing_is_dropped(without_leading(simple));
    reveal_strlit("secret");
    reveal_strlit("secret_");
}

/// The environment variable that a value refers to: it is a record of one field named `env`.
pub open spec fn environment_of(value: Json) -> Option<Seq<char>> {
    match value {
        Json::Record(fields) => if fields.len() == 1 && fields[0].0 == "env"@ {
            match fields[0].1 {
                Json::Text(name) => Some(name),
                _ => None,
            }
        } else {
            None
        },
        _ => None,
    }
}

/// The environment variable that a value refers to.
pub fn environment_reference(value: &JsonValue) -> (name: Option<String>)
    ensures
        match name {
            Some(name) => environment_of(value@) == Some(name@),
            None => environment_of(value@) is None,
        },
{
    broadcast use crate::json::group_json_views;

    match value {
        JsonValue::Record(fields) => {
            if fields.len() == 1 {
                assert(fields_view(fields@)[0] == field_view(fields@[0]));
                if same_text(fields[0].0.as_str(), "env") {
                    if let JsonValue::Text(name) = &fields[0].1 {
                        return Some(name.clone());
                    }
                }
            }
            None
        },
        _ => None,
    }
}

/// The secrets of a replay by name, and the name of each by environment variable.
pub ghost struct LifterModel {
    pub secrets: Map<Seq<char>, Seq<char>>,
    pub names: Map<Seq<char>, Seq<char>>,
}

impl LifterModel {
    /// No secrets.
    pub open spec fn empty() -> LifterModel {
        LifterModel { secrets: Map::empty(), names: Map::empty() }
    }

    /// Every variable has one name, and every name one variable.
    pub open spec fn valid(self) -> bool {
        &&& forall|env: Seq<char>| #[trigger]
            self.names.contains_key(env) ==> self.secrets.contains_key(self.names[env])
                && self.secrets[self.names[env]] == env
        &&& forall|name: Seq<char>| #[trigger]
            self.secrets.contains_key(name) ==> self.names.contains_key(self.secrets[name])
                && self.names[self.secrets[name]] == name
    }
}

/// A name with a number.
pub open spec fn numbered(base: Seq<char>, number: nat) -> Seq<char> {
    base + "_"@ + decimal(number)
}

/// Whether a number is the first, from two on, that makes a name that is not taken.
pub open spec fn first_free(
    base: Seq<char>,
    secrets: Map<Seq<char>, Seq<char>>,
    number: nat,
) -> bool {
    &&& number >= 2
    &&& !secrets.contains_key(numbered(base, number))
    &&& forall|k: nat| 2 <= k < number ==> secrets.contains_key(#[trigger] numbered(base, k))
}

/// A name that is not taken: the name itself, or with the first number that is free.
pub open spec fn free_name(base: Seq<char>, secrets: Map<Seq<char>, Seq<char>>) -> Seq<char> {
    if secrets.contains_key(base) {
        numbered(base, choose|number: nat| first_free(base, secrets, number))
    } else {
        base
    }
}

/// Whether a part of a path has a letter.
pub open spec fn has_letter(part: Seq<char>) -> bool {
    exists|i: int| 0 <= i < part.len() && ascii_letter(#[trigger] part[i])
}

/// The last part of a path that has a letter, or a word for secrets.
pub open spec fn path_field(path: Seq<Seq<char>>) -> Seq<char>
    decreases path.len(),
{
    if path.len() == 0 {
        "secret"@
    } else if has_letter(path.last()) {
        path.last()
    } else {
        path_field(path.drop_last())
    }
}

/// The name of the secret of an environment variable that a value at a path refers to.
pub open spec fn secret_name(
    model: LifterModel,
    path: Seq<Seq<char>>,
    environment: Seq<char>,
) -> Seq<char> {
    if model.names.contains_key(environment) {
        model.names[environment]
    } else {
        free_name(identifier_of(path_field(path) + "_"@ + environment), model.secrets)
    }
}

/// The secrets with that of an environment variable.
pub open spec fn with_environment(
    model: LifterModel,
    path: Seq<Seq<char>>,
    environment: Seq<char>,
) -> LifterModel {
    if model.names.contains_key(environment) {
        model
    } else {
        let name = secret_name(model, path, environment);
        LifterModel {
            secrets: model.secrets.insert(name, environment),
            names: model.names.insert(environment, name),
        }
    }
}

/// A reference to a secret by name.
pub open spec fn placeholder(name: Seq<char>) -> Seq<char> {
    "${"@ + name + "}"@
}

/// A value with its references to the environment replaced by names, and the secrets that are
/// known then. References are replaced from the first to the last.
pub open spec fn lifted(
    model: LifterModel,
    value: Json,
    path: Seq<Seq<char>>,
) -> (LifterModel, Json)
    decreases value,
{
    match environment_of(value) {
        Some(environment) => (
            with_environment(model, path, environment),
            Json::Text(placeholder(secret_name(model, path, environment))),
        ),
        None => match value {
            Json::List(items) => {
                let (after, items) = lifted_items(model, items, path);
                (after, Json::List(items))
            },
            Json::Record(fields) => {
                let (after, fields) = lifted_fields(model, fields, path);
                (after, Json::Record(fields))
            },
            _ => (model, value),
        },
    }
}

/// Items with their references replaced.
pub open spec fn lifted_items(model: LifterModel, items: Seq<Json>, path: Seq<Seq<char>>) -> (
    LifterModel,
    Seq<Json>,
)
    decreases items,
{
    if items.len() == 0 {
        (model, items)
    } else {
        let (between, before) = lifted_items(model, items.drop_last(), path);
        let (after, last) = lifted(
            between,
            items.last(),
            path.push(decimal((items.len() - 1) as nat)),
        );
        (after, before.push(last))
    }
}

/// Fields with their references replaced.
pub open spec fn lifted_fields(
    model: LifterModel,
    fields: Seq<(Seq<char>, Json)>,
    path: Seq<Seq<char>>,
) -> (LifterModel, Seq<(Seq<char>, Json)>)
    decreases fields,
{
    if fields.len() == 0 {
        (model, fields)
    } else {
        let (between, before) = lifted_fields(model, fields.drop_last(), path);
        let (after, last) = lifted(between, fields.last().1, path.push(fields.last().0));
        (after, before.push((fields.last().0, last)))
    }
}

/// Collects the secrets of a replay.
#[derive(Debug)]
pub struct SecretLifter {
    pub secrets: TextMap<String>,
    pub names_by_env: TextMap<String>,
}

/// The texts of a map.
pub open spec fn texts_by_text(map: Map<Seq<char>, String>) -> Map<Seq<char>, Seq<char>> {
    map.map_values(|text: String| text@)
}

impl View for SecretLifter {
    type V = LifterModel;

    open spec fn view(&self) -> LifterModel {
        LifterModel {
            secrets: texts_by_text(self.secrets@),
            names: texts_by_text(self.names_by_env@),
        }
    }
}

proof fn numbers_run_out(base: Seq<char>, secrets: Map<Seq<char>, Seq<char>>, end: nat)
    requires
        secrets.dom().finite(),
        end >= 2,
        forall|k: nat| 2 <= k < end ==> secrets.contains_key(#[trigger] numbered(base, k)),
    ensures
        end - 2 <= secrets.dom().len(),
{
    let names = Seq::new((end - 2) as nat, |i: int| numbered(base, (i + 2) as nat));
    assert forall|i: int, j: int| 0 <= i < j < names.len() implies names[i] != names[j] by {
        if names[i] == names[j] {
            let prefix = base + "_"@;
            let first = decimal((i + 2) as nat);
            let second = decimal((j + 2) as nat);
            assert(first =~= (prefix + first).skip(prefix.len() as int));
            assert(second =~= (prefix + second).skip(prefix.len() as int));
            decimal_is_injective((i + 2) as nat, (j + 2) as nat);
        }
    }
    names.unique_seq_to_set();
    assert forall|name: Seq<char>| names.to_set().contains(name) implies secrets.dom().contains(
        name,
    ) by {
        let i = names.index_of(name);
        assert(names[i] == numbered(base, (i + 2) as nat));
    }
    vstd::set_lib::lemma_len_subset(names.to_set(), secrets.dom());
}

proof fn first_free_is_one(
    base: Seq<char>,
    secrets: Map<Seq<char>, Seq<char>>,
    left: nat,
    right: nat,
)
    requires
        first_free(base, secrets, left),
        first_free(base, secrets, right),
    ensures
        left == right,
{
    if left < right {
        assert(secrets.contains_key(numbered(base, left)));
    } else if right < left {
        assert(secrets.contains_key(numbered(base, right)));
    }
}

fn contains_letter(part: &str) -> (contains: bool)
    ensures
        contains == has_letter(part@),
{
    let chars = chars_of(part);
    let mut i: usize = 0;
    while i < chars.len()
        invariant
            i <= chars.len(),
            chars@ == part@,
            forall|k: int| 0 <= k < i ==> !ascii_letter(#[trigger] part@[k]),
        decreases chars.len() - i,
    {
        if is_ascii_letter(chars[i]) {
            assert(ascii_letter(part@[i as int]));
            return true;
        }
        i += 1;
    }
    false
}

fn find_field_name(path: &Vec<String>) -> (name: String)
    ensures
        name@ == path_field(texts_view(path@)),
{
    let ghost all = texts_view(path@);
    let mut i: usize = path.len();
    assert(all.take(i as int) == all);
    while i > 0
        invariant
            i <= path.len(),
            all == texts_view(path@),
            path_field(all) == path_field(all.take(i as int)),
        decreases i,
    {
        proof {
            assert(all.take(i as int).last() == path@[i - 1]@);
            assert(all.take(i as int).drop_last() == all.take(i - 1));
        }
        if contains_letter(path[i - 1].as_str()) {
            return path[i - 1].clone();
        }
        i -= 1;
    }
    assert(all.take(0) =~= Seq::<Seq<char>>::empty());
    "secret".to_owned()
}

impl SecretLifter {
    /// A lifter that knows no secrets.
    pub fn new() -> (lifter: SecretLifter)
        ensures
            lifter@ == LifterModel::empty(),
            lifter@.valid(),
    {
        let lifter = SecretLifter { secrets: TextMap::new(), names_by_env: TextMap::new() };
        assert(lifter@.secrets =~= Map::<Seq<char>, Seq<char>>::empty());
        assert(lifter@.names =~= Map::<Seq<char>, Seq<char>>::empty());
        lifter
    }

    fn unused_name(&self, base: String) -> (name: String)
        ensures
            name@ == free_name(base@, self@.secrets),
    {
        let ghost taken = self@.secrets;
        if !self.secrets.contains_key(base.as_str()) {
            return base;
        }
        let count = self.secrets.len();
        proof {
            assert(taken.dom() =~= self.secrets@.dom());
        }
        let mut suffix: u128 = 2;
        let mut name = base.clone();
        name.append("_");
        let first = wide_decimal_text(suffix);
        name.append(first.as_str());
        while self.secrets.contains_key(name.as_str())
            invariant
                taken == self@.secrets,
                taken.dom() == self.secrets@.dom(),
                taken.dom().finite(),
                taken.dom().len() == count,
                suffix >= 2,
                suffix <= count + 2,
                name@ == numbered(base@, suffix as nat),
                forall|k: nat|
                    2 <= k < suffix ==> taken.contains_key(#[trigger] numbered(base@, k)),
            decreases count + 2 - suffix,
        {
            proof {
                assert forall|k: nat| 2 <= k < suffix + 1 implies taken.contains_key(
                    #[trigger] numbered(base@, k),
                ) by {
                    if k == suffix {
                        assert(taken.dom().contains(numbered(base@, k)));
                    }
                }
                numbers_run_out(base@, taken, (suffix + 1) as nat);
            }
            suffix += 1;
            name = base.clone();
            name.append("_");
            let number = wide_decimal_text(suffix);
            name.append(number.as_str());
        }
        proof {
            assert(!taken.dom().contains(name@));
            assert(first_free(base@, taken, suffix as nat));
            let chosen = choose|number: nat| first_free(base@, taken, number);
            first_free_is_one(base@, taken, chosen, suffix as nat);
        }
        name
    }

    /// The name of the secret of an environment variable that a value at a path refers to.
    pub fn logical_name(&mut self, path: &Vec<String>, environment: &str) -> (name: String)
        ensures
            name@ == secret_name(old(self)@, texts_view(path@), environment@),
            final(self)@ == with_environment(
                old(self)@,
                texts_view(path@),
                environment@,
            ),
    {
        if let Some(name) = self.names_by_env.get(environment) {
            assert(self@.names.contains_key(environment@));
            return name.clone();
        }
        assert(!self@.names.contains_key(environment@));
        let mut text = find_field_name(path);
        text.append("_");
        text.append(environment);
        let base = identifier(text.as_str());
        let name = self.unused_name(base);
        let ghost before = *self;
        self.secrets.insert(name.clone(), environment.to_owned());
        self.names_by_env.insert(environment.to_owned(), name.clone());
        proof {
            assert(self@.secrets =~= before@.secrets.insert(name@, environment@));
            assert(self@.names =~= before@.names.insert(environment@, name@));
        }
        name
    }

    /// The value with its references to the environment replaced by names.
    pub fn lift(&mut self, value: &JsonValue, path: &mut Vec<String>) -> (result: JsonValue)
        ensures
            texts_view(final(path)@) == texts_view(old(path)@),
            (final(self)@, result@) == lifted(
                old(self)@,
                value@,
                texts_view(old(path)@),
            ),
        decreases value,
    {
        broadcast use crate::json::group_json_views;

        let ghost place = texts_view(path@);
        if let Some(environment) = environment_reference(value) {
            let name = self.logical_name(path, environment.as_str());
            let mut text = "${".to_owned();
            text.append(name.as_str());
            text.append("}");
            return JsonValue::Text(text);
        }
        match value {
            JsonValue::List(items) => {
                let ghost all = values_view(items@);
                let ghost start = self@;
                let mut values: Vec<JsonValue> = Vec::new();
                let mut i: usize = 0;
                assert(all.take(0) =~= Seq::<Json>::empty());
                assert(values_view(values@) =~= Seq::<Json>::empty());
                while i < items.len()
                    invariant
                        i <= items.len(),
                        *value == JsonValue::List(*items),
                        all == values_view(items@),
                        texts_view(path@) == place,
                        (self@, values_view(values@)) == lifted_items(
                            start,
                            all.take(i as int),
                            place,
                        ),
                    decreases items.len() - i,
                {
                    proof {
                        item_is_smaller(*value, i as int);
                        assert(all.take(i + 1).drop_last() == all.take(i as int));
                        assert(all.take(i + 1).last() == items@[i as int]@);
                    }
                    let ghost before = values_view(values@);
                    let ghost outer = path@;
                    path.push(wide_decimal_text(i as u128));
                    assert(texts_view(path@) =~= place.push(decimal(i as nat)));
                    let ghost inner = path@;
                    let item = self.lift(&items[i], path);
                    let ghost after = path@;
                    let _ = path.pop();
                    proof {
                        assert(texts_view(after).len() == after.len());
                        assert(texts_view(path@)
                            =~= texts_view(after).drop_last());
                        assert(place.push(decimal(i as nat)).drop_last() =~= place);
                    }
                    values.push(item);
                    assert(values_view(values@) =~= before.push(item@));
                    i += 1;
                }
                assert(all.take(i as int) == all);
                JsonValue::List(values)
            },
            JsonValue::Record(fields) => {
                let ghost all = fields_view(fields@);
                let ghost start = self@;
                let mut values: Vec<(String, JsonValue)> = Vec::new();
                let mut i: usize = 0;
                assert(all.take(0) =~= Seq::<(Seq<char>, Json)>::empty());
                assert(fields_view(values@) =~= Seq::<(Seq<char>, Json)>::empty());
                while i < fields.len()
                    invariant
                        i <= fields.len(),
                        *value == JsonValue::Record(*fields),
                        all == fields_view(fields@),
                        texts_view(path@) == place,
                        (self@, fields_view(values@)) == lifted_fields(
                            start,
                            all.take(i as int),
                            place,
                        ),
                    decreases fields.len() - i,
                {
                    proof {
                        field_is_smaller(*value, i as int);
                        assert(all.take(i + 1).drop_last() == all.take(i as int));
                        assert(all.take(i + 1).last() == field_view(fields@[i as int]));
                    }
                    let ghost before = fields_view(values@);
                    path.push(fields[i].0.clone());
                    assert(texts_view(path@) =~= place.push(fields@[i as int].0@));
                    let item = self.lift(&fields[i].1, path);
                    let ghost after = path@;
                    let _ = path.pop();
                    proof {
                        assert(texts_view(after).len() == after.len());
                        assert(texts_view(path@)
                            =~= texts_view(after).drop_last());
                        assert(place.push(fields@[i as int].0@).drop_last() =~= place);
                    }
                    values.push((fields[i].0.clone(), item));
                    assert(fields_view(values@) =~= before.push((fields@[i as int].0@, item@)));
                    i += 1;
                }
                assert(all.take(i as int) == all);
                JsonValue::Record(values)
            },
            _ => value.clone(),
        }
    }
}

proof fn some_number_is_free(
    base: Seq<char>,
    secrets: Map<Seq<char>, Seq<char>>,
    from: nat,
) -> (number:
    nat)
    requires
        secrets.dom().finite(),
        from >= 2,
        forall|k: nat| 2 <= k < from ==> secrets.contains_key(#[trigger] numbered(base, k)),
    ensures
        first_free(base, secrets, number),
    decreases secrets.dom().len() + 2 - from,
{
    numbers_run_out(base, secrets, from);
    if secrets.contains_key(numbered(base, from)) {
        assert forall|k: nat| 2 <= k < from + 1 implies secrets.contains_key(
            #[trigger] numbered(base, k),
        ) by {
            if k == from {
                assert(secrets.contains_key(numbered(base, k)));
            }
        }
        numbers_run_out(base, secrets, from + 1);
        some_number_is_free(base, secrets, from + 1)
    } else {
        from
    }
}

/// A name is always found that is not taken.
pub proof fn free_names_are_free(base: Seq<char>, secrets: Map<Seq<char>, Seq<char>>)
    requires
        secrets.dom().finite(),
    ensures
        !secrets.contains_key(free_name(base, secrets)),
{
    if secrets.contains_key(base) {
        let number = some_number_is_free(base, secrets, 2);
        assert(first_free(base, secrets, number));
        let chosen = choose|number: nat| first_free(base, secrets, number);
        assert(first_free(base, secrets, chosen));
    }
}

/// Whether secrets with these names and variables are among others.
pub open spec fn among(fewer: LifterModel, more: LifterModel) -> bool {
    forall|name: Seq<char>| #[trigger]
        fewer.secrets.contains_key(name) ==> more.secrets.contains_key(name) && more.secrets[name]
            == fewer.secrets[name]
}

proof fn naming_keeps_order(model: LifterModel, path: Seq<Seq<char>>, environment: Seq<char>)
    requires
        model.valid(),
        model.secrets.dom().finite(),
    ensures
        with_environment(model, path, environment).valid(),
        with_environment(model, path, environment).secrets.dom().finite(),
        among(model, with_environment(model, path, environment)),
        with_environment(model, path, environment).secrets.contains_key(
            secret_name(model, path, environment),
        ),
        with_environment(model, path, environment).secrets[secret_name(model, path, environment)]
            == environment,
{
    if !model.names.contains_key(environment) {
        free_names_are_free(
            identifier_of(path_field(path) + "_"@ + environment),
            model.secrets,
        );
        let name = secret_name(model, path, environment);
        let after = with_environment(model, path, environment);
        assert forall|env: Seq<char>| #[trigger] after.names.contains_key(env) implies
            after.secrets.contains_key(after.names[env]) && after.secrets[after.names[env]] == env by {
            if env != environment {
                assert(model.names.contains_key(env));
            }
        }
        assert forall|other: Seq<char>| #[trigger] after.secrets.contains_key(other) implies
            after.names.contains_key(after.secrets[other]) && after.names[after.secrets[other]]
            == other by {
            if other != name {
                assert(model.secrets.contains_key(other));
            }
        }
    }
}

/// However secrets are lifted out of a value, each environment variable keeps one name and each name
/// one variable, and no secret that was known is lost or renamed.
pub proof fn lifting_names_secrets_once(model: LifterModel, value: Json, path: Seq<Seq<char>>)
    requires
        model.valid(),
        model.secrets.dom().finite(),
    ensures
        lifted(model, value, path).0.valid(),
        lifted(model, value, path).0.secrets.dom().finite(),
        among(model, lifted(model, value, path).0),
    decreases value,
{
    match environment_of(value) {
        Some(environment) => {
            naming_keeps_order(model, path, environment);
        },
        None => match value {
            Json::List(items) => {
                lifting_items_names_secrets_once(model, items, path);
            },
            Json::Record(fields) => {
                lifting_fields_names_secrets_once(model, fields, path);
            },
            _ => {},
        },
    }
}

proof fn lifting_items_names_secrets_once(
    model: LifterModel,
    items: Seq<Json>,
    path: Seq<Seq<char>>,
)
    requires
        model.valid(),
        model.secrets.dom().finite(),
    ensures
        lifted_items(model, items, path).0.valid(),
        lifted_items(model, items, path).0.secrets.dom().finite(),
        among(model, lifted_items(model, items, path).0),
    decreases items,
{
    if items.len() > 0 {
        lifting_items_names_secrets_once(model, items.drop_last(), path);
        let between = lifted_items(model, items.drop_last(), path).0;
        lifting_names_secrets_once(
            between,
            items.last(),
            path.push(decimal((items.len() - 1) as nat)),
        );
    }
}

proof fn lifting_fields_names_secrets_once(
    model: LifterModel,
    fields: Seq<(Seq<char>, Json)>,
    path: Seq<Seq<char>>,
)
    requires
        model.valid(),
        model.secrets.dom().finite(),
    ensures
        lifted_fields(model, fields, path).0.valid(),
        lifted_fields(model, fields, path).0.secrets.dom().finite(),
        among(model, lifted_fields(model, fields, path).0),
    decreases fields,
{
    if fields.len() > 0 {
        lifting_fields_names_secrets_once(model, fields.drop_last(), path);
        let between = lifted_fields(model, fields.drop_last(), path).0;
        assert(decreases_to!(fields => fields.last()));
        assert(decreases_to!(fields.last() => fields.last().1));
        lifting_names_secrets_once(between, fields.last().1, path.push(fields.last().0));
    }
}

/// The step of a replay that an event is: an action that succeeded, or the answer to a dialog.
pub open spec fn step_of(event: JournalEvent) -> Option<Json> {
    match event {
        JournalEvent::ReplayStep { step, outcome, .. } => if outcome is Success {
            Some(canonical(step@))
        } else {
            None
        },
        JournalEvent::DialogHandled { action, text } => {
            let fields = seq![("action"@, Json::Text(action@))];
            Some(
                canonical(
                    single(
                        "dialog"@,
                        Json::Record(
                            gathered(
                                match text {
                                    Some(text) => fields.push(("text"@, text@)),
                                    None => fields,
                                },
                            ),
                        ),
                    ),
                ),
            )
        },
        JournalEvent::Action { operation, outcome, .. } => if outcome is Success {
            Some(canonical(operation_json(*operation)))
        } else {
            None
        },
        _ => None,
    }
}

/// An action that failed is no step of a replay.
pub proof fn failed_actions_are_left_out(event: JournalEvent)
    requires
        match event {
            JournalEvent::ReplayStep { outcome, .. } => outcome is Failed,
            JournalEvent::Action { outcome, .. } => outcome is Failed,
            JournalEvent::DialogHandled { .. } => false,
            _ => true,
        },
    ensures
        step_of(event) is None,
{
}

impl JournalEvent {
    /// The operation that the event tells of, where it succeeded.
    pub fn replay_operation(&self) -> (operation: Option<&ReplayOperation>)
        ensures
            match (operation, *self) {
                (
                    Some(operation),
                    JournalEvent::Action { operation: told, outcome, .. },
                ) => outcome is Success && *operation == *told,
                (None, JournalEvent::Action { outcome, .. }) => !(outcome is Success),
                (Some(_), _) => false,
                (None, _) => true,
            },
    {
        match self {
            JournalEvent::Action { operation, outcome, .. } => if outcome.succeeded() {
                Some(&**operation)
            } else {
                None
            },
            _ => None,
        }
    }

    /// The step of a replay that the event is.
    pub fn replay_step(&self) -> (step: Option<JsonValue>)
        ensures
            match step {
                Some(step) => step_of(*self) == Some(step@),
                None => step_of(*self) is None,
            },
    {
        match self {
            JournalEvent::ReplayStep { step, outcome, .. } => if outcome.succeeded() {
                Some(in_key_order(step))
            } else {
                None
            },
            JournalEvent::DialogHandled { action, text } => {
                let mut fields: Vec<(String, JsonValue)> = vec![
                    field("action", text_value(action.as_str())),
                ];
                if let Some(text) = text {
                    fields.push(field("text", text.clone()));
                }
                proof {
                    let told = seq![("action"@, Json::Text(action@))];
                    assert(fields_view(fields@) =~= match *text {
                        Some(text) => told.push(("text"@, text@)),
                        None => told,
                    });
                }
                let dialog = single_value("dialog", record_of(fields));
                Some(in_key_order(&dialog))
            },
            _ => match self.replay_operation() {
                Some(operation) => Some(in_key_order(&operation.to_json())),
                None => None,
            },
        }
    }
}

/// The steps of a replay, in the order of the events.
pub open spec fn steps_of(events: Seq<JournalEvent>) -> Seq<Json>
    decreases events.len(),
{
    if events.len() == 0 {
        Seq::empty()
    } else {
        match step_of(events.last()) {
            Some(step) => steps_of(events.drop_last()).push(step),
            None => steps_of(events.drop_last()),
        }
    }
}

/// The steps with their secrets lifted, each as a value of its own.
pub open spec fn lifted_steps(model: LifterModel, steps: Seq<Json>) -> (LifterModel, Seq<Json>)
    decreases steps.len(),
{
    if steps.len() == 0 {
        (model, steps)
    } else {
        let (between, before) = lifted_steps(model, steps.drop_last());
        let (after, last) = lifted(between, steps.last(), Seq::empty());
        (after, before.push(last))
    }
}

/// Why a session is not exported.
#[derive(Debug, Clone, PartialEq, Eq)]
#[allow(inconsistent_fields)]
pub enum ExportError {
    UnsafeName,
    EmptyReplay,
    Yaml(String),
    Publish { path: String, source: String },
}

/// The text of an error.
pub open spec fn export_error_text(error: ExportError) -> Seq<char> {
    match error {
        ExportError::UnsafeName => "bundle name must be a safe path component"@,
        ExportError::EmptyReplay => "replay has no successful explicit operations"@,
        ExportError::Yaml(reason) => "failed to serialize replay YAML: "@ + reason@,
        ExportError::Publish { path, source } => "failed to publish replay to "@ + path@ + ": "@
            + source@,
    }
}

impl ExportError {
    /// The text of the error.
    pub fn message(&self) -> (message: String)
        ensures
            message@ == export_error_text(*self),
    {
        match self {
            ExportError::UnsafeName => "bundle name must be a safe path component".to_owned(),
            ExportError::EmptyReplay => "replay has no successful explicit operations".to_owned(),
            ExportError::Yaml(reason) => join("failed to serialize replay YAML: ", reason.as_str()),
            ExportError::Publish { path, source } => {
                let mut message = join("failed to publish replay to ", path.as_str());
                message.append(": ");
                message.append(source.as_str());
                message
            },
        }
    }
}

/// The flow that replays a session.
#[derive(Debug)]
pub struct ReplayFlow {
    pub name: String,
    pub secrets: TextMap<String>,
    pub steps: Vec<JsonValue>,
}

/// Makes the flow that replays the events of a session.
pub fn build_replay(name: &str, events: &Vec<JournalEvent>) -> (result: Result<
    ReplayFlow,
    ExportError,
>)
    ensures
        match result {
            Err(error) => {
                ||| !safe_bundle_name(name@) && error == ExportError::UnsafeName
                ||| safe_bundle_name(name@) && steps_of(events@).len() == 0 && error
                    == ExportError::EmptyReplay
            },
            Ok(flow) => {
                let (model, steps) = lifted_steps(LifterModel::empty(), steps_of(events@));
                &&& safe_bundle_name(name@)
                &&& steps_of(events@).len() > 0
                &&& flow.name@ == name@
                &&& texts_by_text(flow.secrets@) == model.secrets
                &&& values_view(flow.steps@) == steps
            },
        },
{
    if !is_safe_bundle_name(name) {
        return Err(ExportError::UnsafeName);
    }
    let mut told: Vec<JsonValue> = Vec::new();
    let mut i: usize = 0;
    assert(events@.take(0) =~= Seq::<JournalEvent>::empty());
    assert(values_view(told@) =~= Seq::<Json>::empty());
    while i < events.len()
        invariant
            i <= events.len(),
            values_view(told@) == steps_of(events@.take(i as int)),
        decreases events.len() - i,
    {
        proof {
            assert(events@.take(i + 1).drop_last() == events@.take(i as int));
            assert(events@.take(i + 1).last() == events@[i as int]);
        }
        if let Some(step) = events[i].replay_step() {
            let ghost before = values_view(told@);
            told.push(step);
            assert(values_view(told@) =~= before.push(step@));
        }
        i += 1;
    }
    assert(events@.take(i as int) == events@);
    assert(values_view(told@).len() == told@.len());
    if told.len() == 0 {
        return Err(ExportError::EmptyReplay);
    }
    let ghost all = values_view(told@);
    let mut lifter = SecretLifter::new();
    let mut steps: Vec<JsonValue> = Vec::new();
    let mut k: usize = 0;
    assert(all.take(0) =~= Seq::<Json>::empty());
    assert(values_view(steps@) =~= Seq::<Json>::empty());
    while k < told.len()
        invariant
            k <= told.len(),
            all == values_view(told@),
            (lifter@, values_view(steps@)) == lifted_steps(
                LifterModel::empty(),
                all.take(k as int),
            ),
        decreases told.len() - k,
    {
        proof {
            assert(all.take(k + 1).drop_last() == all.take(k as int));
            assert(all.take(k + 1).last() == told@[k as int]@);
        }
        let mut path: Vec<String> = Vec::new();
        assert(texts_view(path@) =~= Seq::<Seq<char>>::empty());
        let ghost before = values_view(steps@);
        let step = lifter.lift(&told[k], &mut path);
        steps.push(step);
        assert(values_view(steps@) =~= before.push(step@));
        k += 1;
    }
    assert(all.take(k as int) == all);
    Ok(ReplayFlow { name: name.to_owned(), secrets: lifter.secrets, steps })
}

/// The records of secrets, by name.
pub open spec fn secrets_json(names: Seq<Seq<char>>, secrets: Map<Seq<char>, Seq<char>>) -> Json {
    Json::Record(
        names.map_values(|name: Seq<char>| (name, single("env"@, Json::Text(secrets[name])))),
    )
}

/// Whether these are the names of a set, each once and in order.
pub open spec fn lists_names(names: Seq<Seq<char>>, set: Set<Seq<char>>) -> bool {
    &&& forall|i: int, j: int|
        0 <= i < j < names.len() ==> text_less(#[trigger] names[i], #[trigger] names[j])
    &&& forall|name: Seq<char>| #[trigger] set.contains(name) <==> names.contains(name)
}

/// The names of a set in order.
pub open spec fn sorted_names(set: Set<Seq<char>>) -> Seq<Seq<char>> {
    choose|names: Seq<Seq<char>>| lists_names(names, set)
}

/// The names of a set have one order only.
pub proof fn names_have_one_order(names: Seq<Seq<char>>, set: Set<Seq<char>>)
    requires
        lists_names(names, set),
    ensures
        sorted_names(set) == names,
        set.finite(),
        set.len() == names.len(),
{
    orders_are_equal(sorted_names(set), names, set);
    assert forall|i: int, j: int| 0 <= i < j < names.len() implies names[i] != names[j] by {
        text_less_is_total(names[i], names[j]);
    }
    names.unique_seq_to_set();
    vstd::seq_lib::seq_to_set_is_finite(names);
    assert(names.to_set() =~= set);
}

proof fn orders_are_equal(left: Seq<Seq<char>>, right: Seq<Seq<char>>, set: Set<Seq<char>>)
    requires
        lists_names(left, set),
        lists_names(right, set),
    ensures
        left == right,
    decreases left.len(),
{
    if left.len() == 0 {
        if right.len() > 0 {
            assert(right.contains(right[0]));
            assert(set.contains(right[0]));
        }
        assert(left =~= right);
    } else {
        assert(left.contains(left.last()));
        assert(set.contains(left.last()));
        assert(right.contains(left.last()));
        assert(right.contains(right.last()));
        assert(set.contains(right.last()));
        let i = left.index_of(right.last());
        let j = right.index_of(left.last());
        text_less_is_total(left.last(), right.last());
        assert(left.last() == right.last());
        let fewer = set.remove(left.last());
        without_last(left, set);
        without_last(right, set);
        orders_are_equal(left.drop_last(), right.drop_last(), fewer);
        assert(left =~= left.drop_last().push(left.last()));
        assert(right =~= right.drop_last().push(right.last()));
    }
}

proof fn without_last(names: Seq<Seq<char>>, set: Set<Seq<char>>)
    requires
        lists_names(names, set),
        names.len() > 0,
    ensures
        lists_names(names.drop_last(), set.remove(names.last())),
{
    let fewer = names.drop_last();
    assert forall|name: Seq<char>| #[trigger]
        set.remove(names.last()).contains(name) <==> fewer.contains(name) by {
        if set.remove(names.last()).contains(name) {
            assert(names.contains(name));
            let i = names.index_of(name);
            assert(fewer[i] == name);
        }
        if fewer.contains(name) {
            let i = fewer.index_of(name);
            assert(names[i] == name);
            assert(names.contains(name));
            text_less_is_total(names[i], names.last());
        }
    }
}

/// The fields of a flow, in the order in which they are written: its version, its name, its secrets
/// where it has any, and its steps.
pub open spec fn replay_fields(
    name: Seq<char>,
    secrets: Map<Seq<char>, Seq<char>>,
    steps: Seq<Json>,
) -> Seq<(Seq<char>, Json)> {
    let names = sorted_names(secrets.dom());
    let start = seq![("version"@, Json::Integer(1)), ("name"@, Json::Text(name))];
    let middle = if names.len() == 0 {
        start
    } else {
        start.push(("secrets"@, secrets_json(names, secrets)))
    };
    middle.push(("steps"@, Json::List(steps)))
}

impl ReplayFlow {
    fn secrets_value(&self) -> (value: JsonValue)
        ensures
            value@ == secrets_json(self.secrets.keys(), texts_by_text(self.secrets@)),
    {
        broadcast use crate::json::group_json_views;

        let ghost keys = self.secrets.keys();
        let ghost known = texts_by_text(self.secrets@);
        let mut fields: Vec<(String, JsonValue)> = Vec::new();
        let len = self.secrets.len();
        let mut i: usize = 0;
        while i < len
            invariant
                i <= len,
                len == keys.len(),
                keys == self.secrets.keys(),
                known == texts_by_text(self.secrets@),
                fields@.len() == i,
                forall|k: int|
                    0 <= k < i ==> field_view(#[trigger] fields@[k]) == (
                        keys[k],
                        single("env"@, Json::Text(known[keys[k]])),
                    ),
            decreases len - i,
        {
            let name = self.secrets.key_at(i);
            let environment = self.secrets.value_at(i);
            fields.push(
                field(name.as_str(), single_value("env", text_value(environment.as_str()))),
            );
            i += 1;
        }
        assert(fields_view(fields@) =~= keys.map_values(
            |name: Seq<char>| (name, single("env"@, Json::Text(known[name]))),
        ));
        JsonValue::Record(fields)
    }

    /// The fields of the flow, in the order in which they are written.
    pub fn fields(&self) -> (fields: Vec<(String, JsonValue)>)
        ensures
            fields_view(fields@) == replay_fields(
                self.name@,
                texts_by_text(self.secrets@),
                values_view(self.steps@),
            ),
            texts_by_text(self.secrets@).dom().finite(),
            texts_by_text(self.secrets@).dom().len() == self.secrets.keys().len(),
    {
        broadcast use crate::json::group_json_views;

        let count = self.secrets.len();
        proof {
            let known = texts_by_text(self.secrets@);
            assert(known.dom() =~= self.secrets@.dom());
            assert(lists_names(self.secrets.keys(), known.dom())) by {
                assert forall|name: Seq<char>| #[trigger]
                    known.dom().contains(name) <==> self.secrets.keys().contains(name) by {
                    assert(self.secrets@.contains_key(name) <==> self.secrets.keys().contains(
                        name,
                    ));
                }
            }
            names_have_one_order(self.secrets.keys(), known.dom());
        }
        let mut fields = no_fields();
        push_field(&mut fields, "version", JsonValue::Unsigned(1));
        push_field(&mut fields, "name", text_value(self.name.as_str()));
        if count > 0 {
            push_field(&mut fields, "secrets", self.secrets_value());
        }
        let steps = copy_values(&self.steps);
        push_field(&mut fields, "steps", JsonValue::List(steps));
        assert(fields_view(fields@) =~= replay_fields(
            self.name@,
            texts_by_text(self.secrets@),
            values_view(self.steps@),
        ));
        fields
    }
}

fn copy_values(values: &Vec<JsonValue>) -> (copy: Vec<JsonValue>)
    ensures
        values_view(copy@) == values_view(values@),
{
    let mut copy: Vec<JsonValue> = Vec::new();
    let mut i: usize = 0;
    while i < values.len()
        invariant
            i <= values.len(),
            copy@.len() == i,
            forall|k: int| 0 <= k < i ==> (#[trigger] copy@[k])@ == values@[k]@,
        decreases values.len() - i,
    {
        copy.push(values[i].clone());
        i += 1;
    }
    assert(values_view(copy@) =~= values_view(values@));
    copy
}

/// A replay, ready to be published.
#[derive(Debug, Clone, PartialEq, Eq)]
pub struct ReplayExport {
    pub yaml: String,
    pub step_count: usize,
    pub secret_count: usize,
}

/// Whether this is the export of a flow with a name, secrets and steps.
pub open spec fn exports(
    result: Result<ReplayExport, ExportError>,
    name: Seq<char>,
    secrets: Map<Seq<char>, Seq<char>>,
    steps: Seq<Json>,
) -> bool {
    match (result, yaml_text(replay_fields(name, secrets, steps))) {
        (Ok(export), Ok(yaml)) => {
            &&& export.yaml@ == yaml
            &&& export.step_count == steps.len()
            &&& export.secret_count == secrets.dom().len()
        },
        (Err(ExportError::Yaml(told)), Err(reason)) => told@ == reason,
        _ => false,
    }
}

/// Writes the flow that replays a session.
pub fn export_replay(flow: &ReplayFlow) -> (result: Result<ReplayExport, ExportError>)
    ensures
        exports(
            result,
            flow.name@,
            texts_by_text(flow.secrets@),
            values_view(flow.steps@),
        ),
{
    match write_yaml(&flow.fields()) {
        Ok(yaml) => Ok(
            ReplayExport {
                yaml,
                step_count: flow.steps.len(),
                secret_count: flow.secrets.len(),
            },
        ),
        Err(reason) => Err(ExportError::Yaml(reason)),
    }
}

/// Whether this is the export of the events of a session under a name.
pub open spec fn exports_session(
    result: Result<ReplayExport, ExportError>,
    name: Seq<char>,
    events: Seq<JournalEvent>,
) -> bool {
    if !safe_bundle_name(name) {
        result == Err::<ReplayExport, ExportError>(ExportError::UnsafeName)
    } else if steps_of(events).len() == 0 {
        result == Err::<ReplayExport, ExportError>(ExportError::EmptyReplay)
    } else {
        let (model, steps) = lifted_steps(LifterModel::empty(), steps_of(events));
        exports(result, name, model.secrets, steps)
    }
}

/// Makes the text of the flow that replays the events of a session.
pub fn build_replay_yaml(name: &str, events: &Vec<JournalEvent>) -> (result: Result<
    ReplayExport,
    ExportError,
>)
    ensures
        exports_session(result, name@, events@),
{
    match build_replay(name, events) {
        Ok(flow) => export_replay(&flow),
        Err(error) => Err(error),
    }
}

/// Whether two exports are equal.
pub open spec fn same_export(
    first: Result<ReplayExport, ExportError>,
    second: Result<ReplayExport, ExportError>,
) -> bool {
    match (first, second) {
        (Ok(first), Ok(second)) => {
            &&& first.yaml@ == second.yaml@
            &&& first.step_count == second.step_count
            &&& first.secret_count == second.secret_count
        },
        (Err(ExportError::Yaml(first)), Err(ExportError::Yaml(second))) => first@ == second@,
        (Err(first), Err(second)) => first == second,
        _ => false,
    }
}

/// Exports are deterministic: whenever the events of a session are exported under one name, the export
/// is the same.
pub proof fn exports_are_deterministic(
    name: Seq<char>,
    events: Seq<JournalEvent>,
    first: Result<ReplayExport, ExportError>,
    second: Result<ReplayExport, ExportError>,
)
    requires
        exports_session(first, name, events),
        exports_session(second, name, events),
    ensures
        same_export(first, second),
{
}

/// An export counts the steps of its session, and one secret for each environment variable that they
/// refer to, however often.
pub proof fn exports_count_steps_and_variables(
    name: Seq<char>,
    events: Seq<JournalEvent>,
    result: Result<ReplayExport, ExportError>,
)
    requires
        exports_session(result, name, events),
        result is Ok,
    ensures
        result->Ok_0.step_count == steps_of(events).len(),
        result->Ok_0.secret_count == items_environment(steps_of(events)).to_set().len(),
{
    let steps = steps_of(events);
    lifting_steps_knows_variables(steps);
    let model = lifted_steps(LifterModel::empty(), steps).0;
    let variables = items_environment(steps).to_set();
    let variable = |name: Seq<char>| model.secrets[name];
    assert forall|one: Seq<char>, other: Seq<char>|
        model.secrets.dom().contains(one) && model.secrets.dom().contains(other)
            && #[trigger] variable(one) == #[trigger] variable(other) implies one == other by {
        assert(model.secrets.contains_key(one) && model.secrets.contains_key(other));
    }
    assert(model.secrets.dom().map(variable) =~= variables) by {
        assert forall|environment: Seq<char>| #[trigger]
            variables.contains(environment) implies model.secrets.dom().map(variable).contains(
            environment,
        ) by {
            assert(model.names.contains_key(environment));
            let named = model.names[environment];
            assert(model.secrets.dom().contains(named) && variable(named) == environment);
        }
        assert forall|environment: Seq<char>| #[trigger]
            model.secrets.dom().map(variable).contains(environment) implies variables.contains(
            environment,
        ) by {
            let named = choose|named: Seq<char>|
                model.secrets.dom().contains(named) && environment == variable(named);
            assert(model.secrets.contains_key(named));
            assert(model.names.contains_key(environment));
        }
    }
    vstd::set_lib::lemma_map_size(model.secrets.dom(), variables, variable);
}

proof fn lifting_steps_knows_variables(steps: Seq<Json>)
    ensures
        ({
            let (model, lifted) = lifted_steps(LifterModel::empty(), steps);
            &&& model.valid()
            &&& model.secrets.dom().finite()
            &&& lifted.len() == steps.len()
            &&& forall|environment: Seq<char>| #[trigger]
                model.names.contains_key(environment) <==> items_environment(steps).contains(
                    environment,
                )
        }),
    decreases steps.len(),
{
    if steps.len() > 0 {
        lifting_steps_knows_variables(steps.drop_last());
        let between = lifted_steps(LifterModel::empty(), steps.drop_last()).0;
        lifting_names_secrets_once(between, steps.last(), Seq::empty());
        lifting_knows_variables(between, steps.last(), Seq::empty());
        assert forall|environment: Seq<char>|
            items_environment(steps).contains(environment) == (items_environment(
                steps.drop_last(),
            ).contains(environment) || environment_references(steps.last()).contains(
                environment,
            )) by {
            both_hold(
                items_environment(steps.drop_last()),
                environment_references(steps.last()),
                environment,
            );
        }
    }
}

proof fn both_hold(left: Seq<Seq<char>>, right: Seq<Seq<char>>, name: Seq<char>)
    ensures
        (left + right).contains(name) == (left.contains(name) || right.contains(name)),
{
    if left.contains(name) {
        assert((left + right)[left.index_of(name)] == name);
    }
    if right.contains(name) {
        assert((left + right)[left.len() + right.index_of(name)] == name);
    }
    if (left + right).contains(name) {
        let i = (left + right).index_of(name);
        if i < left.len() {
            assert(left[i] == name);
        } else {
            assert(right[i - left.len()] == name);
        }
    }
}

/// Whether a model knows the variables of another one and these, and no more.
pub open spec fn knows_also(
    after: LifterModel,
    before: LifterModel,
    variables: Seq<Seq<char>>,
) -> bool {
    forall|environment: Seq<char>| #[trigger]
        after.names.contains_key(environment) <==> before.names.contains_key(environment)
            || variables.contains(environment)
}

proof fn lifting_knows_variables(model: LifterModel, value: Json, path: Seq<Seq<char>>)
    ensures
        knows_also(lifted(model, value, path).0, model, environment_references(value)),
    decreases value,
{
    match environment_of(value) {
        Some(environment) => {
            assert(seq![environment][0] == environment);
            assert forall|other: Seq<char>| seq![environment].contains(other) == (other
                == environment) by {
                if other == environment {
                    assert(seq![environment][0] == other);
                }
            }
        },
        None => match value {
            Json::List(items) => {
                lifting_items_knows_variables(model, items, path);
            },
            Json::Record(fields) => {
                lifting_fields_knows_variables(model, fields, path);
            },
            _ => {},
        },
    }
}

proof fn lifting_items_knows_variables(model: LifterModel, items: Seq<Json>, path: Seq<Seq<char>>)
    ensures
        knows_also(lifted_items(model, items, path).0, model, items_environment(items)),
    decreases items,
{
    if items.len() > 0 {
        lifting_items_knows_variables(model, items.drop_last(), path);
        let between = lifted_items(model, items.drop_last(), path).0;
        lifting_knows_variables(
            between,
            items.last(),
            path.push(decimal((items.len() - 1) as nat)),
        );
        assert forall|environment: Seq<char>|
            items_environment(items).contains(environment) == (items_environment(
                items.drop_last(),
            ).contains(environment) || environment_references(items.last()).contains(
                environment,
            )) by {
            both_hold(
                items_environment(items.drop_last()),
                environment_references(items.last()),
                environment,
            );
        }
    }
}

proof fn lifting_fields_knows_variables(
    model: LifterModel,
    fields: Seq<(Seq<char>, Json)>,
    path: Seq<Seq<char>>,
)
    ensures
        knows_also(lifted_fields(model, fields, path).0, model, fields_environment(fields)),
    decreases fields,
{
    if fields.len() > 0 {
        lifting_fields_knows_variables(model, fields.drop_last(), path);
        let between = lifted_fields(model, fields.drop_last(), path).0;
        assert(decreases_to!(fields => fields.last()));
        assert(decreases_to!(fields.last() => fields.last().1));
        lifting_knows_variables(between, fields.last().1, path.push(fields.last().0));
        assert forall|environment: Seq<char>|
            fields_environment(fields).contains(environment) == (fields_environment(
                fields.drop_last(),
            ).contains(environment) || environment_references(fields.last().1).contains(
                environment,
            )) by {
            both_hold(
                fields_environment(fields.drop_last()),
                environment_references(fields.last().1),
                environment,
            );
        }
    }
}

/// A bundle's name has between one and a hundred characters, each a letter, a digit, a dash or an underscore.
pub proof fn bundle_names_are_plain(name: &str, safe: bool, i: int)
    requires
        call_ensures(is_safe_bundle_name, (name,), safe),
    ensures
        name@.len() == 0 || name@.len() > 100 ==> !safe,
        safe && 0 <= i < name@.len() ==> 'a' <= name@[i] <= 'z' || 'A' <= name@[i] <= 'Z' || '0'
            <= name@[i] <= '9' || name@[i] == '-' || name@[i] == '_',
        0 < name@.len() <= 100 && (forall|k: int|
            0 <= k < name@.len() ==> 'a' <= #[trigger] name@[k] <= 'z' || 'A' <= name@[k] <= 'Z'
                || '0' <= name@[k] <= '9' || name@[k] == '-' || name@[k] == '_') ==> safe,
{
}

/// A successful step or operation is replayed as it was, a handled dialog as its answer, and nothing else is.
pub proof fn successful_operations_are_replayed(
    event: JournalEvent,
    step: Option<JsonValue>,
    operation: Option<&ReplayOperation>,
)
    requires
        call_ensures(JournalEvent::replay_step, (&event,), step),
        call_ensures(JournalEvent::replay_operation, (&event,), operation),
    ensures
        match event {
            JournalEvent::ReplayStep { step: told, outcome, .. } => {
                &&& (step is Some <==> outcome is Success)
                &&& (step is Some ==> step->0@ == canonical(told@))
                &&& operation is None
            },
            JournalEvent::Action { operation: told, outcome, .. } => {
                &&& (step is Some <==> outcome is Success)
                &&& (step is Some ==> step->0@ == canonical(operation_json(*told)))
                &&& (operation is Some <==> outcome is Success)
                &&& (operation is Some ==> *operation->0 == *told)
            },
            JournalEvent::DialogHandled { action, text } => {
                &&& step is Some
                &&& operation is None
                &&& (text is None ==> step->0@ == canonical(
                    single("dialog"@, single("action"@, Json::Text(action@))),
                ))
                &&& (text is Some ==> step->0@ == canonical(
                    single(
                        "dialog"@,
                        Json::Record(
                            gathered(
                                seq![("action"@, Json::Text(action@)), ("text"@, text->0@)],
                            ),
                        ),
                    ),
                ))
            },
            _ => step is None && operation is None,
        },
{
    if let JournalEvent::DialogHandled { action, text } = event {
        let plain = seq![("action"@, Json::Text(action@))];
        match text {
            Some(text) => {
                assert(plain.push(("text"@, text@)) =~= seq![
                    ("action"@, Json::Text(action@)),
                    ("text"@, text@),
                ]);
            },
            None => {
                assert(plain.drop_last() =~= Seq::<(Seq<char>, Json)>::empty());
                assert(gathered(plain.drop_last()) =~= Seq::<(Seq<char>, Json)>::empty());
                assert(gathered(plain) =~= plain);
            },
        }
    }
}

/// The steps of a replay are those of its events, in order.
pub proof fn steps_follow_their_events(first: Seq<JournalEvent>, second: Seq<JournalEvent>)
    ensures
        steps_of(first + second) == steps_of(first) + steps_of(second),
        steps_of(first).len() <= first.len(),
    decreases first.len() + second.len(),
{
    if second.len() == 0 {
        assert(first + second =~= first);
        assert(steps_of(first) + steps_of(second) =~= steps_of(first));
        if first.len() > 0 {
            steps_follow_their_events(first.drop_last(), second);
        }
    } else {
        assert((first + second).drop_last() =~= first + second.drop_last());
        steps_follow_their_events(first, second.drop_last());
        assert(steps_of(first + second) =~= steps_of(first) + steps_of(second));
    }
}

/// A value that refers to no variable is lifted as it is.
pub proof fn values_without_variables_stay(model: LifterModel, value: Json, path: Seq<Seq<char>>)
    requires
        environment_references(value).len() == 0,
    ensures
        lifted(model, value, path) == (model, value),
    decreases value,
{
    match value {
        Json::Record(fields) => {
            if environment_of(value) is None {
                assert(decreases_to!(value => fields));
                fields_without_variables_stay(model, fields, path);
            }
        },
        Json::List(items) => {
            assert(decreases_to!(value => items));
            items_without_variables_stay(model, items, path);
        },
        _ => {},
    }
}

proof fn fields_without_variables_stay(
    model: LifterModel,
    fields: Seq<(Seq<char>, Json)>,
    path: Seq<Seq<char>>,
)
    requires
        fields_environment(fields).len() == 0,
    ensures
        lifted_fields(model, fields, path) == (model, fields),
    decreases fields,
{
    if fields.len() > 0 {
        let before = fields.drop_last();
        fields_without_variables_stay(model, before, path);
        assert(decreases_to!(fields => fields[fields.len() - 1]));
        values_without_variables_stay(model, fields.last().1, path.push(fields.last().0));
        assert(before.push((fields.last().0, fields.last().1)) =~= fields);
    }
}

proof fn items_without_variables_stay(model: LifterModel, items: Seq<Json>, path: Seq<Seq<char>>)
    requires
        items_environment(items).len() == 0,
    ensures
        lifted_items(model, items, path) == (model, items),
    decreases items,
{
    if items.len() > 0 {
        let before = items.drop_last();
        items_without_variables_stay(model, before, path);
        assert(decreases_to!(items => items[items.len() - 1]));
        values_without_variables_stay(
            model,
            items.last(),
            path.push(decimal((items.len() - 1) as nat)),
        );
        assert(before.push(items.last()) =~= items);
    }
}

/// A reference to a variable is replaced by the name of a secret that stands for that variable, the same one
/// wherever the variable is referred to again.
pub proof fn variables_become_secrets(
    model: LifterModel,
    name: Seq<char>,
    path: Seq<Seq<char>>,
    later: Seq<Seq<char>>,
)
    requires
        model.valid(),
        model.secrets.dom().finite(),
    ensures
        ({
            let reference = Json::Record(seq![("env"@, Json::Text(name))]);
            let (after, value) = lifted(model, reference, path);
            &&& exists|secret: Seq<char>|
                {
                    &&& value == Json::Text(#[trigger] ("${"@ + secret + "}"@))
                    &&& after.secrets.contains_key(secret)
                    &&& after.secrets[secret] == name
                }
            &&& lifted(after, reference, later) == (after, value)
        }),
{
    let reference = Json::Record(seq![("env"@, Json::Text(name))]);
    assert(environment_of(reference) == Some(name));
    let secret = secret_name(model, path, name);
    let after = with_environment(model, path, name);
    naming_keeps_order(model, path, name);
    assert(lifted(model, reference, path) == (after, Json::Text("${"@ + secret + "}"@)));
    assert(after.names.contains_key(name));
    assert(after.names[name] == secret);
}

/// A replay's steps are lifted one by one, and stay where none refers to a variable.
pub proof fn replays_without_variables_are_their_steps(steps: Seq<Json>, model: LifterModel)
    requires
        forall|i: int|
            0 <= i < steps.len() ==> environment_references(#[trigger] steps[i]).len() == 0,
    ensures
        lifted_steps(model, steps) == (model, steps),
    decreases steps.len(),
{
    if steps.len() > 0 {
        let before = steps.drop_last();
        assert forall|i: int| 0 <= i < before.len() implies environment_references(
            #[trigger] before[i],
        ).len() == 0 by {
            assert(before[i] == steps[i]);
        }
        replays_without_variables_are_their_steps(before, model);
        assert(environment_references(steps[steps.len() - 1]).len() == 0);
        values_without_variables_stay(model, steps.last(), Seq::empty());
        assert(before.push(steps.last()) =~= steps);
    }
}

/// A replay is of the first version, and has its name, its steps and, where it has any, its secrets.
pub proof fn replays_have_a_name_and_steps(
    name: Seq<char>,
    secrets: Map<Seq<char>, Seq<char>>,
    steps: Seq<Json>,
    names: Seq<Seq<char>>,
    i: int,
)
    requires
        lists_names(names, secrets.dom()),
    ensures
        ({
            let fields = replay_fields(name, secrets, steps);
            &&& fields[0] == ("version"@, Json::Integer(1))
            &&& fields[1] == ("name"@, Json::Text(name))
            &&& fields.last() == ("steps"@, Json::List(steps))
            &&& fields.len() == if names.len() == 0 {
                3int
            } else {
                4
            }
            &&& names.len() > 0 ==> fields[2].0 == "secrets"@ && (fields[2].1 matches Json::Record(
                held,
            ) && held.len() == names.len() && (0 <= i < names.len() ==> held[i] == (
                names[i],
                Json::Record(seq![("env"@, Json::Text(secrets[names[i]]))]),
            )))
        }),
{
    names_have_one_order(names, secrets.dom());
}

/// A replay is built exactly if its name is safe and there is a step; it has that name.
pub proof fn replays_need_a_name_and_a_step(
    name: &str,
    events: Vec<JournalEvent>,
    result: Result<ReplayFlow, ExportError>,
    safe: bool,
)
    requires
        call_ensures(build_replay, (name, &events), result),
        call_ensures(is_safe_bundle_name, (name,), safe),
    ensures
        !safe <==> result is Err && result->Err_0 is UnsafeName,
        safe && steps_of(events@).len() == 0 <==> result is Err && result->Err_0 is EmptyReplay,
        result matches Ok(flow) ==> flow.name@ == name@ && flow.steps@.len() == steps_of(
            events@,
        ).len(),
{
    lifting_steps_knows_variables(steps_of(events@));
    if let Ok(flow) = result {
        assert(values_view(flow.steps@).len() == flow.steps@.len());
    }
}

/// A name of letters and digits that begins with a letter stays as it is, but for capitals, which are made
/// small; one that begins with a digit is given a word before it.
pub proof fn plain_names_stay_in_small_letters(value: &str, name: String)
    requires
        call_ensures(identifier, (value,), name),
        value@.len() > 0,
        forall|i: int| 0 <= i < value@.len() ==> plain_char(#[trigger] value@[i]),
    ensures
        ({
            let small = value@.map_values(|ch: char| lower(ch));
            &&& !('0' <= value@[0] <= '9') ==> name@ == small
            &&& '0' <= value@[0] <= '9' ==> name@ == "secret_"@ + small
        }),
{
    let small = value@.map_values(|ch: char| lower(ch));
    plain_names_are_simple(value@);
    assert(small[0] == lower(value@[0]));
    assert(small.last() == lower(value@.last()));
    assert(plain_char(value@[0]) && plain_char(value@[value@.len() - 1]));
    assert(without_leading(small) == small);
    assert(without_trailing(small) == small);
}

proof fn plain_names_are_simple(text: Seq<char>)
    requires
        forall|i: int| 0 <= i < text.len() ==> plain_char(#[trigger] text[i]),
    ensures
        simplified(text) == text.map_values(|ch: char| lower(ch)),
    decreases text.len(),
{
    if text.len() > 0 {
        let before = text.drop_last();
        assert forall|i: int| 0 <= i < before.len() implies plain_char(#[trigger] before[i]) by {
            assert(before[i] == text[i]);
        }
        plain_names_are_simple(before);
        assert(plain_char(text[text.len() - 1]));
        assert(before.map_values(|ch: char| lower(ch)).push(lower(text.last()))
            =~= text.map_values(|ch: char| lower(ch)));
    } else {
        assert(simplified(text) =~= text.map_values(|ch: char| lower(ch)));
    }
}

/// A capital is made the small letter that is as far into the alphabet; nothing else changes.
pub proof fn capitals_become_small(ch: char)
    ensures
        'A' <= ch <= 'Z' ==> lower(ch) as int - 'a' as int == ch as int - 'A' as int,
        !('A' <= ch <= 'Z') ==> lower(ch) == ch,
{
}

/// A secret is named after the last part of its place that has a letter in it, and after nothing that has none.
pub proof fn secrets_are_named_after_their_place(
    path: Seq<Seq<char>>,
    part: Seq<char>,
    i: int,
)
    ensures
        0 <= i < part.len() && ('a' <= part[i] <= 'z' || 'A' <= part[i] <= 'Z') ==> path_field(
            path.push(part),
        ) == part,
        (forall|k: int|
            0 <= k < part.len() ==> !('a' <= #[trigger] part[k] <= 'z' || 'A' <= part[k] <= 'Z'))
            ==> path_field(path.push(part)) == path_field(path),
        path.len() == 0 ==> path_field(path) == "secret"@,
{
    assert(path.push(part).drop_last() =~= path);
    if 0 <= i < part.len() && ('a' <= part[i] <= 'z' || 'A' <= part[i] <= 'Z') {
        assert(ascii_letter(part[i]));
    }
}

/// A new secret is named after its place and its variable, with the first number from two on that is free where
/// that name is taken.
pub proof fn new_secrets_are_named_in_turn(
    model: LifterModel,
    path: Seq<Seq<char>>,
    environment: Seq<char>,
)
    requires
        !model.names.contains_key(environment),
    ensures
        ({
            let base = identifier_of(path_field(path) + "_"@ + environment);
            &&& !model.secrets.contains_key(base) ==> secret_name(model, path, environment) == base
            &&& model.secrets.contains_key(base) && !model.secrets.contains_key(
                base + "_"@ + decimal(2),
            ) ==> secret_name(model, path, environment) == base + "_"@ + decimal(2)
        }),
{
    let base = identifier_of(path_field(path) + "_"@ + environment);
    if model.secrets.contains_key(base) && !model.secrets.contains_key(base + "_"@ + decimal(2)) {
        assert(numbered(base, 2) == base + "_"@ + decimal(2));
        assert(first_free(base, model.secrets, 2));
        let chosen = choose|number: nat| first_free(base, model.secrets, number);
        first_free_is_one(base, model.secrets, chosen, 2);
    }
}

} // verus!
