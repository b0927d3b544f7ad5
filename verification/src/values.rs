//! Values that are known only while a flow runs, and what keeps their secrets.

use crate::codec::{json_text, write_json};
use crate::json::{
    canonical, field_of, fields_view, find_field, set_field, with_field, Json, JsonValue,
};
use crate::secrets::{redacted, with_secret, with_secrets, SecretList};
use crate::text::texts_view;
use vstd::prelude::*;
use vstd::string::*;
use vstd::utf8::*;

verus! {

/// The largest number of bytes of a runtime value as JSON text.
pub const MAX_RUNTIME_VALUE_BYTES: usize = 1_048_576;

/// The least number of characters that make a text worth keeping from view.
pub const MIN_SECRET_CHARS: usize = 4;

/// A value, and whether it must not be shown.
#[derive(Debug, Clone, Copy, PartialEq, Eq)]
pub struct Resolved<T> {
    pub value: T,
    pub secret: bool,
}

impl<T> Resolved<T> {
    /// A value that is secret or not.
    pub fn new(value: T, secret: bool) -> (resolved: Resolved<T>)
        ensures
            resolved == (Resolved { value, secret }),
    {
        Resolved { value, secret }
    }

    /// The value itself.
    pub fn expose(&self) -> (value: &T)
        ensures
            *value == self.value,
    {
        &self.value
    }

    /// Whether the value must not be shown.
    pub fn is_secret(&self) -> (secret: bool)
        ensures
            secret == self.secret,
    {
        self.secret
    }
}

/// One part of a text that is put together while the flow runs.
#[derive(Debug)]
pub enum ValuePart {
    Literal(Resolved<String>),
    Output(String),
}

/// A text that is put together while the flow runs.
#[derive(Debug)]
pub struct RuntimeValue {
    pub parts: Vec<ValuePart>,
}

/// The outputs of earlier steps, in the order of their names. Every output is secret.
#[derive(Debug)]
pub struct Outputs {
    pub fields: Vec<(String, JsonValue)>,
}

impl View for Outputs {
    type V = Seq<(Seq<char>, Json)>;

    open spec fn view(&self) -> Seq<(Seq<char>, Json)> {
        fields_view(self.fields@)
    }
}

impl Outputs {
    /// No output.
    pub fn new() -> (outputs: Outputs)
        ensures
            outputs@ == Seq::<(Seq<char>, Json)>::empty(),
    {
        let fields: Vec<(String, JsonValue)> = Vec::new();
        assert(fields_view(fields@) == Seq::<(Seq<char>, Json)>::empty());
        Outputs { fields }
    }

    /// Sets an output, in place of an earlier one of that name.
    pub fn insert(&mut self, name: String, value: JsonValue)
        ensures
            final(self)@ == with_field(old(self)@, name@, value@),
    {
        set_field(&mut self.fields, name, value);
    }

    /// The output of that name.
    pub fn get(&self, name: &str) -> (found: Option<&JsonValue>)
        ensures
            match found {
                Some(value) => field_of(self@, name@) == Some(value@),
                None => field_of(self@, name@) is None,
            },
    {
        find_field(&self.fields, name)
    }

    /// The names of the outputs, in order.
    pub fn names(&self) -> (names: Vec<String>)
        ensures
            texts_view(names@) == self@.map_values(|field: (Seq<char>, Json)| field.0),
    {
        let mut names: Vec<String> = Vec::new();
        let mut i: usize = 0;
        while i < self.fields.len()
            invariant
                i <= self.fields.len(),
                names.len() == i,
                forall|k: int| 0 <= k < i ==> (#[trigger] names@[k])@ == self.fields@[k].0@,
            decreases self.fields.len() - i,
        {
            names.push(self.fields[i].0.clone());
            i += 1;
        }
        assert(texts_view(names@) == self@.map_values(|field: (Seq<char>, Json)| field.0));
        names
    }
}

/// The text that an output has inside another text: a text as it is, anything else as JSON.
pub open spec fn output_text(value: Json) -> Seq<char> {
    match value {
        Json::Text(text) => text,
        _ => json_text(canonical(value)),
    }
}

/// The text of a value that is put together from its parts, or the first output it lacks.
pub open spec fn resolved_text(
    parts: Seq<ValuePart>,
    outputs: Seq<(Seq<char>, Json)>,
) -> Result<Seq<char>, Seq<char>>
    decreases parts.len(),
{
    if parts.len() == 0 {
        Ok(Seq::empty())
    } else {
        match resolved_text(parts.drop_last(), outputs) {
            Err(missing) => Err(missing),
            Ok(before) => match parts.last() {
                ValuePart::Literal(literal) => Ok(before + literal.value@),
                ValuePart::Output(name) => match field_of(outputs, name@) {
                    Some(value) => Ok(before + output_text(value)),
                    None => Err(name@),
                },
            },
        }
    }
}

/// Whether some part of a value is secret. Outputs always are.
pub open spec fn any_secret(parts: Seq<ValuePart>) -> bool {
    exists|i: int|
        0 <= i < parts.len() && match #[trigger] parts[i] {
            ValuePart::Literal(literal) => literal.secret,
            ValuePart::Output(_) => true,
        }
}

fn text_of_output(value: &JsonValue) -> (text: String)
    ensures
        text@ == output_text(value@),
{
    match value {
        JsonValue::Text(text) => text.clone(),
        _ => write_json(value),
    }
}

impl RuntimeValue {
    /// A text that is known beforehand.
    pub fn literal(value: String, secret: bool) -> (text: RuntimeValue)
        ensures
            text.parts@ == seq![ValuePart::Literal(Resolved { value, secret })],
    {
        RuntimeValue { parts: vec![ValuePart::Literal(Resolved { value, secret })] }
    }

    /// Puts the text together. The error is the name of the first output that is missing.
    pub fn resolve(&self, outputs: &Outputs) -> (result: Result<Resolved<String>, String>)
        ensures
            match result {
                Ok(resolved) => {
                    &&& resolved_text(self.parts@, outputs@) == Ok::<Seq<char>, Seq<char>>(
                        resolved.value@,
                    )
                    &&& resolved.secret == any_secret(self.parts@)
                },
                Err(missing) => resolved_text(self.parts@, outputs@) == Err::<
                    Seq<char>,
                    Seq<char>,
                >(missing@),
            },
    {
        let mut text = String::new();
        let mut secret = false;
        let mut i: usize = 0;
        assert(self.parts@.take(0) == Seq::<ValuePart>::empty());
        while i < self.parts.len()
            invariant
                i <= self.parts.len(),
                resolved_text(self.parts@.take(i as int), outputs@) == Ok::<Seq<char>, Seq<char>>(
                    text@,
                ),
                secret == any_secret(self.parts@.take(i as int)),
            decreases self.parts.len() - i,
        {
            let ghost taken = self.parts@.take(i + 1);
            proof {
                assert(taken.drop_last() == self.parts@.take(i as int));
                assert(taken.last() == self.parts@[i as int]);
                assert(forall|k: int| 0 <= k < i ==> taken[k] == self.parts@.take(i as int)[k]);
                assert(any_secret(taken) == (any_secret(self.parts@.take(i as int))
                    || match taken[i as int] {
                    ValuePart::Literal(literal) => literal.secret,
                    ValuePart::Output(_) => true,
                })) by {
                    if any_secret(self.parts@.take(i as int)) {
                        let k = choose|k: int|
                            0 <= k < i && match #[trigger] self.parts@.take(i as int)[k] {
                                ValuePart::Literal(literal) => literal.secret,
                                ValuePart::Output(_) => true,
                            };
                        assert(taken[k] == self.parts@.take(i as int)[k]);
                    }
                }
            }
            match &self.parts[i] {
                ValuePart::Literal(literal) => {
                    text.append(literal.value.as_str());
                    secret = secret || literal.secret;
                },
                ValuePart::Output(name) => {
                    match outputs.get(name.as_str()) {
                        Some(value) => {
                            let shown = text_of_output(value);
                            text.append(shown.as_str());
                            secret = true;
                        },
                        None => {
                            proof {
                                missing_stays_missing(self.parts@, outputs@, i + 1);
                            }
                            return Err(name.clone());
                        },
                    }
                },
            }
            i += 1;
        }
        assert(self.parts@.take(i as int) == self.parts@);
        Ok(Resolved { value: text, secret })
    }
}

proof fn missing_stays_missing(
    parts: Seq<ValuePart>,
    outputs: Seq<(Seq<char>, Json)>,
    at: int,
)
    requires
        0 <= at <= parts.len(),
        resolved_text(parts.take(at), outputs) is Err,
    ensures
        resolved_text(parts, outputs) == resolved_text(parts.take(at), outputs),
    decreases parts.len() - at,
{
    if at < parts.len() {
        assert(parts.take(at + 1).drop_last() == parts.take(at));
        missing_stays_missing(parts, outputs, at + 1);
    } else {
        assert(parts.take(at) == parts);
    }
}

/// What keeps secrets out of texts that are shown.
#[derive(Debug, Clone)]
pub struct Redactor {
    pub secrets: SecretList,
}

/// Whether a text is long enough to be kept from view.
pub open spec fn long_enough(text: Seq<char>) -> bool {
    text.len() >= MIN_SECRET_CHARS
}

/// The secrets once `text` is one of them, if it is long enough.
pub open spec fn with_long_secret(secrets: Seq<Seq<char>>, text: Seq<char>) -> Seq<Seq<char>> {
    if long_enough(text) {
        with_secret(secrets, text)
    } else {
        secrets
    }
}

/// Whether a text is long enough to be kept from view.
pub fn meets_min_secret_len(text: &str) -> (meets: bool)
    ensures
        meets == long_enough(text@),
{
    text.unicode_len() >= MIN_SECRET_CHARS
}

impl Redactor {
    /// A redactor that knows no secret.
    pub fn new() -> (redactor: Redactor)
        ensures
            redactor.secrets@ == Seq::<Seq<char>>::empty(),
    {
        Redactor { secrets: SecretList::new() }
    }

    /// Learns a secret, unless it is too short.
    pub fn add_secret(&mut self, secret: &str)
        ensures
            final(self).secrets@ == with_long_secret(old(self).secrets@, secret@),
    {
        if meets_min_secret_len(secret) {
            self.secrets.register_secret(secret.to_owned());
        }
    }

    /// Learns the JSON text of a value, unless the value is a text that is too short.
    pub fn add_serialized_secret(&mut self, serialized: &str, bare_text: Option<&str>)
        ensures
            final(self).secrets@ == if bare_text is Some && !long_enough(bare_text->0@) {
                old(self).secrets@
            } else {
                with_long_secret(old(self).secrets@, serialized@)
            },
    {
        if let Some(text) = bare_text {
            if !meets_min_secret_len(text) {
                return ;
            }
        }
        self.add_secret(serialized);
    }

    /// Keeps the secrets of another redactor from view too.
    pub fn extend(&mut self, other: &Redactor)
        ensures
            final(self).secrets@ == with_secrets(old(self).secrets@, other.secrets@),
    {
        self.secrets.extend(&other.secrets);
    }

    /// The text with every known secret replaced.
    pub fn redact(&self, text: &str) -> (result: String)
        ensures
            result@ == redacted(text@, self.secrets@),
    {
        self.secrets.redact(text)
    }
}

/// A value is put together from its parts in order: the text of two lists of parts is the text of the first
/// and then that of the second. The first output that is missing is told.
pub proof fn values_are_put_together_in_order(
    first: Seq<ValuePart>,
    second: Seq<ValuePart>,
    outputs: Seq<(Seq<char>, Json)>,
)
    ensures
        match (resolved_text(first, outputs), resolved_text(second, outputs)) {
            (Ok(one), Ok(other)) => resolved_text(first + second, outputs) == Ok::<
                Seq<char>,
                Seq<char>,
            >(one + other),
            (Err(missing), _) => resolved_text(first + second, outputs) == Err::<
                Seq<char>,
                Seq<char>,
            >(missing),
            (Ok(_), Err(missing)) => resolved_text(first + second, outputs) == Err::<
                Seq<char>,
                Seq<char>,
            >(missing),
        },
    decreases second.len(),
{
    if second.len() == 0 {
        assert(first + second =~= first);
        if let Ok(text) = resolved_text(first, outputs) {
            assert(text + Seq::<char>::empty() =~= text);
        }
    } else {
        values_are_put_together_in_order(first, second.drop_last(), outputs);
        assert((first + second).drop_last() =~= first + second.drop_last());
        assert((first + second).last() == second.last());
        if resolved_text(first, outputs) is Ok && resolved_text(second, outputs) is Ok {
            let one = resolved_text(first, outputs)->Ok_0;
            let other = resolved_text(second, outputs)->Ok_0;
            let before = resolved_text(second.drop_last(), outputs)->Ok_0;
            let last = other.skip(before.len() as int);
            assert(other =~= before + last);
            assert(resolved_text(first + second, outputs)->Ok_0 =~= one + other);
        }
    }
}

/// A part is its own text: a literal as it stands, an output that is a text as it is, and any other output as
/// its JSON text. An output makes the whole secret, and so does a secret literal; nothing else does.
pub proof fn parts_are_their_texts(
    value: RuntimeValue,
    outputs: Outputs,
    result: Result<Resolved<String>, String>,
    literal: Resolved<String>,
    name: String,
)
    requires
        call_ensures(RuntimeValue::resolve, (&value, &outputs), result),
    ensures
        value.parts@ == seq![ValuePart::Literal(literal)] ==> result is Ok && result->Ok_0.value@
            == literal.value@ && result->Ok_0.secret == literal.secret,
        value.parts@ == seq![ValuePart::Output(name)] ==> match field_of(outputs@, name@) {
            Some(Json::Text(text)) => result is Ok && result->Ok_0.value@ == text
                && result->Ok_0.secret,
            Some(other) => result is Ok && result->Ok_0.value@ == json_text(canonical(other))
                && result->Ok_0.secret,
            None => result is Err && result->Err_0@ == name@,
        },
        result is Ok && result->Ok_0.secret <==> result is Ok && exists|i: int|
            0 <= i < value.parts@.len() && match #[trigger] value.parts@[i] {
                ValuePart::Literal(part) => part.secret,
                ValuePart::Output(_) => true,
            },
{
    let empty = Seq::<ValuePart>::empty();
    assert(resolved_text(empty, outputs@) == Ok::<Seq<char>, Seq<char>>(Seq::empty()));
    if value.parts@ == seq![ValuePart::Literal(literal)] {
        assert(value.parts@.drop_last() =~= empty);
        assert(Seq::<char>::empty() + literal.value@ =~= literal.value@);
        assert(value.parts@[0] == ValuePart::Literal(literal));
    }
    if value.parts@ == seq![ValuePart::Output(name)] {
        assert(value.parts@.drop_last() =~= empty);
        assert(value.parts@[0] == ValuePart::Output(name));
        if let Some(held) = field_of(outputs@, name@) {
            assert(Seq::<char>::empty() + output_text(held) =~= output_text(held));
        }
    }
}

/// Texts of at least four characters are kept from view, and shorter ones are not.
pub proof fn short_texts_are_no_secrets(secrets: Seq<Seq<char>>, text: Seq<char>)
    ensures
        text.len() < 4 ==> with_long_secret(secrets, text) == secrets,
        text.len() >= 4 ==> with_long_secret(secrets, text) == with_secret(secrets, text),
{
}

/// An output that is kept reads back, and the others stay; their names are told in order.
pub proof fn outputs_read_back(
    outputs: &mut Outputs,
    name: String,
    value: JsonValue,
    after: Outputs,
    key: &str,
    found: Option<&JsonValue>,
    names: Vec<String>,
    i: int,
)
    requires
        call_ensures(Outputs::insert, (outputs, name, value), ()),
        after@ == final(outputs)@,
        call_ensures(Outputs::get, (&after, key), found),
        call_ensures(Outputs::names, (&after,), names),
    ensures
        key@ == name@ ==> found is Some && found->0@ == value@,
        key@ != name@ ==> (found is Some <==> field_of(old(outputs)@, key@) is Some) && (found is Some
            ==> field_of(old(outputs)@, key@) == Some(found->0@)),
        names@.len() == after@.len(),
        0 <= i < names@.len() ==> names@[i]@ == after@[i].0,
{
    crate::json::set_field_reads_back(old(outputs)@, name@, value@, key@);
    assert(texts_view(names@).len() == names@.len());
    if 0 <= i < names@.len() {
        assert(texts_view(names@)[i] == names@[i]@);
    }
}

/// A text of four characters or more that is added becomes a secret; a shorter one does not, and neither does
/// what stands for a shorter one.
pub proof fn long_texts_become_secrets(
    redactor: &mut Redactor,
    secret: &str,
    serialized: &mut Redactor,
    told: &str,
    bare: &str,
)
    requires
        call_ensures(Redactor::add_secret, (redactor, secret), ()),
        call_ensures(Redactor::add_serialized_secret, (serialized, told, Some(bare)), ()),
    ensures
        secret@.len() < 4 ==> final(redactor).secrets@ == old(redactor).secrets@,
        secret@.len() >= 4 ==> final(redactor).secrets@ == with_secret(
            old(redactor).secrets@,
            secret@,
        ),
        bare@.len() < 4 ==> final(serialized).secrets@ == old(serialized).secrets@,
        bare@.len() >= 4 && told@.len() >= 4 ==> final(serialized).secrets@ == with_secret(
            old(serialized).secrets@,
            told@,
        ),
{
}

} // verus!
