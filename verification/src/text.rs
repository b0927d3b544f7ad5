//! Text as sequences of characters: comparison, numerals, replacement and bounded copies.

use vstd::prelude::*;
use vstd::string::*;
use vstd::utf8::*;

verus! {

/// `String::push` adds one character at the end.
pub assume_specification[ std::string::String::push ](text: &mut String, ch: char)
    ensures
        final(text)@ == old(text)@.push(ch),
;

/// The characters of a text, in order.
pub fn chars_of(text: &str) -> (chars: Vec<char>)
    ensures
        chars@ == text@,
{
    let mut chars: Vec<char> = Vec::new();
    for ch in it: text.chars()
        invariant
            chars@ == text@.take(it.index()),
            it.seq() == text@,
    {
        chars.push(ch);
    }
    chars
}

/// The text with the given characters.
pub fn text_of(chars: &[char]) -> (text: String)
    ensures
        text@ == chars@,
{
    let mut text = String::new();
    let mut i: usize = 0;
    while i < chars.len()
        invariant
            i <= chars.len(),
            text@ == chars@.take(i as int),
        decreases chars.len() - i,
    {
        text.push(chars[i]);
        i += 1;
    }
    text
}

/// Whether two texts hold the same characters.
pub fn same_text(left: &str, right: &str) -> (same: bool)
    ensures
        same == (left@ == right@),
{
    let first = left.as_bytes();
    let second = right.as_bytes();
    proof {
        encode_utf8_decode_utf8(left@);
        encode_utf8_decode_utf8(right@);
    }
    if first.len() != second.len() {
        return false;
    }
    let mut i: usize = 0;
    while i < first.len()
        invariant
            i <= first.len(),
            first.len() == second.len(),
            first@ == encode_utf8(left@),
            second@ == encode_utf8(right@),
            forall|k: int| 0 <= k < i ==> first@[k] == second@[k],
        decreases first.len() - i,
    {
        if first[i] != second[i] {
            return false;
        }
        i += 1;
    }
    assert(first@ =~= second@);
    true
}

/// Whether `texts` holds `text`.
pub fn holds_text(texts: &Vec<String>, text: &str) -> (found: bool)
    ensures
        found == texts_view(texts@).contains(text@),
{
    let mut i: usize = 0;
    while i < texts.len()
        invariant
            i <= texts.len(),
            forall|k: int| 0 <= k < i ==> texts@[k]@ != text@,
        decreases texts.len() - i,
    {
        if same_text(texts[i].as_str(), text) {
            assert(texts_view(texts@)[i as int] == text@);
            return true;
        }
        i += 1;
    }
    false
}

/// The text that the format `{:?}` of std shows for a string.
pub uninterp spec fn quoted(text: Seq<char>) -> Seq<char>;

/// Formats a string with `{:?}`: in quotes, with std's escapes.
#[verifier::external_body]
pub(crate) fn quote(text: &str) -> (shown: String)
    ensures
        shown@ == quoted(text@),
{
    format!("{:?}", text)
}

/// Both texts, one after the other.
pub fn join(left: &str, right: &str) -> (joined: String)
    ensures
        joined@ == left@ + right@,
{
    let mut joined = left.to_owned();
    joined.append(right);
    joined
}

/// The characters of each text of a list.
pub open spec fn texts_view(texts: Seq<String>) -> Seq<Seq<char>> {
    texts.map_values(|text: String| text@)
}

/// The characters of an optional text.
pub open spec fn optional_text(text: Option<String>) -> Option<Seq<char>> {
    match text {
        Some(text) => Some(text@),
        None => None,
    }
}

/// A copy of a list of texts.
pub fn copy_texts(texts: &Vec<String>) -> (copy: Vec<String>)
    ensures
        texts_view(copy@) == texts_view(texts@),
{
    let mut copy: Vec<String> = Vec::new();
    let mut i: usize = 0;
    while i < texts.len()
        invariant
            i <= texts.len(),
            texts_view(copy@) == texts_view(texts@).take(i as int),
        decreases texts.len() - i,
    {
        let ghost before = copy@;
        copy.push(texts[i].clone());
        assert(texts_view(copy@) == texts_view(before).push(texts@[i as int]@));
        i += 1;
        assert(texts_view(texts@).take(i as int) == texts_view(texts@).take(i - 1).push(
            texts_view(texts@)[i - 1],
        ));
    }
    copy
}

/// A copy of an optional text.
pub fn copy_optional(text: &Option<String>) -> (copy: Option<String>)
    ensures
        copy == *text,
{
    match text {
        Some(text) => Some(text.clone()),
        None => None,
    }
}

/// The decimal digit for a value below ten.
pub open spec fn digit(value: nat) -> char {
    ('0' as nat + value) as char
}

/// The decimal numeral of a number, without leading zeros.
pub open spec fn decimal(value: nat) -> Seq<char>
    decreases value,
{
    if value < 10 {
        seq![digit(value)]
    } else {
        decimal(value / 10).push(digit(value % 10))
    }
}

/// The number that a run of decimal digits stands for.
pub open spec fn number_of(digits: Seq<char>) -> nat
    decreases digits.len(),
{
    if digits.len() == 0 {
        0
    } else {
        number_of(digits.drop_last()) * 10 + (digits.last() as nat - '0' as nat) as nat
    }
}

/// Whether every character is an ASCII decimal digit.
pub open spec fn all_digits(text: Seq<char>) -> bool {
    forall|i: int| 0 <= i < text.len() ==> '0' <= #[trigger] text[i] <= '9'
}

/// A numeral is made of digits and stands for its number.
pub proof fn decimal_round_trip(value: nat)
    ensures
        decimal(value).len() >= 1,
        all_digits(decimal(value)),
        number_of(decimal(value)) == value,
        decimal(value).len() > 1 ==> decimal(value)[0] != '0',
        value > 0 ==> decimal(value)[0] != '0',
    decreases value,
{
    if value < 10 {
        assert(decimal(value).drop_last() == Seq::<char>::empty());
        assert(number_of(decimal(value).drop_last()) == 0);
    } else {
        decimal_round_trip(value / 10);
        assert(decimal(value).drop_last() == decimal(value / 10));
    }
}

/// Different numbers have different numerals.
pub proof fn decimal_is_injective(left: nat, right: nat)
    requires
        decimal(left) == decimal(right),
    ensures
        left == right,
{
    decimal_round_trip(left);
    decimal_round_trip(right);
}

/// The decimal numeral of a number of up to 128 bits.
pub fn wide_decimal_text(value: u128) -> (text: String)
    ensures
        text@ == decimal(value as nat),
    decreases value,
{
    let mut text = if value < 10 {
        String::new()
    } else {
        wide_decimal_text(value / 10)
    };
    text.push((48u8 + (value % 10) as u8) as char);
    text
}

/// The decimal numeral of `value`.
pub fn decimal_text(value: u64) -> (text: String)
    ensures
        text@ == decimal(value as nat),
{
    wide_decimal_text(value as u128)
}

/// `text` after as many zeros as bring it to `width` characters.
pub open spec fn zero_padded(text: Seq<char>, width: nat) -> Seq<char> {
    if text.len() < width {
        Seq::new((width - text.len()) as nat, |i: int| '0') + text
    } else {
        text
    }
}

/// The numeral of `value`, with leading zeros up to `width` characters.
pub fn padded_text(value: u64, width: usize) -> (text: String)
    ensures
        text@ == zero_padded(decimal(value as nat), width as nat),
{
    let numeral = decimal_text(value);
    let length: usize = numeral.as_str().unicode_len();
    let mut text = String::new();
    let mut missing: usize = if length < width { width - length } else { 0 };
    let ghost total = missing as nat;
    while missing > 0
        invariant
            missing <= total,
            text@ == Seq::new((total - missing) as nat, |i: int| '0'),
        decreases missing,
    {
        text.push('0');
        missing -= 1;
    }
    text.append(numeral.as_str());
    text
}

/// Zero padding keeps different numbers apart.
pub proof fn padded_is_injective(left: nat, right: nat, width: nat)
    requires
        zero_padded(decimal(left), width) == zero_padded(decimal(right), width),
    ensures
        left == right,
{
    decimal_round_trip(left);
    decimal_round_trip(right);
    number_of_padded(decimal(left), width);
    number_of_padded(decimal(right), width);
}

proof fn number_of_padded(digits: Seq<char>, width: nat)
    ensures
        number_of(zero_padded(digits, width)) == number_of(digits),
    decreases digits.len() + width,
{
    let padded = zero_padded(digits, width);
    if digits.len() >= width {
    } else if digits.len() == 0 {
        if width > 0 {
            number_of_padded(digits, (width - 1) as nat);
            assert(padded.drop_last() == zero_padded(digits, (width - 1) as nat));
        }
    } else {
        number_of_padded(digits.drop_last(), (width - 1) as nat);
        assert(padded.drop_last() == zero_padded(digits.drop_last(), (width - 1) as nat));
    }
}

/// The first `count` characters, or all of a shorter text.
pub open spec fn leading_chars(text: Seq<char>, count: nat) -> Seq<char> {
    if text.len() <= count {
        text
    } else {
        text.take(count as int)
    }
}

/// A copy of the first `count` characters.
pub fn bounded_text(text: &str, count: usize) -> (bounded: String)
    ensures
        bounded@ == leading_chars(text@, count as nat),
{
    let mut bounded = String::new();
    let mut taken: usize = 0;
    for ch in it: text.chars()
        invariant
            taken == if it.index() < count { it.index() } else { count as int },
            bounded@ == text@.take(taken as int),
            it.seq() == text@,
    {
        if taken < count {
            bounded.push(ch);
            taken += 1;
        }
    }
    bounded
}

/// Whether `part` stands in `whole` at position `at`.
pub open spec fn stands_at(whole: Seq<char>, part: Seq<char>, at: int) -> bool {
    &&& 0 <= at
    &&& at + part.len() <= whole.len()
    &&& whole.subrange(at, at + part.len()) == part
}

/// Whether `part` occurs somewhere in `whole`.
pub open spec fn occurs(whole: Seq<char>, part: Seq<char>) -> bool {
    exists|at: int| stands_at(whole, part, at)
}

/// `text` with every occurrence of `part`, found from the left without overlap, replaced.
pub open spec fn replaced(text: Seq<char>, part: Seq<char>, by: Seq<char>) -> Seq<char>
    decreases text.len(),
{
    if part.len() == 0 || text.len() < part.len() {
        text
    } else if text.take(part.len() as int) == part {
        by + replaced(text.skip(part.len() as int), part, by)
    } else {
        seq![text[0]] + replaced(text.skip(1), part, by)
    }
}

fn matches_at(text: &Vec<char>, part: &Vec<char>, at: usize) -> (matches: bool)
    requires
        at <= text.len(),
    ensures
        matches == stands_at(text@, part@, at as int),
{
    if part.len() > text.len() - at {
        return false;
    }
    let mut i: usize = 0;
    while i < part.len()
        invariant
            i <= part.len(),
            at + part.len() <= text.len(),
            forall|k: int| 0 <= k < i ==> text@[at + k] == part@[k],
        decreases part.len() - i,
    {
        if text[at + i] != part[i] {
            assert(text@.subrange(at as int, at + part@.len())[i as int] != part@[i as int]);
            return false;
        }
        i += 1;
    }
    assert(text@.subrange(at as int, at + part@.len()) =~= part@);
    true
}

/// Replaces every occurrence of a nonempty `part`, as [`replaced`] says.
pub fn replace_text(text: &str, part: &str, by: &str) -> (result: String)
    requires
        part@.len() > 0,
    ensures
        result@ == replaced(text@, part@, by@),
{
    let chars = chars_of(text);
    let pattern = chars_of(part);
    let mut result = String::new();
    let mut at: usize = 0;
    assert(chars@.skip(0) == chars@);
    while chars.len() - at >= pattern.len()
        invariant
            at <= chars.len(),
            pattern@ == part@,
            pattern.len() > 0,
            chars@ == text@,
            result@ + replaced(chars@.skip(at as int), part@, by@) == replaced(text@, part@, by@),
        decreases chars.len() - at,
    {
        let ghost rest = chars@.skip(at as int);
        assert(rest.take(pattern@.len() as int) == chars@.subrange(at as int, at + pattern@.len()));
        let ghost before = result@;
        if matches_at(&chars, &pattern, at) {
            result.append(by);
            at = at + pattern.len();
            assert(rest.skip(pattern@.len() as int) == chars@.skip(at as int));
            assert(before + (by@ + replaced(chars@.skip(at as int), part@, by@)) == result@
                + replaced(chars@.skip(at as int), part@, by@));
        } else {
            result.push(chars[at]);
            at = at + 1;
            assert(rest.skip(1) == chars@.skip(at as int));
            assert(before + (seq![rest[0]] + replaced(chars@.skip(at as int), part@, by@))
                == result@ + replaced(chars@.skip(at as int), part@, by@));
        }
    }
    let ghost before = result@;
    let ghost end = at;
    while at < chars.len()
        invariant
            end <= at <= chars.len(),
            result@ == before + chars@.subrange(end as int, at as int),
        decreases chars.len() - at,
    {
        result.push(chars[at]);
        at += 1;
    }
    assert(chars@.subrange(end as int, at as int) == chars@.skip(end as int));
    result
}

/// Whether a character is white space: whether it has the property White_Space of Unicode.
pub open spec fn white_space(ch: char) -> bool {
    ||| '\u{9}' <= ch <= '\u{d}'
    ||| ch == ' '
    ||| ch == '\u{85}'
    ||| ch == '\u{a0}'
    ||| ch == '\u{1680}'
    ||| '\u{2000}' <= ch <= '\u{200a}'
    ||| ch == '\u{2028}'
    ||| ch == '\u{2029}'
    ||| ch == '\u{202f}'
    ||| ch == '\u{205f}'
    ||| ch == '\u{3000}'
}

/// Whether a character is white space.
pub fn is_white_space(ch: char) -> (white: bool)
    ensures
        white == white_space(ch),
{
    ('\u{9}' <= ch && ch <= '\u{d}') || ch == ' ' || ch == '\u{85}' || ch == '\u{a0}' || ch
        == '\u{1680}' || ('\u{2000}' <= ch && ch <= '\u{200a}') || ch == '\u{2028}' || ch
        == '\u{2029}' || ch == '\u{202f}' || ch == '\u{205f}' || ch == '\u{3000}'
}

/// A text without the white space at its start.
pub open spec fn trimmed_start(text: Seq<char>) -> Seq<char>
    decreases text.len(),
{
    if text.len() > 0 && white_space(text[0]) {
        trimmed_start(text.skip(1))
    } else {
        text
    }
}

/// A text without the white space at its end.
pub open spec fn trimmed_end(text: Seq<char>) -> Seq<char>
    decreases text.len(),
{
    if text.len() > 0 && white_space(text.last()) {
        trimmed_end(text.drop_last())
    } else {
        text
    }
}

/// A text without the white space around it.
pub open spec fn trimmed(text: Seq<char>) -> Seq<char> {
    trimmed_end(trimmed_start(text))
}

/// The text without the white space around it.
pub fn trim(text: &str) -> (result: String)
    ensures
        result@ == trimmed(text@),
{
    let chars = chars_of(text);
    let mut start: usize = 0;
    assert(chars@.skip(0) == chars@);
    while start < chars.len() && is_white_space(chars[start])
        invariant
            start <= chars.len(),
            trimmed_start(chars@) == trimmed_start(chars@.skip(start as int)),
        decreases chars.len() - start,
    {
        proof {
            assert(chars@.skip(start as int).skip(1) == chars@.skip(start + 1));
        }
        start += 1;
    }
    let ghost rest = chars@.skip(start as int);
    assert(trimmed_start(chars@) == rest);
    let mut end: usize = chars.len();
    assert(chars@.subrange(start as int, end as int) == rest);
    while start < end && is_white_space(chars[end - 1])
        invariant
            start <= end <= chars.len(),
            trimmed_end(rest) == trimmed_end(chars@.subrange(start as int, end as int)),
        decreases end,
    {
        proof {
            assert(chars@.subrange(start as int, end as int).drop_last() == chars@.subrange(
                start as int,
                end - 1,
            ));
        }
        end -= 1;
    }
    text_of(vstd::slice::slice_subrange(chars.as_slice(), start, end))
}

/// Whether a text occurs in another.
pub fn contains_text(whole: &str, part: &str) -> (contains: bool)
    ensures
        contains == occurs(whole@, part@),
{
    let chars = chars_of(whole);
    let pattern = chars_of(part);
    let mut at: usize = 0;
    while at <= chars.len()
        invariant
            at <= chars.len() + 1,
            chars@ == whole@,
            pattern@ == part@,
            forall|k: int| 0 <= k < at ==> !stands_at(whole@, part@, k),
        decreases chars.len() + 1 - at,
    {
        if matches_at(&chars, &pattern, at) {
            return true;
        }
        if at == chars.len() {
            proof {
                if occurs(whole@, part@) {
                    let k = choose|k: int| stands_at(whole@, part@, k);
                    assert(k <= at);
                }
            }
            return false;
        }
        at += 1;
    }
    false
}

/// A text with every run of white space as one space, and none at the start.
pub open spec fn squeezed(text: Seq<char>) -> Seq<char>
    decreases text.len(),
{
    if text.len() == 0 {
        text
    } else {
        let before = squeezed(text.drop_last());
        if !white_space(text.last()) {
            before.push(text.last())
        } else if before.len() == 0 || before.last() == ' ' {
            before
        } else {
            before.push(' ')
        }
    }
}

/// A text with every run of white space as one space, and none around it.
pub open spec fn collapsed(text: Seq<char>) -> Seq<char> {
    let inner = squeezed(text);
    if inner.len() > 0 && inner.last() == ' ' {
        inner.drop_last()
    } else {
        inner
    }
}

/// The text with every run of white space as one space, and none around it.
pub fn collapse(text: &str) -> (result: String)
    ensures
        result@ == collapsed(text@),
{
    let chars = chars_of(text);
    let mut inner: Vec<char> = Vec::new();
    let mut i: usize = 0;
    assert(chars@.take(0) =~= Seq::<char>::empty());
    while i < chars.len()
        invariant
            i <= chars.len(),
            inner@ == squeezed(chars@.take(i as int)),
        decreases chars.len() - i,
    {
        proof {
            assert(chars@.take(i + 1).drop_last() == chars@.take(i as int));
            assert(chars@.take(i + 1).last() == chars@[i as int]);
        }
        let ch = chars[i];
        if !is_white_space(ch) {
            inner.push(ch);
        } else if inner.len() > 0 && inner[inner.len() - 1] != ' ' {
            inner.push(' ');
        }
        i += 1;
    }
    assert(chars@.take(i as int) == chars@);
    let len = inner.len();
    if len > 0 && inner[len - 1] == ' ' {
        assert(inner@.subrange(0, len - 1) =~= inner@.drop_last());
        text_of(vstd::slice::slice_subrange(inner.as_slice(), 0, len - 1))
    } else {
        text_of(inner.as_slice())
    }
}

/// A part is found in a text exactly if the text is made of something, the part, and something.
pub proof fn parts_are_found_where_they_stand(
    whole: &str,
    part: &str,
    found: bool,
    before: Seq<char>,
    after: Seq<char>,
)
    requires
        call_ensures(contains_text, (whole, part), found),
    ensures
        whole@ == before + part@ + after ==> found,
        found ==> exists|at: int| #![trigger whole@.take(at)]
            0 <= at <= whole@.len() - part@.len() && whole@ == whole@.take(at) + part@ + whole@.skip(
                at + part@.len(),
            ),
{
    if whole@ == before + part@ + after {
        let at = before.len() as int;
        assert(whole@.subrange(at, at + part@.len()) =~= part@);
        assert(stands_at(whole@, part@, at));
    }
    if found {
        let at = choose|at: int| stands_at(whole@, part@, at);
        assert(whole@ =~= whole@.take(at) + part@ + whole@.skip(at + part@.len()));
    }
}

/// Replacing works from the left: what stands before the first occurrence stays, the occurrence is replaced,
/// and so on behind it. A text without the part stays as it is.
pub proof fn occurrences_are_replaced_from_the_left(
    text: Seq<char>,
    part: Seq<char>,
    by: Seq<char>,
    at: int,
)
    requires
        part.len() > 0,
    ensures
        !occurs(text, part) ==> replaced(text, part, by) == text,
        stands_at(text, part, at) && (forall|k: int| 0 <= k < at ==> !stands_at(text, part, k))
            ==> replaced(text, part, by) == text.take(at) + by + replaced(
            text.skip(at + part.len()),
            part,
            by,
        ),
    decreases text.len(),
{
    if text.len() >= part.len() {
        let rest = text.skip(1);
        assert(text.take(part.len() as int) =~= text.subrange(0, part.len() as int));
        assert forall|k: int| stands_at(rest, part, k) == stands_at(text, part, k + 1) && true
            || k < 0 by {
            if 0 <= k && k + 1 + part.len() <= text.len() {
                assert(rest.subrange(k, k + part.len()) =~= text.subrange(k + 1, k + 1 + part.len()));
            }
        }
        if !occurs(text, part) {
            assert(!stands_at(text, part, 0));
            assert(!occurs(rest, part)) by {
                if occurs(rest, part) {
                    let k = choose|k: int| stands_at(rest, part, k);
                    assert(stands_at(text, part, k + 1));
                }
            }
            occurrences_are_replaced_from_the_left(rest, part, by, 0);
            assert(seq![text[0]] + rest =~= text);
        }
        if stands_at(text, part, at) && (forall|k: int| 0 <= k < at ==> !stands_at(text, part, k)) {
            if at == 0 {
                assert(text.take(0) + by =~= by);
                assert(text.take(0) + by + replaced(text.skip(part.len() as int), part, by) =~= by
                    + replaced(text.skip(part.len() as int), part, by));
            } else {
                assert(!stands_at(text, part, 0));
                assert(stands_at(rest, part, at - 1));
                assert forall|k: int| 0 <= k < at - 1 implies !stands_at(rest, part, k) by {
                    assert(!stands_at(text, part, k + 1));
                }
                occurrences_are_replaced_from_the_left(rest, part, by, at - 1);
                assert(rest.skip(at - 1 + part.len()) =~= text.skip(at + part.len()));
                assert(seq![text[0]] + rest.take(at - 1) =~= text.take(at));
                assert(replaced(text, part, by) =~= text.take(at) + by + replaced(
                    text.skip(at + part.len()),
                    part,
                    by,
                ));
            }
        }
    } else {
        assert(!stands_at(text, part, at));
    }
}

/// A trimmed text is the text without white space around it: what is cut off is white space, and what is left
/// neither begins nor ends with any.
pub proof fn trimming_cuts_off_white_space_only(text: &str, result: String) -> (cut: (int, int))
    requires
        call_ensures(trim, (text,), result),
    ensures
        0 <= cut.0 <= cut.1 <= text@.len(),
        result@ == text@.subrange(cut.0, cut.1),
        forall|i: int| 0 <= i < cut.0 ==> white_space(#[trigger] text@[i]),
        forall|i: int| cut.1 <= i < text@.len() ==> white_space(#[trigger] text@[i]),
        result@.len() > 0 ==> !white_space(result@[0]) && !white_space(result@.last()),
{
    let from = start_of_trimmed(text@);
    let inner = trimmed_start(text@);
    assert(inner == text@.skip(from));
    let to = end_of_trimmed(inner);
    assert forall|i: int| from + to <= i < text@.len() implies white_space(#[trigger] text@[i]) by {
        assert(inner[i - from] == text@[i]);
    }
    assert(result@ =~= text@.subrange(from, from + to));
    if to > 0 {
        assert(result@[0] == inner[0]);
    }
    (from, from + to)
}

proof fn start_of_trimmed(text: Seq<char>) -> (at: int)
    ensures
        0 <= at <= text.len(),
        trimmed_start(text) == text.skip(at),
        forall|i: int| 0 <= i < at ==> white_space(#[trigger] text[i]),
        at < text.len() ==> !white_space(text[at]),
    decreases text.len(),
{
    if text.len() > 0 && white_space(text[0]) {
        let at = start_of_trimmed(text.skip(1));
        assert(text.skip(1).skip(at) =~= text.skip(at + 1));
        assert forall|i: int| 0 <= i < at + 1 implies white_space(#[trigger] text[i]) by {
            if i > 0 {
                assert(text.skip(1)[i - 1] == text[i]);
            }
        }
        at + 1
    } else {
        assert(text.skip(0) =~= text);
        0
    }
}

proof fn end_of_trimmed(text: Seq<char>) -> (at: int)
    ensures
        0 <= at <= text.len(),
        trimmed_end(text) == text.take(at),
        forall|i: int| at <= i < text.len() ==> white_space(#[trigger] text[i]),
        at > 0 ==> !white_space(text[at - 1]),
    decreases text.len(),
{
    if text.len() > 0 && white_space(text.last()) {
        let fewer = text.drop_last();
        let at = end_of_trimmed(fewer);
        assert(fewer.take(at) =~= text.take(at));
        assert forall|i: int| at <= i < text.len() implies white_space(#[trigger] text[i]) by {
            if i < fewer.len() {
                assert(fewer[i] == text[i]);
            }
        }
        at
    } else {
        assert(text.take(text.len() as int) =~= text);
        text.len() as int
    }
}

/// The characters of a text that are no white space.
pub open spec fn dark(text: Seq<char>) -> Seq<char>
    decreases text.len(),
{
    if text.len() == 0 {
        text
    } else if white_space(text.last()) {
        dark(text.drop_last())
    } else {
        dark(text.drop_last()).push(text.last())
    }
}

/// A collapsed text has the characters of the text that are no white space, in their order, and between them
/// single spaces only: none around it, no two in a row, and no other white space.
pub proof fn collapsing_keeps_all_but_white_space(text: &str, result: String, i: int)
    requires
        call_ensures(collapse, (text,), result),
    ensures
        dark(result@) == dark(text@),
        result@.len() > 0 ==> result@[0] != ' ' && result@.last() != ' ',
        0 <= i < result@.len() && white_space(result@[i]) ==> result@[i] == ' ',
        0 <= i < result@.len() - 1 && result@[i] == ' ' ==> result@[i + 1] != ' ',
{
    squeezing_keeps_all_but_white_space(text@);
    let inner = squeezed(text@);
    if inner.len() > 0 && inner.last() == ' ' {
        assert(result@ == inner.drop_last());
        assert(inner.drop_last().push(' ') =~= inner);
        if result@.len() > 0 {
            assert(result@.last() == inner[inner.len() - 2]);
            assert(inner[inner.len() - 2] == ' ' ==> inner[inner.len() - 2 + 1] != ' ');
        }
    }
}

/// Collapsing loses no character but white space, and nothing is left of a text of white space.
pub proof fn collapsed_is_dark(text: Seq<char>)
    ensures
        dark(collapsed(text)) == dark(text),
        dark(text).len() == 0 ==> collapsed(text).len() == 0,
{
    squeezing_keeps_all_but_white_space(text);
    let inner = squeezed(text);
    if inner.len() > 0 && inner.last() == ' ' {
        assert(inner.drop_last().push(' ') =~= inner);
    }
    if dark(text).len() == 0 && inner.len() > 0 {
        nothing_dark_is_white(inner, 0);
    }
}

proof fn nothing_dark_is_white(text: Seq<char>, i: int)
    requires
        dark(text).len() == 0,
        0 <= i < text.len(),
    ensures
        white_space(text[i]),
    decreases text.len(),
{
    if i < text.len() - 1 {
        nothing_dark_is_white(text.drop_last(), i);
    }
}

proof fn squeezing_keeps_all_but_white_space(text: Seq<char>)
    ensures
        dark(squeezed(text)) == dark(text),
        squeezed(text).len() > 0 ==> squeezed(text)[0] != ' ',
        forall|i: int|
            0 <= i < squeezed(text).len() && white_space(#[trigger] squeezed(text)[i])
                ==> squeezed(text)[i] == ' ',
        forall|i: int|
            0 <= i < squeezed(text).len() - 1 && #[trigger] squeezed(text)[i] == ' ' ==> squeezed(
                text,
            )[i + 1] != ' ',
    decreases text.len(),
{
    if text.len() > 0 {
        let before = squeezed(text.drop_last());
        squeezing_keeps_all_but_white_space(text.drop_last());
        let after = squeezed(text);
        if after.len() > before.len() {
            assert(after.drop_last() =~= before);
            assert forall|i: int|
                0 <= i < after.len() - 1 && #[trigger] after[i] == ' ' implies after[i + 1] != ' ' by {
                if i < before.len() - 1 {
                    assert(before[i] == ' ');
                    assert(before[i + 1] != ' ');
                }
            }
            assert forall|i: int| 0 <= i < after.len() && white_space(#[trigger] after[i]) implies
                after[i] == ' ' by {
                if i < before.len() {
                    assert(white_space(before[i]));
                }
            }
        }
    }
}

/// A bounded text is as much of the text's start as fits.
pub proof fn bounded_texts_are_beginnings(text: &str, count: usize, bounded: String)
    requires
        call_ensures(bounded_text, (text, count), bounded),
    ensures
        bounded@.len() <= count,
        bounded@.len() < count ==> bounded@ == text@,
        bounded@.is_prefix_of(text@),
        text@.len() <= count ==> bounded@ == text@,
{
    if text@.len() > count {
        assert(bounded@ =~= text@.take(count as int));
    }
}

/// A padded numeral has the width that was asked for, where the number fits, and stands for the same number.
pub proof fn padded_numerals_stand_for_their_number(value: u64, width: usize, text: String)
    requires
        call_ensures(padded_text, (value, width), text),
    ensures
        text@.len() >= width,
        all_digits(text@),
        number_of(text@) == value,
{
    let digits = decimal(value as nat);
    decimal_round_trip(value as nat);
    if digits.len() < width {
        let zeros = Seq::new((width - digits.len()) as nat, |i: int| '0');
        leading_zeros_count_nothing(zeros, digits);
        assert forall|i: int| 0 <= i < text@.len() implies '0' <= #[trigger] text@[i] <= '9' by {
            if i >= zeros.len() {
                assert(text@[i] == digits[i - zeros.len()]);
            }
        }
    }
}

proof fn leading_zeros_count_nothing(zeros: Seq<char>, digits: Seq<char>)
    requires
        forall|i: int| 0 <= i < zeros.len() ==> #[trigger] zeros[i] == '0',
    ensures
        number_of(zeros + digits) == number_of(digits),
    decreases zeros.len() + digits.len(),
{
    if digits.len() > 0 {
        assert((zeros + digits).drop_last() =~= zeros + digits.drop_last());
        leading_zeros_count_nothing(zeros, digits.drop_last());
    } else if zeros.len() > 0 {
        assert((zeros + digits).drop_last() =~= zeros.drop_last() + digits);
        assert((zeros + digits).last() == zeros.last());
        assert(zeros[zeros.len() - 1] == '0');
        leading_zeros_count_nothing(zeros.drop_last(), digits);
    }
}

/// White space is the tab and what follows it up to the carriage return, the space, and what else has that
/// property, by its number.
pub proof fn white_space_is_known_by_number(ch: char, white: bool)
    requires
        call_ensures(is_white_space, (ch,), white),
    ensures
        white <==> 9 <= ch as int <= 13 || ch as int == 32 || ch as int == 133 || ch as int == 160
            || ch as int == 5760 || 8192 <= ch as int <= 8202 || ch as int == 8232 || ch as int
            == 8233 || ch as int == 8239 || ch as int == 8287 || ch as int == 12288,
{
}

} // verus!
