//! Secrets and their removal from text.

use crate::json::{precedes, text_less, text_less_is_total, text_less_is_transitive};
use crate::report::REDACTED;
use crate::text::{copy_texts, occurs, replace_text, replaced, same_text, stands_at, texts_view};
use vstd::prelude::*;
use vstd::string::*;
use vstd::utf8::*;

verus! {

/// Whether a secret is replaced before another: the longer one in bytes first, then in the order
/// of their characters.
pub open spec fn goes_before(left: Seq<char>, right: Seq<char>) -> bool {
    let left_size = encode_utf8(left).len();
    let right_size = encode_utf8(right).len();
    left_size > right_size || left_size == right_size && text_less(left, right)
}

/// `text` with each secret in turn replaced by the redaction mark.
pub open spec fn redacted(text: Seq<char>, secrets: Seq<Seq<char>>) -> Seq<char>
    decreases secrets.len(),
{
    if secrets.len() == 0 {
        text
    } else {
        redacted(replaced(text, secrets[0], REDACTED@), secrets.skip(1))
    }
}

/// The secrets once `secret` is registered: nothing changes for an empty or known one, else it
/// takes its place in the order of replacement.
pub open spec fn with_secret(secrets: Seq<Seq<char>>, secret: Seq<char>) -> Seq<Seq<char>> {
    if secret.len() == 0 || secrets.contains(secret) {
        secrets
    } else {
        secret_placed(secrets, secret)
    }
}

/// The secrets with more of them, one after another.
pub open spec fn with_secrets(secrets: Seq<Seq<char>>, more: Seq<Seq<char>>) -> Seq<Seq<char>>
    decreases more.len(),
{
    if more.len() == 0 {
        secrets
    } else {
        with_secret(with_secrets(secrets, more.drop_last()), more.last())
    }
}

/// The secrets with `secret` before the first one that it goes before.
pub open spec fn secret_placed(secrets: Seq<Seq<char>>, secret: Seq<char>) -> Seq<Seq<char>>
    decreases secrets.len(),
{
    if secrets.len() == 0 || goes_before(secret, secrets[0]) {
        seq![secret] + secrets
    } else {
        seq![secrets[0]] + secret_placed(secrets.skip(1), secret)
    }
}

/// Whether the secrets stand in the order of replacement, none empty and none twice.
pub open spec fn in_order(secrets: Seq<Seq<char>>) -> bool {
    &&& forall|i: int| 0 <= i < secrets.len() ==> (#[trigger] secrets[i]).len() > 0
    &&& forall|i: int, j: int|
        0 <= i < j < secrets.len() ==> goes_before(#[trigger] secrets[i], #[trigger] secrets[j])
}

/// The secrets of a session, in the order in which they are replaced.
#[derive(Debug, PartialEq, Eq)]
pub struct SecretList {
    secrets: Vec<String>,
}

impl View for SecretList {
    type V = Seq<Seq<char>>;

    closed spec fn view(&self) -> Seq<Seq<char>> {
        texts_view(self.secrets@)
    }
}

impl Clone for SecretList {
    fn clone(&self) -> (copy: Self)
        ensures
            copy@ == self@,
    {
        proof {
            use_type_invariant(self);
        }
        SecretList { secrets: copy_texts(&self.secrets) }
    }
}

fn before(left: &str, right: &str) -> (before: bool)
    ensures
        before == goes_before(left@, right@),
{
    let left_size: usize = left.as_bytes().len();
    let right_size: usize = right.as_bytes().len();
    left_size > right_size || (left_size == right_size && precedes(left, right))
}

proof fn goes_before_is_total(left: Seq<char>, right: Seq<char>)
    ensures
        left == right || goes_before(left, right) || goes_before(right, left),
        goes_before(left, right) ==> !goes_before(right, left) && left != right,
{
    text_less_is_total(left, right);
}

proof fn goes_before_is_transitive(first: Seq<char>, second: Seq<char>, third: Seq<char>)
    requires
        goes_before(first, second),
        goes_before(second, third),
    ensures
        goes_before(first, third),
{
    if text_less(first, second) && text_less(second, third) {
        text_less_is_transitive(first, second, third);
    }
}

proof fn placed_after(secrets: Seq<Seq<char>>, secret: Seq<char>, at: int)
    requires
        0 <= at <= secrets.len(),
        forall|k: int| 0 <= k < at ==> !goes_before(secret, #[trigger] secrets[k]),
        at < secrets.len() ==> goes_before(secret, secrets[at]),
    ensures
        secret_placed(secrets, secret) == secrets.insert(at, secret),
    decreases at,
{
    if at == 0 {
        assert(seq![secret] + secrets == secrets.insert(0, secret));
    } else {
        let rest = secrets.skip(1);
        assert forall|k: int| 0 <= k < at - 1 implies !goes_before(secret, #[trigger] rest[k]) by {
            assert(rest[k] == secrets[k + 1]);
        }
        assert(!goes_before(secret, secrets[0]));
        placed_after(rest, secret, at - 1);
        assert(seq![secrets[0]] + rest.insert(at - 1, secret) == secrets.insert(at, secret));
    }
}

/// Registering a secret keeps the order of replacement.
pub proof fn registering_keeps_order(secrets: Seq<Seq<char>>, secret: Seq<char>)
    requires
        in_order(secrets),
    ensures
        in_order(with_secret(secrets, secret)),
        forall|known: Seq<char>|
            secrets.contains(known) ==> #[trigger] with_secret(secrets, secret).contains(known),
        secret.len() > 0 ==> with_secret(secrets, secret).contains(secret),
{
    if secret.len() > 0 && !secrets.contains(secret) {
        placing_keeps_order(secrets, secret);
    }
}

proof fn placing_keeps_order(secrets: Seq<Seq<char>>, secret: Seq<char>)
    requires
        in_order(secrets),
        secret.len() > 0,
        !secrets.contains(secret),
    ensures
        in_order(secret_placed(secrets, secret)),
        forall|known: Seq<char>| #[trigger]
            secret_placed(secrets, secret).contains(known) <==> (secrets.contains(known) || known
                == secret),
    decreases secrets.len(),
{
    let result = secret_placed(secrets, secret);
    if secrets.len() == 0 || goes_before(secret, secrets[0]) {
        assert forall|j: int| 0 < j < result.len() implies goes_before(secret, #[trigger] result[j]) by {
            assert(result[j] == secrets[j - 1]);
            if j > 1 {
                goes_before_is_transitive(secret, secrets[0], secrets[j - 1]);
            }
        }
        assert forall|i: int, j: int| 0 <= i < j < result.len() implies goes_before(
            #[trigger] result[i],
            #[trigger] result[j],
        ) by {
            if i > 0 {
                assert(result[i] == secrets[i - 1]);
                assert(result[j] == secrets[j - 1]);
            }
        }
        assert forall|i: int| 0 <= i < result.len() implies (#[trigger] result[i]).len() > 0 by {
            if i > 0 {
                assert(result[i] == secrets[i - 1]);
            }
        }
        assert forall|known: Seq<char>| result.contains(known) <==> (secrets.contains(known)
            || known == secret) by {
            if secrets.contains(known) {
                let k = secrets.index_of(known);
                assert(result[k + 1] == known);
            }
            if known == secret {
                assert(result[0] == known);
            }
            if result.contains(known) && known != secret {
                let k = result.index_of(known);
                assert(secrets[k - 1] == known);
            }
        }
    } else {
        let rest = secrets.skip(1);
        assert(!rest.contains(secret)) by {
            if rest.contains(secret) {
                let k = rest.index_of(secret);
                assert(secrets[k + 1] == secret);
            }
        }
        assert(in_order(rest)) by {
            assert forall|i: int| 0 <= i < rest.len() implies (#[trigger] rest[i]).len() > 0 by {
                assert(rest[i] == secrets[i + 1]);
            }
            assert forall|i: int, j: int| 0 <= i < j < rest.len() implies goes_before(
                #[trigger] rest[i],
                #[trigger] rest[j],
            ) by {
                assert(rest[i] == secrets[i + 1]);
                assert(rest[j] == secrets[j + 1]);
            }
        }
        placing_keeps_order(rest, secret);
        let placed = secret_placed(rest, secret);
        assert(secrets[0] != secret) by {
            if secrets[0] == secret {
                assert(secrets.contains(secret));
            }
        }
        goes_before_is_total(secret, secrets[0]);
        assert forall|j: int| 0 < j < result.len() implies goes_before(
            secrets[0],
            #[trigger] result[j],
        ) by {
            assert(result[j] == placed[j - 1]);
            assert(placed.contains(placed[j - 1]));
            if placed[j - 1] != secret {
                let k = rest.index_of(placed[j - 1]);
                assert(secrets[k + 1] == placed[j - 1]);
            }
        }
        assert forall|i: int, j: int| 0 <= i < j < result.len() implies goes_before(
            #[trigger] result[i],
            #[trigger] result[j],
        ) by {
            if i > 0 {
                assert(result[i] == placed[i - 1]);
                assert(result[j] == placed[j - 1]);
            }
        }
        assert forall|i: int| 0 <= i < result.len() implies (#[trigger] result[i]).len() > 0 by {
            if i > 0 {
                assert(result[i] == placed[i - 1]);
            }
        }
        assert forall|known: Seq<char>| result.contains(known) <==> (secrets.contains(known)
            || known == secret) by {
            if secrets.contains(known) {
                let k = secrets.index_of(known);
                if k == 0 {
                    assert(result[0] == known);
                } else {
                    assert(rest[k - 1] == known);
                    assert(placed.contains(known));
                    let m = placed.index_of(known);
                    assert(result[m + 1] == known);
                }
            }
            if known == secret {
                assert(placed.contains(known));
                let m = placed.index_of(known);
                assert(result[m + 1] == known);
            }
            if result.contains(known) {
                let m = result.index_of(known);
                if m > 0 {
                    assert(placed[m - 1] == known);
                    assert(placed.contains(known));
                    if known != secret {
                        let k = rest.index_of(known);
                        assert(secrets[k + 1] == known);
                    }
                } else {
                    assert(secrets[0] == known);
                }
            }
        }
    }
}

impl SecretList {
    /// The invariant of the list.
    #[verifier::type_invariant]
    spec fn well_formed(self) -> bool {
        in_order(texts_view(self.secrets@))
    }

    /// The list of no secret.
    pub fn new() -> (list: SecretList)
        ensures
            list@ == Seq::<Seq<char>>::empty(),
            in_order(list@),
    {
        let secrets: Vec<String> = Vec::new();
        assert(texts_view(secrets@) == Seq::<Seq<char>>::empty());
        SecretList { secrets }
    }

    /// Registers a secret, unless it is empty or known.
    pub fn register_secret(&mut self, secret: String)
        ensures
            final(self)@ == with_secret(old(self)@, secret@),
            in_order(final(self)@),
    {
        proof {
            use_type_invariant(&*self);
        }
        if secret.as_str().is_empty() {
            return ;
        }
        let ghost known = texts_view(self.secrets@);
        let mut at: usize = 0;
        let mut place: Option<usize> = None;
        while at < self.secrets.len()
            invariant
                at <= self.secrets.len(),
                known == texts_view(self.secrets@),
                in_order(known),
                self.secrets@ == old(self).secrets@,
                forall|k: int| 0 <= k < at ==> (#[trigger] known[k]) != secret@,
                match place {
                    Some(place) => {
                        &&& place < at
                        &&& goes_before(secret@, known[place as int])
                        &&& forall|k: int| 0 <= k < place ==> !goes_before(secret@, #[trigger] known[k])
                    },
                    None => forall|k: int| 0 <= k < at ==> !goes_before(secret@, #[trigger] known[k]),
                },
            decreases self.secrets.len() - at,
        {
            assert(known[at as int] == self.secrets@[at as int]@);
            if same_text(self.secrets[at].as_str(), secret.as_str()) {
                assert(known.contains(secret@));
                return ;
            }
            if place.is_none() && before(secret.as_str(), self.secrets[at].as_str()) {
                place = Some(at);
            }
            at += 1;
        }
        let position: usize = match place {
            Some(place) => place,
            None => self.secrets.len(),
        };
        proof {
            assert(!known.contains(secret@));
            placed_after(known, secret@, position as int);
            placing_keeps_order(known, secret@);
        }
        let mut secrets = SecretList::new_secrets(&self.secrets, secret, position);
        std::mem::swap(&mut self.secrets, &mut secrets);
    }

    fn new_secrets(known: &Vec<String>, secret: String, position: usize) -> (secrets: Vec<String>)
        requires
            position <= known.len(),
        ensures
            texts_view(secrets@) == texts_view(known@).insert(position as int, secret@),
    {
        let mut secrets = copy_texts(known);
        proof {
            assert(texts_view(known@).len() == known@.len());
            assert(texts_view(secrets@).len() == secrets@.len());
        }
        let ghost copied = secrets@;
        secrets.insert(position, secret);
        assert(texts_view(secrets@) == texts_view(copied).insert(position as int, secret@));
        secrets
    }

    /// Takes the secrets of another list.
    pub fn extend(&mut self, other: &SecretList)
        ensures
            final(self)@ == with_secrets(old(self)@, other@),
            in_order(final(self)@),
    {
        proof {
            use_type_invariant(&*self);
        }
        let ghost start = self@;
        let ghost more = texts_view(other.secrets@);
        let mut i: usize = 0;
        assert(more.take(0) =~= Seq::<Seq<char>>::empty());
        while i < other.secrets.len()
            invariant
                i <= other.secrets.len(),
                more == texts_view(other.secrets@),
                start == old(self)@,
                in_order(self@),
                self@ == with_secrets(start, more.take(i as int)),
            decreases other.secrets.len() - i,
        {
            proof {
                assert(more.take(i + 1).drop_last() == more.take(i as int));
                assert(more.take(i + 1).last() == other.secrets@[i as int]@);
            }
            self.register_secret(other.secrets[i].clone());
            i += 1;
        }
        assert(more.take(i as int) == more);
    }

    /// Replaces every secret in the text by the redaction mark.
    pub fn redact(&self, text: &str) -> (result: String)
        ensures
            result@ == redacted(text@, self@),
    {
        proof {
            use_type_invariant(self);
        }
        let ghost all = texts_view(self.secrets@);
        let mut result = text.to_owned();
        let mut at: usize = 0;
        assert(all.skip(0) == all);
        while at < self.secrets.len()
            invariant
                at <= self.secrets.len(),
                all == texts_view(self.secrets@),
                in_order(all),
                redacted(result@, all.skip(at as int)) == redacted(text@, all),
            decreases self.secrets.len() - at,
        {
            assert(all[at as int] == self.secrets@[at as int]@);
            assert(all.skip(at as int)[0] == all[at as int]);
            assert(all.skip(at as int).skip(1) == all.skip(at + 1));
            result = replace_text(result.as_str(), self.secrets[at].as_str(), REDACTED);
            at += 1;
        }
        assert(all.skip(at as int).len() == 0);
        result
    }
}

/// Whether a secret and the mark can overlap in some text: shifted against each other by some
/// distance, they agree wherever both are.
pub open spec fn clashes(secret: Seq<char>, mark: Seq<char>) -> bool {
    exists|shift: int| #[trigger] agrees(secret, mark, shift)
}

/// Whether a secret shifted by `shift` against the mark overlaps it and agrees with it.
pub open spec fn agrees(secret: Seq<char>, mark: Seq<char>, shift: int) -> bool {
    &&& -secret.len() < shift < mark.len()
    &&& forall|i: int|
        0 <= i < secret.len() && 0 <= i + shift < mark.len() ==> #[trigger] secret[i] == mark[i
            + shift]
}

proof fn kept_prefix(text: Seq<char>, part: Seq<char>, mark: Seq<char>, secret: Seq<char>, at: int)
    requires
        part.len() > 0,
        0 <= at <= secret.len(),
        !clashes(secret, mark),
        mark.len() > 0,
        stands_at(replaced(text, part, mark), secret.skip(at), 0),
    ensures
        stands_at(text, secret.skip(at), 0),
    decreases text.len(),
{
    let result = replaced(text, part, mark);
    let tail = secret.skip(at);
    if at == secret.len() {
        assert(text.subrange(0, 0) == tail);
    } else if text.len() < part.len() {
    } else if text.take(part.len() as int) == part {
        assert forall|i: int| 0 <= i < secret.len() && 0 <= i - at < mark.len() implies
            #[trigger] secret[i] == mark[i + (-at)] by {
            assert(tail[i - at] == secret[i]);
            assert(result.subrange(0, tail.len() as int)[i - at] == result[i - at]);
        }
        assert(agrees(secret, mark, -at));
    } else {
        let rest = replaced(text.skip(1), part, mark);
        assert(tail[0] == secret[at]);
        assert(result.subrange(0, tail.len() as int)[0] == result[0]);
        assert(result.skip(1) == rest);
        assert(secret.skip(at + 1) == tail.skip(1));
        assert(rest.subrange(0, tail.len() - 1) == tail.skip(1)) by {
            assert forall|i: int| 0 <= i < tail.len() - 1 implies rest[i] == tail[i + 1] by {
                assert(rest[i] == result[i + 1]);
                assert(result.subrange(0, tail.len() as int)[i + 1] == result[i + 1]);
            }
        }
        kept_prefix(text.skip(1), part, mark, secret, at + 1);
        assert(text.skip(1).subrange(0, tail.len() - 1) == tail.skip(1));
        assert(text.subrange(0, tail.len() as int) == tail) by {
            assert forall|i: int| 0 <= i < tail.len() implies text[i] == tail[i] by {
                if i > 0 {
                    assert(text.skip(1).subrange(0, tail.len() - 1)[i - 1] == text[i]);
                    assert(tail.skip(1)[i - 1] == tail[i]);
                }
            }
        }
    }
}

proof fn occurs_in_tail(text: Seq<char>, secret: Seq<char>, skipped: int)
    requires
        0 <= skipped <= text.len(),
        occurs(text.skip(skipped), secret),
    ensures
        occurs(text, secret),
{
    let at = choose|at: int| stands_at(text.skip(skipped), secret, at);
    assert(text.subrange(at + skipped, at + skipped + secret.len()) == text.skip(skipped).subrange(
        at,
        at + secret.len(),
    ));
    assert(stands_at(text, secret, at + skipped));
}

proof fn replacing_adds_no_secret(
    text: Seq<char>,
    part: Seq<char>,
    mark: Seq<char>,
    secret: Seq<char>,
)
    requires
        part.len() > 0,
        secret.len() > 0,
        mark.len() > 0,
        !clashes(secret, mark),
        secret == part || !occurs(text, secret),
    ensures
        !occurs(replaced(text, part, mark), secret),
    decreases text.len(),
{
    let result = replaced(text, part, mark);
    if occurs(result, secret) {
        let at = choose|at: int| stands_at(result, secret, at);
        if text.len() < part.len() {
            assert(occurs(text, secret));
        } else if text.take(part.len() as int) == part {
            let rest = replaced(text.skip(part.len() as int), part, mark);
            if at >= mark.len() {
                assert(rest.subrange(at - mark.len(), at - mark.len() + secret.len())
                    == result.subrange(at, at + secret.len()));
                assert(stands_at(rest, secret, at - mark.len()));
                if occurs(text.skip(part.len() as int), secret) {
                    occurs_in_tail(text, secret, part.len() as int);
                }
                replacing_adds_no_secret(text.skip(part.len() as int), part, mark, secret);
            } else {
                assert forall|i: int| 0 <= i < secret.len() && 0 <= i + at < mark.len() implies
                    #[trigger] secret[i] == mark[i + at] by {
                    assert(result.subrange(at, at + secret.len())[i] == result[at + i]);
                }
                assert(agrees(secret, mark, at));
            }
        } else {
            let rest = replaced(text.skip(1), part, mark);
            assert(result.skip(1) == rest);
            if at == 0 {
                assert(secret.skip(0) == secret);
                kept_prefix(text, part, mark, secret, 0);
                assert(stands_at(text, secret, 0));
                assert(text.take(secret.len() as int) == text.subrange(0, secret.len() as int));
            } else {
                assert(rest.subrange(at - 1, at - 1 + secret.len()) == result.subrange(
                    at,
                    at + secret.len(),
                ));
                assert(stands_at(rest, secret, at - 1));
                if occurs(text.skip(1), secret) {
                    occurs_in_tail(text, secret, 1);
                }
                replacing_adds_no_secret(text.skip(1), part, mark, secret);
            }
        }
    }
}

proof fn redacting_adds_no_secret(text: Seq<char>, secrets: Seq<Seq<char>>, secret: Seq<char>)
    requires
        forall|i: int| 0 <= i < secrets.len() ==> (#[trigger] secrets[i]).len() > 0,
        secret.len() > 0,
        !clashes(secret, REDACTED@),
        !occurs(text, secret),
    ensures
        !occurs(redacted(text, secrets), secret),
    decreases secrets.len(),
{
    reveal_strlit("[REDACTED]");
    if secrets.len() > 0 {
        replacing_adds_no_secret(text, secrets[0], REDACTED@, secret);
        assert forall|i: int| 0 <= i < secrets.skip(1).len() implies (#[trigger] secrets.skip(
            1,
        )[i]).len() > 0 by {
            assert(secrets.skip(1)[i] == secrets[i + 1]);
        }
        redacting_adds_no_secret(
            replaced(text, secrets[0], REDACTED@),
            secrets.skip(1),
            secret,
        );
    }
}

/// Redacted text holds none of the secrets, whatever the text was. This leaves out secrets that
/// can overlap the mark that replaces them.
pub proof fn redacted_text_holds_no_secret(
    text: Seq<char>,
    secrets: Seq<Seq<char>>,
    secret: Seq<char>,
)
    requires
        forall|i: int| 0 <= i < secrets.len() ==> (#[trigger] secrets[i]).len() > 0,
        secrets.contains(secret),
        !clashes(secret, REDACTED@),
    ensures
        !occurs(redacted(text, secrets), secret),
    decreases secrets.len(),
{
    reveal_strlit("[REDACTED]");
    let rest = secrets.skip(1);
    let replaced_first = replaced(text, secrets[0], REDACTED@);
    assert forall|i: int| 0 <= i < rest.len() implies (#[trigger] rest[i]).len() > 0 by {
        assert(rest[i] == secrets[i + 1]);
    }
    if secrets[0] == secret {
        replacing_adds_no_secret(text, secret, REDACTED@, secret);
        redacting_adds_no_secret(replaced_first, rest, secret);
    } else {
        let k = secrets.index_of(secret);
        assert(rest[k - 1] == secret);
        redacted_text_holds_no_secret(replaced_first, rest, secret);
    }
}

proof fn replacing_marks(text: Seq<char>, part: Seq<char>)
    ensures
        replaced(text, part, REDACTED@) == text || replaced(text, part, REDACTED@).contains('['),
        text.contains('[') ==> replaced(text, part, REDACTED@).contains('['),
    decreases text.len(),
{
    reveal_strlit("[REDACTED]");
    let result = replaced(text, part, REDACTED@);
    if part.len() == 0 || text.len() < part.len() {
    } else if text.take(part.len() as int) == part {
        assert(result[0] == '[');
    } else {
        let rest = replaced(text.skip(1), part, REDACTED@);
        replacing_marks(text.skip(1), part);
        assert(result.skip(1) == rest);
        if rest.contains('[') {
            let at = rest.index_of('[');
            assert(result[at + 1] == '[');
        } else {
            assert(seq![text[0]] + text.skip(1) == text);
        }
        if text.contains('[') {
            let at = text.index_of('[');
            if at == 0 {
                assert(result[0] == '[');
            } else {
                assert(text.skip(1)[at - 1] == '[');
            }
        }
    }
}

/// Redacted text is the text itself, or shows a mark.
pub proof fn redacted_is_unchanged_or_marked(text: Seq<char>, secrets: Seq<Seq<char>>)
    ensures
        redacted(text, secrets) == text || redacted(text, secrets).contains('['),
        text.contains('[') ==> redacted(text, secrets).contains('['),
    decreases secrets.len(),
{
    if secrets.len() > 0 {
        replacing_marks(text, secrets[0]);
        redacted_is_unchanged_or_marked(
            replaced(text, secrets[0], REDACTED@),
            secrets.skip(1),
        );
    }
}

/// A text that holds no secret stays as it is.
pub proof fn texts_without_secrets_stay(text: Seq<char>, secrets: Seq<Seq<char>>)
    requires
        forall|i: int| 0 <= i < secrets.len() ==> !occurs(text, #[trigger] secrets[i]),
    ensures
        redacted(text, secrets) == text,
    decreases secrets.len(),
{
    if secrets.len() > 0 {
        assert(!occurs(text, secrets[0]));
        if secrets[0].len() > 0 {
            crate::text::occurrences_are_replaced_from_the_left(text, secrets[0], REDACTED@, 0);
        }
        let rest = secrets.skip(1);
        assert forall|i: int| 0 <= i < rest.len() implies !occurs(text, #[trigger] rest[i]) by {
            assert(rest[i] == secrets[i + 1]);
        }
        texts_without_secrets_stay(text, rest);
    }
}

/// A text that is a secret is shown as the mark alone, where no other secret is part of it or of the mark.
pub proof fn a_secret_is_shown_as_the_mark(secret: Seq<char>)
    requires
        secret.len() > 0,
    ensures
        redacted(secret, seq![secret]) == "[REDACTED]"@,
{
    let text = secret;
    assert(text.take(secret.len() as int) =~= secret);
    assert(text.skip(secret.len() as int) =~= Seq::<char>::empty());
    assert(replaced(Seq::<char>::empty(), secret, REDACTED@) =~= Seq::<char>::empty());
    assert(REDACTED@ + Seq::<char>::empty() =~= REDACTED@);
    assert(seq![secret].skip(1) =~= Seq::<Seq<char>>::empty());
    assert(replaced(text, secret, REDACTED@) == REDACTED@);
    assert(redacted(REDACTED@, Seq::<Seq<char>>::empty()) == REDACTED@);
}

/// The longer of two secrets is replaced first, so no secret is left in parts by a shorter one in it.
pub proof fn longer_secrets_are_replaced_first(
    secrets: Seq<Seq<char>>,
    secret: Seq<char>,
    i: int,
    j: int,
)
    requires
        in_order(secrets),
        0 <= i < j < with_secret(secrets, secret).len(),
    ensures
        encode_utf8(with_secret(secrets, secret)[i]).len() >= encode_utf8(
            with_secret(secrets, secret)[j],
        ).len(),
        with_secret(secrets, secret)[i] != with_secret(secrets, secret)[j],
{
    registering_keeps_order(secrets, secret);
    let known = with_secret(secrets, secret);
    assert(goes_before(known[i], known[j]));
    goes_before_is_total(known[i], known[j]);
}

/// Only what is registered becomes a secret.
pub proof fn only_registered_texts_are_secret(
    secrets: Seq<Seq<char>>,
    secret: Seq<char>,
    other: Seq<char>,
)
    requires
        in_order(secrets),
    ensures
        with_secret(secrets, secret).contains(other) <==> secrets.contains(other) || (other == secret
            && secret.len() > 0),
{
    registering_keeps_order(secrets, secret);
    if secret.len() > 0 && !secrets.contains(secret) {
        placing_keeps_order(secrets, secret);
    }
    if secret.len() == 0 && secrets.contains(other) && other == secret {
        let k = secrets.index_of(other);
        assert(secrets[k].len() > 0);
    }
}

} // verus!
