//! Reading the commands of a client: one to a line, of bounded length, whatever pieces they come in.

use crate::session::MAX_ENVELOPE_BYTES;
use vstd::prelude::*;

verus! {

/// A line of the client, without its newline.
#[derive(Debug, Clone, PartialEq, Eq)]
pub enum Envelope {
    Line(Vec<u8>),
    TooLarge,
    Eof,
}

/// A line of the client, by its bytes.
pub ghost enum EnvelopeView {
    Line(Seq<u8>),
    TooLarge,
    Eof,
}

impl View for Envelope {
    type V = EnvelopeView;

    open spec fn view(&self) -> EnvelopeView {
        match *self {
            Envelope::Line(bytes) => EnvelopeView::Line(bytes@),
            Envelope::TooLarge => EnvelopeView::TooLarge,
            Envelope::Eof => EnvelopeView::Eof,
        }
    }
}

/// What a line is taken as.
pub open spec fn envelope_of(content: Seq<u8>) -> EnvelopeView {
    if content.len() <= MAX_ENVELOPE_BYTES {
        EnvelopeView::Line(content)
    } else {
        EnvelopeView::TooLarge
    }
}

/// Puts lines together from the pieces they come in.
#[derive(Debug)]
pub struct EnvelopeReader {
    line: Vec<u8>,
    too_large: bool,
}

/// The place of the first newline.
pub open spec fn first_newline(bytes: Seq<u8>) -> Option<int>
    decreases bytes.len(),
{
    if bytes.len() == 0 {
        None
    } else if bytes[0] == 10 {
        Some(0)
    } else {
        match first_newline(bytes.skip(1)) {
            Some(at) => Some(at + 1),
            None => None,
        }
    }
}

proof fn newline_found(bytes: Seq<u8>, at: int)
    requires
        0 <= at <= bytes.len(),
        forall|i: int| 0 <= i < at ==> #[trigger] bytes[i] != 10,
    ensures
        at < bytes.len() && bytes[at] == 10 ==> first_newline(bytes) == Some(at),
        at == bytes.len() ==> first_newline(bytes) is None,
    decreases bytes.len(),
{
    if at > 0 {
        assert forall|i: int| 0 <= i < at - 1 implies #[trigger] bytes.skip(1)[i] != 10 by {
            assert(bytes.skip(1)[i] == bytes[i + 1]);
        }
        assert(bytes[0] != 10);
        newline_found(bytes.skip(1), at - 1);
    }
}

impl EnvelopeReader {
    /// These bytes of a line have come so far. Of a line that is too long nothing is kept.
    pub closed spec fn has_read(&self, content: Seq<u8>) -> bool {
        if content.len() <= MAX_ENVELOPE_BYTES {
            !self.too_large && self.line@ == content
        } else {
            self.too_large
        }
    }

    /// A reader at the start of a line.
    pub fn new() -> (reader: EnvelopeReader)
        ensures
            reader.has_read(Seq::empty()),
    {
        let reader = EnvelopeReader { line: Vec::new(), too_large: false };
        assert(reader.line@ =~= Seq::<u8>::empty());
        reader
    }

    fn take_envelope(&mut self) -> (envelope: Envelope)
        ensures
            final(self).has_read(Seq::empty()),
            forall|content: Seq<u8>| #[trigger]
                old(self).has_read(content) ==> envelope@ == envelope_of(content),
    {
        let mut line: Vec<u8> = Vec::new();
        std::mem::swap(&mut self.line, &mut line);
        let too_large = self.too_large;
        self.too_large = false;
        assert(self.line@ =~= Seq::<u8>::empty());
        if too_large {
            Envelope::TooLarge
        } else {
            Envelope::Line(line)
        }
    }

    /// Takes a piece, up to its first newline. Tells how much of it was taken, and the line that it
    /// completes.
    pub fn feed(&mut self, available: &[u8]) -> (fed: (usize, Option<Envelope>))
        ensures
            match first_newline(available@) {
                Some(at) => {
                    &&& fed.0 == at + 1
                    &&& fed.1 is Some
                    &&& final(self).has_read(Seq::empty())
                    &&& forall|content: Seq<u8>| #[trigger]
                        old(self).has_read(content) ==> fed.1->0@ == envelope_of(
                            content + available@.take(at),
                        )
                },
                None => {
                    &&& fed.0 == available@.len()
                    &&& fed.1 is None
                    &&& forall|content: Seq<u8>| #[trigger]
                        old(self).has_read(content) ==> final(self).has_read(content + available@)
                },
            },
    {
        let ghost before = *self;
        let mut end: usize = 0;
        while end < available.len() && available[end] != 10
            invariant
                end <= available@.len(),
                forall|i: int| 0 <= i < end ==> #[trigger] available@[i] != 10,
            decreases available@.len() - end,
        {
            end += 1;
        }
        proof {
            newline_found(available@, end as int);
        }
        if !self.too_large {
            if self.line.len() > MAX_ENVELOPE_BYTES || end > MAX_ENVELOPE_BYTES - self.line.len() {
                self.too_large = true;
            } else {
                let mut i: usize = 0;
                while i < end
                    invariant
                        i <= end <= available@.len(),
                        self.line@ == before.line@ + available@.take(i as int),
                        self.too_large == before.too_large,
                    decreases end - i,
                {
                    self.line.push(available[i]);
                    assert(self.line@ =~= before.line@ + available@.take(i + 1));
                    i += 1;
                }
            }
        }
        proof {
            assert forall|content: Seq<u8>| #[trigger] before.has_read(content) implies
                self.has_read(content + available@.take(end as int)) by {}
            assert(end == available@.len() ==> available@.take(end as int) =~= available@);
        }
        if end < available.len() {
            let ghost between = *self;
            let envelope = self.take_envelope();
            proof {
                assert forall|content: Seq<u8>| #[trigger] before.has_read(content) implies
                    envelope@ == envelope_of(content + available@.take(end as int)) by {
                    assert(between.has_read(content + available@.take(end as int)));
                }
            }
            (end + 1, Some(envelope))
        } else {
            (end, None)
        }
    }

    /// Takes the end of the input: what came of a last line is a line too.
    pub fn end(&mut self) -> (envelope: Envelope)
        ensures
            forall|content: Seq<u8>| #[trigger]
                old(self).has_read(content) ==> envelope@ == if content.len() == 0 {
                    EnvelopeView::Eof
                } else {
                    envelope_of(content)
                },
            final(self).has_read(Seq::empty()),
    {
        if self.line.len() == 0 && !self.too_large {
            assert(self.line@ =~= Seq::<u8>::empty());
            Envelope::Eof
        } else {
            self.take_envelope()
        }
    }
}

/// The lines that bytes complete, after others of the same line, and what is left of the last line.
pub open spec fn lines_of(content: Seq<u8>, bytes: Seq<u8>) -> (Seq<EnvelopeView>, Seq<u8>)
    decreases bytes.len(),
{
    if bytes.len() == 0 {
        (Seq::empty(), content)
    } else if bytes[0] == 10 {
        let (lines, rest) = lines_of(Seq::empty(), bytes.skip(1));
        (seq![envelope_of(content)] + lines, rest)
    } else {
        lines_of(content.push(bytes[0]), bytes.skip(1))
    }
}

/// In whatever pieces bytes come, they make the same lines.
pub proof fn pieces_make_the_same_lines(content: Seq<u8>, first: Seq<u8>, second: Seq<u8>)
    ensures
        ({
            let (lines, between) = lines_of(content, first);
            let (more, rest) = lines_of(between, second);
            lines_of(content, first + second) == (lines + more, rest)
        }),
    decreases first.len(),
{
    if first.len() == 0 {
        assert(first + second =~= second);
        let (more, _) = lines_of(content, second);
        assert(Seq::<EnvelopeView>::empty() + more =~= more);
    } else {
        assert((first + second).skip(1) =~= first.skip(1) + second);
        if first[0] == 10 {
            pieces_make_the_same_lines(Seq::empty(), first.skip(1), second);
            let (lines, between) = lines_of(Seq::empty(), first.skip(1));
            let (more, _) = lines_of(between, second);
            assert(seq![envelope_of(content)] + (lines + more) =~= (seq![envelope_of(content)]
                + lines) + more);
        } else {
            pieces_make_the_same_lines(content.push(first[0]), first.skip(1), second);
        }
    }
}

/// A piece up to its first newline makes one line of what came before it, and the reading goes on at
/// the start of the next; so no line, too large or not, touches those after it.
pub proof fn every_line_stands_alone(content: Seq<u8>, bytes: Seq<u8>)
    requires
        first_newline(bytes) is Some,
    ensures
        ({
            let at = first_newline(bytes)->0;
            let (lines, rest) = lines_of(Seq::empty(), bytes.skip(at + 1));
            &&& 0 <= at < bytes.len()
            &&& lines_of(content, bytes) == (
                seq![envelope_of(content + bytes.take(at))] + lines,
                rest,
            )
        }),
    decreases bytes.len(),
{
    let at = first_newline(bytes)->0;
    if bytes[0] == 10 {
        assert(bytes.take(0) =~= Seq::<u8>::empty());
        assert(content + bytes.take(0) =~= content);
    } else {
        every_line_stands_alone(content.push(bytes[0]), bytes.skip(1));
        assert(content.push(bytes[0]) + bytes.skip(1).take(at - 1) =~= content + bytes.take(at));
        assert(bytes.skip(1).skip(at) =~= bytes.skip(at + 1));
    }
}

/// A line is read whole exactly if it has at most a mebibyte without its end.
pub proof fn lines_are_read_up_to_a_mebibyte(content: Seq<u8>)
    ensures
        content.len() <= 1_048_576 ==> envelope_of(content) == EnvelopeView::Line(content),
        content.len() > 1_048_576 ==> envelope_of(content) is TooLarge,
{
}

/// The first line feed is told by its place: none stands before it.
pub proof fn the_first_line_feed_is_found(bytes: Seq<u8>, i: int)
    ensures
        match first_newline(bytes) {
            Some(at) => 0 <= at < bytes.len() && bytes[at] == 0x0a && (0 <= i < at ==> bytes[i]
                != 0x0a),
            None => 0 <= i < bytes.len() ==> bytes[i] != 0x0a,
        },
    decreases bytes.len(),
{
    if bytes.len() > 0 && bytes[0] != 10 {
        the_first_line_feed_is_found(bytes.skip(1), i - 1);
        the_first_line_feed_is_found(bytes.skip(1), 0);
        if 0 < i < bytes.len() {
            assert(bytes.skip(1)[i - 1] == bytes[i]);
        }
        if let Some(at) = first_newline(bytes.skip(1)) {
            assert(bytes.skip(1)[at] == bytes[at + 1]);
        }
    }
}

/// A line is handed out once its end was read, with all that was read of it before and nothing of what follows;
/// the end of input hands out what is left, if anything is.
pub proof fn lines_are_handed_out_at_their_end(
    reader: &mut EnvelopeReader,
    available: &[u8],
    fed: (usize, Option<Envelope>),
    content: Seq<u8>,
    at: int,
    ending: &mut EnvelopeReader,
    last: Envelope,
)
    requires
        old(reader).has_read(content),
        content.len() + available@.len() <= 1_048_576,
        call_ensures(EnvelopeReader::feed, (reader, available), fed),
        0 <= at <= available@.len(),
        forall|i: int| 0 <= i < at ==> #[trigger] available@[i] != 0x0a,
        old(ending).has_read(content),
        call_ensures(EnvelopeReader::end, (ending,), last),
    ensures
        at < available@.len() && available@[at] == 0x0a ==> fed.0 == at + 1 && fed.1 is Some
            && fed.1->0@ == EnvelopeView::Line(content + available@.take(at))
            && final(reader).has_read(Seq::empty()),
        at == available@.len() ==> fed.0 == at && fed.1 is None,
        content.len() == 0 ==> last@ is Eof,
        content.len() > 0 ==> last@ == EnvelopeView::Line(content),
{
    newline_found(available@, at);
}

} // verus!
