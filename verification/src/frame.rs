//! Message framing: when has a client finished sending its request?
//!
//! The protocol has no length prefix. The framer accumulates what each read
//! delivers and stops when the accumulated bytes, read as text and trimmed,
//! end in `}`, or when the peer closes. This is a heuristic: it looks only at
//! the end of what has arrived so far.

use crate::text::{
    ends_with_after_trim, last_visible, lemma_last_visible_concat, lemma_trimmed_last,
    trims_to_end_with,
};
use crate::unicode::utf8_text;
use vstd::prelude::*;
use vstd::utf8::{decode_utf8, valid_utf8};

verus! {

/// How many bytes one read asks for.
pub const READ_CHUNK: usize = 1024;

/// Whether `bytes` look like a finished message: they are well-formed UTF-8
/// and their text, trimmed of white space, ends in `}`.
pub open spec fn frame_closed(bytes: Seq<u8>) -> bool {
    valid_utf8(bytes) && trims_to_end_with(decode_utf8(bytes), '}')
}

/// Decides whether `bytes` look like a finished message.
pub fn looks_complete(bytes: &[u8]) -> (r: bool)
    ensures
        r == frame_closed(bytes@),
{
    match utf8_text(bytes) {
        Some(text) => ends_with_after_trim(text, '}'),
        None => false,
    }
}

/// What the framer makes of one read.
#[derive(Debug, Clone, Copy, PartialEq, Eq, Structural)]
pub enum FrameStatus {
    /// More has to be read.
    Incomplete,
    /// The message is taken as finished.
    Complete,
}

/// The status after a read that delivered `chunk` on top of `held`: an empty
/// read means that the peer closed and ends the message whatever its shape.
pub open spec fn frame_status(held: Seq<u8>, chunk: Seq<u8>) -> FrameStatus {
    if chunk.len() == 0 || frame_closed(held + chunk) {
        FrameStatus::Complete
    } else {
        FrameStatus::Incomplete
    }
}

/// Accumulates the bytes of one message.
#[derive(Debug)]
pub struct Framer {
    held: Vec<u8>,
}

impl View for Framer {
    type V = Seq<u8>;

    closed spec fn view(&self) -> Seq<u8> {
        self.held@
    }
}

impl Framer {
    /// A framer that holds nothing yet.
    pub fn new() -> (r: Framer)
        ensures
            r@ == Seq::<u8>::empty(),
    {
        Framer { held: Vec::new() }
    }

    /// Takes in what one read delivered and says whether to read on.
    pub fn accept(&mut self, chunk: &[u8]) -> (status: FrameStatus)
        ensures
            final(self)@ == old(self)@ + chunk@,
            status == frame_status(old(self)@, chunk@),
    {
        self.held.extend_from_slice(chunk);
        assert(self.held@ =~= old(self).held@ + chunk@);
        if chunk.len() == 0 || looks_complete(self.held.as_slice()) {
            FrameStatus::Complete
        } else {
            FrameStatus::Incomplete
        }
    }

    /// The bytes accumulated so far.
    pub fn bytes(&self) -> (r: &[u8])
        ensures
            r@ == self@,
    {
        self.held.as_slice()
    }
}

/// The chunks of a message, put end to end.
pub open spec fn joined(chunks: Seq<Seq<u8>>) -> Seq<u8>
    decreases chunks.len(),
{
    if chunks.len() == 0 {
        Seq::empty()
    } else {
        chunks[0] + joined(chunks.drop_first())
    }
}

/// What the framer holds when it stops, if it starts out holding `held` and
/// the reads deliver `chunks` in turn.
pub open spec fn framed(held: Seq<u8>, chunks: Seq<Seq<u8>>) -> Seq<u8>
    decreases chunks.len(),
{
    if chunks.len() == 0 {
        held
    } else if frame_status(held, chunks[0]) == FrameStatus::Complete {
        held + chunks[0]
    } else {
        framed(held + chunks[0], chunks.drop_first())
    }
}

/// Whether the message looks finished depends on its last visible character
/// alone.
pub proof fn lemma_frame_closed_by_last_visible(bytes: Seq<u8>)
    ensures
        frame_closed(bytes) <==> valid_utf8(bytes) && last_visible(decode_utf8(bytes)) == Some(
            '}',
        ),
{
    lemma_trimmed_last(decode_utf8(bytes));
}

/// A `}` inside a message does not end it: where visible text other than `}`
/// follows, in the same read, the framer reads on.
pub proof fn lemma_interior_brace_reads_on(head: Seq<char>, tail: Seq<char>)
    requires
        last_visible(tail) matches Some(c) && c != '}',
    ensures
        !trims_to_end_with(head + tail, '}'),
{
    lemma_last_visible_concat(head, tail);
    lemma_trimmed_last(head + tail);
}

/// Framing reads a message to its end, provided that no read but the last
/// leaves the framer holding bytes that look finished, and that no read but
/// the last comes back empty.
pub proof fn lemma_framing_reads_to_end(held: Seq<u8>, chunks: Seq<Seq<u8>>)
    requires
        forall|k: int|
            0 < k < chunks.len() ==> frame_status(
                held + joined(chunks.take(k - 1)),
                #[trigger] chunks[k - 1],
            ) == FrameStatus::Incomplete,
    ensures
        framed(held, chunks) == held + joined(chunks),
    decreases chunks.len(),
{
    if chunks.len() == 0 {
        assert(held + joined(chunks) =~= held);
    } else {
        let rest = chunks.drop_first();
        assert(joined(chunks) == chunks[0] + joined(rest));
        assert(held + joined(chunks) =~= (held + chunks[0]) + joined(rest));
        if frame_status(held, chunks[0]) == FrameStatus::Complete {
            if chunks.len() > 1 {
                assert(chunks.take(0) =~= Seq::<Seq<u8>>::empty());
                assert(held + joined(chunks.take(0)) =~= held);
                assert(frame_status(held + joined(chunks.take(0)), chunks[1 - 1])
                    == FrameStatus::Incomplete);
            } else {
                assert(rest =~= Seq::<Seq<u8>>::empty());
                assert(joined(rest) =~= Seq::<u8>::empty());
                assert(held + joined(chunks) =~= held + chunks[0]);
            }
        } else {
            assert forall|k: int| 0 < k < rest.len() implies frame_status(
                (held + chunks[0]) + joined(rest.take(k - 1)),
                #[trigger] rest[k - 1],
            ) == FrameStatus::Incomplete by {
                assert(chunks.take(k).drop_first() =~= rest.take(k - 1));
                assert(joined(chunks.take(k)) == chunks[0] + joined(rest.take(k - 1)));
                assert(held + joined(chunks.take(k)) =~= (held + chunks[0]) + joined(
                    rest.take(k - 1),
                ));
                assert(chunks[(k + 1) - 1] == rest[k - 1]);
            }
            lemma_framing_reads_to_end(held + chunks[0], rest);
        }
    }
}

/// A message that arrives in one read is framed whole.
pub proof fn lemma_single_read_is_framed_whole(message: Seq<u8>)
    ensures
        framed(Seq::empty(), seq![message]) == message,
{
    lemma_framing_reads_to_end(Seq::empty(), seq![message]);
    assert(seq![message].drop_first() =~= Seq::<Seq<u8>>::empty());
    assert(joined(seq![message]) =~= message + joined(Seq::<Seq<u8>>::empty()));
    assert(Seq::<u8>::empty() + joined(seq![message]) =~= message);
}

} // verus!
