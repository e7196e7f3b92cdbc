//! A reader's place in the shared stream of pointer-motion events.
//!
//! The stream is append-only: every event gets the next number, starting at
//! zero, and the stream's owner discards the oldest events from time to
//! time. A frame shows a reader two numbers of it: `oldest`, the number of
//! the oldest event still stored, and `sent`, the count of events sent so
//! far, which is the number that the next event will get.

use std::ops::Range;
use vstd::prelude::*;

verus! {

/// Whether event `n` is new to a cursor at `position`: it was sent, is still
/// stored, and the cursor has not read it.
pub open spec fn is_unread(position: nat, oldest: nat, sent: nat, n: nat) -> bool {
    position <= n && oldest <= n && n < sent
}

/// Where a cursor stands after it has read a stream with `sent` events: past
/// all of them, and never further back than it stood.
pub open spec fn after_read(position: nat, sent: nat) -> nat {
    if sent > position {
        sent
    } else {
        position
    }
}

/// The number of the first event that a read hands out: the cursor's own
/// position, or the oldest stored event where the stream has discarded what
/// lay between; never beyond the end of the read.
pub open spec fn first_unread(position: nat, oldest: nat, sent: nat) -> nat {
    let from = if oldest > position {
        oldest
    } else {
        position
    };
    if from > after_read(position, sent) {
        after_read(position, sent)
    } else {
        from
    }
}

/// The event numbers `from`, `from + 1`, ... up to but not including `to`,
/// in the order of arrival.
pub open spec fn event_ids(from: nat, to: nat) -> Seq<nat> {
    Seq::new((to - from) as nat, |i: int| (from + i) as nat)
}

/// One reader's progress through the stream: the number of the first event
/// it has not read yet. Each reader owns its cursor, so readers do not
/// disturb one another.
#[derive(Clone, Copy, Debug, PartialEq, Eq)]
pub struct MotionReadCursor {
    next: usize,
}

impl MotionReadCursor {
    /// The number of the first event that this cursor has not read.
    pub closed spec fn position(self) -> nat {
        self.next as nat
    }

    /// A cursor that has read nothing.
    pub fn new() -> (cursor: Self)
        ensures
            cursor.position() == 0,
    {
        MotionReadCursor { next: 0 }
    }

    /// The number of the first event that this cursor has not read.
    pub fn next_unread(&self) -> (next: usize)
        ensures
            next == self.position(),
    {
        self.next
    }

    /// Reads what is new: returns the numbers of the stored events that this
    /// cursor has not read, as a range in arrival order, and moves past them.
    /// An event is in the range exactly if it was sent, is still stored and
    /// was not read before. The cursor never moves back.
    pub fn read(&mut self, oldest: usize, sent: usize) -> (unread: Range<usize>)
        ensures
            forall|n: nat|
                unread.start <= n < unread.end <==> #[trigger] is_unread(
                    old(self).position(),
                    oldest as nat,
                    sent as nat,
                    n,
                ),
            unread.start == first_unread(old(self).position(), oldest as nat, sent as nat),
            unread.end == after_read(old(self).position(), sent as nat),
            unread.start <= unread.end,
            final(self).position() == after_read(old(self).position(), sent as nat),
            final(self).position() >= old(self).position(),
    {
        let end = if sent > self.next {
            sent
        } else {
            self.next
        };
        let from = if oldest > self.next {
            oldest
        } else {
            self.next
        };
        let start = if from > end {
            end
        } else {
            from
        };
        self.next = end;
        Range { start, end }
    }
}

impl Default for MotionReadCursor {
    fn default() -> (cursor: Self)
        ensures
            cursor.position() == 0,
    {
        MotionReadCursor::new()
    }
}

/// The stream as a reader meets it in one frame.
pub ghost struct StreamFrame {
    /// The number of the oldest event still stored.
    pub oldest: nat,
    /// The count of events sent so far.
    pub sent: nat,
}

/// Everything that a cursor starting at `position` hands out over a run of
/// frames, read after read, joined in the order of the reads.
pub open spec fn reads(position: nat, frames: Seq<StreamFrame>) -> Seq<nat>
    decreases frames.len(),
{
    if frames.len() == 0 {
        Seq::empty()
    } else {
        let frame = frames.first();
        event_ids(
            first_unread(position, frame.oldest, frame.sent),
            after_read(position, frame.sent),
        ) + reads(after_read(position, frame.sent), frames.drop_first())
    }
}

/// Where a cursor starting at `position` stands after a run of frames.
pub open spec fn position_after(position: nat, frames: Seq<StreamFrame>) -> nat
    decreases frames.len(),
{
    if frames.len() == 0 {
        position
    } else {
        position_after(after_read(position, frames.first().sent), frames.drop_first())
    }
}

/// The stream never discarded an event before the cursor had read it: in
/// every frame the oldest stored event is one that the cursor is not past.
pub open spec fn kept_pace(position: nat, frames: Seq<StreamFrame>) -> bool
    decreases frames.len(),
{
    frames.len() == 0 || {
        &&& frames.first().oldest <= position
        &&& kept_pace(after_read(position, frames.first().sent), frames.drop_first())
    }
}

/// The stream only grows: from frame to frame the count of sent events
/// never falls, and it starts no lower than the cursor.
pub open spec fn append_only(position: nat, frames: Seq<StreamFrame>) -> bool {
    &&& forall|i: int| 0 <= i < frames.len() ==> position <= #[trigger] frames[i].sent
    &&& forall|i: int, j: int|
        0 <= i <= j < frames.len() ==> #[trigger] frames[i].sent <= #[trigger] frames[j].sent
}

/// Two runs of event numbers that meet end to start are one run.
proof fn lemma_event_ids_join(from: nat, mid: nat, to: nat)
    requires
        from <= mid <= to,
    ensures
        event_ids(from, mid) + event_ids(mid, to) == event_ids(from, to),
{
}

/// Exactly once: however the events are spread over the frames, a cursor
/// that reads in every frame of an append-only stream, and from which
/// nothing was discarded unread, has in the end been handed every event
/// from where it started up to the last one sent, each once and in the
/// order of arrival. Its reads add up to the one read that would have
/// taken them all at the end.
pub proof fn lemma_every_event_read_once(position: nat, frames: Seq<StreamFrame>)
    requires
        frames.len() > 0,
        append_only(position, frames),
        kept_pace(position, frames),
    ensures
        reads(position, frames) == event_ids(position, frames.last().sent),
        position_after(position, frames) == frames.last().sent,
    decreases frames.len(),
{
    let frame = frames.first();
    let rest = frames.drop_first();
    assert(position <= frame.sent);
    if rest.len() == 0 {
        assert(reads(frame.sent, rest) == Seq::<nat>::empty());
        assert(position_after(frame.sent, rest) == frame.sent);
        assert(frames.last() == frame);
    } else {
        assert(append_only(frame.sent, rest)) by {
            assert forall|i: int| 0 <= i < rest.len() implies frame.sent <= #[trigger] rest[i].sent by {
                assert(rest[i] == frames[i + 1]);
                assert(frames[0].sent <= frames[i + 1].sent);
            }
            assert forall|i: int, j: int| 0 <= i <= j < rest.len() implies #[trigger] rest[i].sent
                <= #[trigger] rest[j].sent by {
                assert(rest[i] == frames[i + 1]);
                assert(rest[j] == frames[j + 1]);
                assert(frames[i + 1].sent <= frames[j + 1].sent);
            }
        }
        lemma_every_event_read_once(frame.sent, rest);
        assert(rest.last() == frames.last());
        assert(frame.sent <= frames.last().sent);
        lemma_event_ids_join(position, frame.sent, frames.last().sent);
    }
}

/// Never twice: whatever the stream does, the numbers that a cursor is
/// handed over a run of frames rise strictly, start no lower than the
/// cursor did, and end below where it stands afterwards.
pub proof fn lemma_reads_rise(position: nat, frames: Seq<StreamFrame>)
    ensures
        position <= position_after(position, frames),
        forall|i: int|
            0 <= i < reads(position, frames).len() ==> position <= #[trigger] reads(
                position,
                frames,
            )[i] < position_after(position, frames),
        forall|i: int, j: int|
            0 <= i < j < reads(position, frames).len() ==> #[trigger] reads(position, frames)[i]
                < #[trigger] reads(position, frames)[j],
    decreases frames.len(),
{
    if frames.len() > 0 {
        let frame = frames.first();
        let next = after_read(position, frame.sent);
        let head = event_ids(first_unread(position, frame.oldest, frame.sent), next);
        let tail = reads(next, frames.drop_first());
        lemma_reads_rise(next, frames.drop_first());
        assert(reads(position, frames) == head + tail);
        assert forall|i: int| 0 <= i < (head + tail).len() implies position <= #[trigger] (head
            + tail)[i] < position_after(position, frames) by {
            if i >= head.len() {
                assert((head + tail)[i] == tail[i - head.len()]);
            }
        }
        assert forall|i: int, j: int| 0 <= i < j < (head + tail).len() implies #[trigger] (head
            + tail)[i] < #[trigger] (head + tail)[j] by {
            if i >= head.len() {
                assert((head + tail)[i] == tail[i - head.len()]);
                assert((head + tail)[j] == tail[j - head.len()]);
            } else if j >= head.len() {
                assert((head + tail)[j] == tail[j - head.len()]);
            }
        }
    }
}

/// A stream with nothing new hands out nothing and leaves the cursor where
/// it stands.
pub proof fn lemma_nothing_new_reads_nothing(position: nat, oldest: nat, sent: nat)
    requires
        sent <= position,
    ensures
        after_read(position, sent) == position,
        event_ids(first_unread(position, oldest, sent), after_read(position, sent)).len() == 0,
{
}

} // verus!
