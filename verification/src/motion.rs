//! The read position in the stream of mouse-motion events.
//!
//! The host numbers the events as they arrive, from 0, and each frame hands
//! over a window of the stream: the number of the oldest event it still
//! holds, and how many events it holds from there on. The reader remembers
//! the number of the next event to take, so that an event is taken once
//! however the windows of two frames overlap.

use vstd::prelude::*;

verus! {

/// The read position: the number of the next event to take.
#[derive(Clone, Copy, Debug, PartialEq, Eq, Structural)]
pub struct MotionReader {
    pub next: u64,
}

/// The index in the window of the first event that was not taken yet; the
/// window's length where all of it was.
pub open spec fn fresh_start(next: u64, oldest: u64, len: usize) -> int {
    if next <= oldest {
        0
    } else if next - oldest >= len {
        len as int
    } else {
        next - oldest
    }
}

/// The read position after the window was taken: past its last event, and
/// never back.
pub open spec fn next_after(next: u64, oldest: u64, len: usize) -> int {
    if next >= oldest + len {
        next as int
    } else {
        oldest + len
    }
}

/// The numbers of the events that a reader at `next` takes from a window.
pub open spec fn taken(next: u64, oldest: u64, len: usize) -> Set<int> {
    Set::new(|s: int| next <= s && oldest <= s < oldest + len)
}

impl MotionReader {
    /// A reader at the start of the stream.
    pub fn new() -> (reader: MotionReader)
        ensures
            reader.next == 0,
    {
        MotionReader { next: 0 }
    }

    /// Takes what is fresh in a window: the events from the returned index to
    /// the window's end, in their order.
    pub fn take(&mut self, oldest: u64, len: usize) -> (start: usize)
        requires
            oldest + len <= u64::MAX,
        ensures
            start == fresh_start(old(self).next, oldest, len),
            final(self).next == next_after(old(self).next, oldest, len),
    {
        let end: u64 = oldest + len as u64;
        if self.next <= oldest {
            self.next = end;
            0
        } else if self.next >= end {
            len
        } else {
            let start: usize = (self.next - oldest) as usize;
            self.next = end;
            start
        }
    }
}

/// The event at index `i` of a window is taken exactly if `i` is at or past
/// the fresh start, and the events taken are those of the window that the
/// reader has not passed.
pub proof fn fresh_indices_are_the_taken_events(next: u64, oldest: u64, len: usize, i: int)
    requires
        0 <= i < len,
    ensures
        taken(next, oldest, len).contains(oldest + i) <==> fresh_start(next, oldest, len) <= i,
        0 <= fresh_start(next, oldest, len) <= len,
{
}

/// No event is taken twice: what a later window yields lies past everything
/// that any earlier window yielded, and the same window yields nothing again.
pub proof fn no_event_is_taken_twice(
    next: u64,
    oldest1: u64,
    len1: usize,
    oldest2: u64,
    len2: usize,
)
    requires
        oldest1 + len1 <= u64::MAX,
    ensures
        taken(next, oldest1, len1).disjoint(
            taken(next_after(next, oldest1, len1) as u64, oldest2, len2),
        ),
        fresh_start(next_after(next, oldest1, len1) as u64, oldest1, len1) == len1,
        next_after(next, oldest1, len1) >= next,
{
}

/// No event is dropped: as long as the host still holds the event at the
/// read position, two windows in a row yield every event from the read
/// position to the end of the second, each once.
pub proof fn no_event_is_dropped(next: u64, oldest1: u64, len1: usize, oldest2: u64, len2: usize)
    requires
        oldest1 + len1 <= u64::MAX,
        oldest1 <= next,
        oldest2 <= next_after(next, oldest1, len1) <= oldest2 + len2,
    ensures
        taken(next, oldest1, len1).union(
            taken(next_after(next, oldest1, len1) as u64, oldest2, len2),
        ) =~= Set::new(|s: int| next <= s < oldest2 + len2),
{
}

} // verus!
