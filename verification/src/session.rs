//! The playback session counter and the results that carry its tag.
//!
//! Every user-initiated transport change moves the counter on by one. A
//! background result is tagged with the counter at dispatch and is dropped
//! on arrival unless the counter still has that value.

use vstd::prelude::*;

verus! {

/// A user-initiated transport change. Each of them starts a new session.
#[derive(Clone, Copy, Debug, PartialEq, Eq, Structural)]
pub enum TransportChange {
    Play,
    Stop,
    Seek,
}

/// The number of session values; the counter wraps to zero after the last.
pub open spec fn session_modulus() -> int {
    0x1_0000_0000_0000_0000
}

/// The session that follows `session`.
pub open spec fn next_session(session: u64) -> u64 {
    if session == u64::MAX {
        0
    } else {
        (session + 1) as u64
    }
}

/// The session reached from `start` by the transport changes in `changes`,
/// applied from first to last.
pub open spec fn session_after(start: u64, changes: Seq<TransportChange>) -> u64
    decreases changes.len(),
{
    if changes.len() == 0 {
        start
    } else {
        next_session(session_after(start, changes.drop_last()))
    }
}

/// What arrives of a result tagged `tag` while the live session is `live`.
pub open spec fn delivered<T>(live: u64, tag: u64, value: T) -> Option<T> {
    if tag == live {
        Some(value)
    } else {
        None
    }
}

/// The monotonic counter of playback sessions.
#[derive(Clone, Copy, Debug)]
pub struct PlaybackSession {
    counter: u64,
}

/// A background result with the session that it was issued under.
#[derive(Debug)]
pub struct SessionTagged<T> {
    pub session: u64,
    pub value: T,
}

impl PlaybackSession {
    /// The counter's value.
    pub closed spec fn value(&self) -> u64 {
        self.counter
    }

    /// The first session.
    pub fn new() -> (s: Self)
        ensures
            s.value() == 0,
    {
        PlaybackSession { counter: 0 }
    }

    /// A counter that stands at `value`.
    pub fn from_value(value: u64) -> (s: Self)
        ensures
            s.value() == value,
    {
        PlaybackSession { counter: value }
    }

    pub fn current(&self) -> (v: u64)
        ensures
            v == self.value(),
    {
        self.counter
    }

    /// Starts a new session for `change` and returns it.
    pub fn advance(&mut self, change: TransportChange) -> (v: u64)
        ensures
            final(self).value() == next_session(old(self).value()),
            final(self).value() == session_after(old(self).value(), seq![change]),
            v == final(self).value(),
    {
        proof {
            assert(seq![change].drop_last() =~= Seq::<TransportChange>::empty());
            assert(session_after(self.counter, seq![change].drop_last()) == self.counter);
        }
        self.counter = self.counter.wrapping_add(1);
        self.counter
    }

    /// True if a result tagged `tag` still belongs to the live session.
    pub fn is_current(&self, tag: u64) -> (b: bool)
        ensures
            b == (tag == self.value()),
    {
        tag == self.counter
    }

    /// Tags `value` with the live session, at dispatch.
    pub fn tag<T>(&self, value: T) -> (t: SessionTagged<T>)
        ensures
            t.session == self.value(),
            t.value == value,
    {
        SessionTagged { session: self.counter, value }
    }

    /// Hands out the value of a result that arrives, or drops it if the
    /// session has moved on since it was issued.
    pub fn accept<T>(&self, result: SessionTagged<T>) -> (out: Option<T>)
        ensures
            out == delivered(self.value(), result.session, result.value),
    {
        if result.session == self.counter {
            Some(result.value)
        } else {
            None
        }
    }
}

/// The session after a run of changes is the start moved on by their number,
/// modulo the size of the counter.
pub proof fn lemma_session_after_is_offset(start: u64, changes: Seq<TransportChange>)
    ensures
        session_after(start, changes) as int == (start + changes.len()) % session_modulus(),
    decreases changes.len(),
{
    if changes.len() > 0 {
        lemma_session_after_is_offset(start, changes.drop_last());
        let prev = session_after(start, changes.drop_last());
        let n = changes.len() as int;
        assert(prev as int == (start + n - 1) % 0x1_0000_0000_0000_0000);
        assert(next_session(prev) as int == (start + n) % 0x1_0000_0000_0000_0000) by {
            if prev == u64::MAX {
                assert((start + n - 1) % 0x1_0000_0000_0000_0000 == 0xffff_ffff_ffff_ffff);
                assert((start + n) % 0x1_0000_0000_0000_0000 == 0) by (nonlinear_arith)
                    requires
                        (start + n - 1) % 0x1_0000_0000_0000_0000 == 0xffff_ffff_ffff_ffff,
                ;
            } else {
                assert((start + n) % 0x1_0000_0000_0000_0000 == prev + 1) by (nonlinear_arith)
                    requires
                        (start + n - 1) % 0x1_0000_0000_0000_0000 == prev,
                        prev < 0xffff_ffff_ffff_ffff,
                        prev >= 0,
                ;
            }
        }
    } else {
        assert(start as int % 0x1_0000_0000_0000_0000 == start as int);
    }
}

/// A result tagged with session `tag` is dropped on arrival if any transport
/// changes, in any order, were issued since its dispatch, as long as there
/// were fewer of them than the counter has values.
pub proof fn lemma_stale_result_is_discarded<T>(
    tag: u64,
    changes: Seq<TransportChange>,
    value: T,
)
    requires
        0 < changes.len() < session_modulus(),
    ensures
        session_after(tag, changes) != tag,
        delivered(session_after(tag, changes), tag, value) == None::<T>,
{
    lemma_session_after_is_offset(tag, changes);
    let n = changes.len() as int;
    assert((tag + n) % 0x1_0000_0000_0000_0000 != tag as int) by (nonlinear_arith)
        requires
            0 < n < 0x1_0000_0000_0000_0000,
            0 <= tag < 0x1_0000_0000_0000_0000,
    ;
}

/// A result is dropped exactly when the live session differs from its tag,
/// whatever the two are.
pub proof fn lemma_delivery_needs_matching_session<T>(live: u64, tag: u64, value: T)
    ensures
        live != tag ==> delivered(live, tag, value) == None::<T>,
        live == tag ==> delivered(live, tag, value) == Some(value),
{
}

} // verus!
