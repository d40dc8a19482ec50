//! Bounded, drop-oldest buffer of console and log events.

use std::collections::VecDeque;
use vstd::prelude::*;

verus! {

/// One buffered event: its method name and its parameters as received.
#[derive(Debug)]
pub struct LogEntry {
    pub method: String,
    pub params: serde_json::Value,
}

/// What one drain hands out: the entries taken, oldest first, and how many
/// entries were discarded to stay within the bound since the previous drain.
#[derive(Debug)]
pub struct Drained {
    pub entries: Vec<LogEntry>,
    pub dropped: u64,
}

/// The abstract state of a buffer: its entries, oldest first, its bound, and
/// its count of discarded entries.
pub struct LogState {
    pub entries: Seq<LogEntry>,
    pub cap: nat,
    pub dropped: nat,
}

/// A state that a buffer can be in: the bound is at least one and holds.
pub open spec fn log_wf(s: LogState) -> bool {
    &&& 1 <= s.cap <= usize::MAX
    &&& s.entries.len() <= s.cap
    &&& s.dropped <= u64::MAX
}

/// The bound that a requested capacity gives: zero is treated as one.
pub open spec fn effective_cap(cap: nat) -> nat {
    if cap == 0 { 1 } else { cap }
}

/// The state after pushing `e`: when the buffer is full its oldest entry is
/// discarded and counted (the count saturates at `u64::MAX`).
pub open spec fn pushed(s: LogState, e: LogEntry) -> LogState {
    if s.entries.len() >= s.cap {
        LogState {
            entries: s.entries.drop_first().push(e),
            cap: s.cap,
            dropped: if s.dropped < u64::MAX { s.dropped + 1 } else { s.dropped },
        }
    } else {
        LogState { entries: s.entries.push(e), cap: s.cap, dropped: s.dropped }
    }
}

/// How many entries a drain with limit `max` takes from `s`.
pub open spec fn drain_count(s: LogState, max: Option<usize>) -> nat {
    match max {
        None => s.entries.len(),
        Some(m) => if (m as nat) < s.entries.len() { m as nat } else { s.entries.len() },
    }
}

/// The state after a drain with limit `max`: the taken entries are gone and
/// the count of discarded entries starts again at zero.
pub open spec fn drained(s: LogState, max: Option<usize>) -> LogState {
    LogState {
        entries: s.entries.skip(drain_count(s, max) as int),
        cap: s.cap,
        dropped: 0,
    }
}


/// The state after pushing every entry of `es`, first to last.
pub open spec fn pushed_all(s: LogState, es: Seq<LogEntry>) -> LogState
    decreases es.len(),
{
    if es.len() == 0 {
        s
    } else {
        pushed(pushed_all(s, es.drop_last()), es.last())
    }
}

/// How many entries a state of `len` entries with bound `cap` loses when
/// `n` more are pushed.
pub open spec fn overflow(len: nat, n: nat, cap: nat) -> nat {
    if len + n > cap { (len + n - cap) as nat } else { 0 }
}

/// Pushing keeps a buffer in a valid state.
pub proof fn lemma_pushed_wf(s: LogState, e: LogEntry)
    requires
        log_wf(s),
    ensures
        log_wf(pushed(s, e)),
{
}

/// Pushing a run of entries keeps exactly the most recent ones that fit, in
/// the order they were pushed, and counts every entry that had to leave
/// (the count saturating at `u64::MAX`).
pub proof fn lemma_pushed_all_keeps_latest(s: LogState, es: Seq<LogEntry>)
    requires
        log_wf(s),
    ensures
        log_wf(pushed_all(s, es)),
        pushed_all(s, es).cap == s.cap,
        pushed_all(s, es).entries == (s.entries + es).skip(
            overflow(s.entries.len(), es.len(), s.cap) as int,
        ),
        pushed_all(s, es).dropped == if s.dropped + overflow(s.entries.len(), es.len(), s.cap)
            <= u64::MAX {
            s.dropped + overflow(s.entries.len(), es.len(), s.cap)
        } else {
            u64::MAX as nat
        },
    decreases es.len(),
{
    if es.len() == 0 {
        assert(s.entries + es =~= s.entries);
        assert((s.entries + es).skip(0) =~= s.entries);
    } else {
        let init = es.drop_last();
        lemma_pushed_all_keeps_latest(s, init);
        let mid = pushed_all(s, init);
        let k = overflow(s.entries.len(), init.len(), s.cap);
        let k2 = overflow(s.entries.len(), es.len(), s.cap);
        assert(s.entries + es =~= (s.entries + init).push(es.last()));
        if mid.entries.len() >= mid.cap {
            assert(k2 == k + 1);
            assert(mid.entries.drop_first().push(es.last()) =~= (s.entries + es).skip(k2 as int));
        } else {
            assert(k2 == k);
            assert(mid.entries.push(es.last()) =~= (s.entries + es).skip(k2 as int));
        }
    }
}

/// Draining keeps a buffer in a valid state and resets the discard count.
pub proof fn lemma_drained_wf(s: LogState, max: Option<usize>)
    requires
        log_wf(s),
    ensures
        log_wf(drained(s, max)),
        drained(s, max).dropped == 0,
{
}

/// A limited drain followed by a full drain hands out every buffered entry
/// exactly once, oldest first, and leaves the buffer empty.
pub proof fn lemma_drain_then_drain_all(s: LogState, max: Option<usize>)
    requires
        log_wf(s),
    ensures
        ({
            let first = drained(s, max);
            &&& s.entries.take(drain_count(s, max) as int) + first.entries.take(
                drain_count(first, None) as int,
            ) == s.entries
            &&& drained(first, None).entries.len() == 0
            &&& drained(first, None).dropped == 0
        }),
{
    let first = drained(s, max);
    let n = drain_count(s, max);
    assert(first.entries.take(drain_count(first, None) as int) =~= first.entries);
    assert(s.entries.take(n as int) + s.entries.skip(n as int) =~= s.entries);
}

/// Pushing a run of entries into a fresh buffer and draining it gives back
/// the most recent entries that fit, in the order pushed, together with the
/// number of entries that had to leave; the buffer is empty afterwards.
pub proof fn lemma_fresh_push_then_drain(cap: nat, es: Seq<LogEntry>)
    requires
        1 <= cap <= usize::MAX,
        es.len() <= u64::MAX,
    ensures
        ({
            let s = pushed_all(LogState { entries: Seq::empty(), cap, dropped: 0 }, es);
            &&& s.entries.take(drain_count(s, None) as int) == es.skip(overflow(0, es.len(), cap) as int)
            &&& s.dropped == overflow(0, es.len(), cap)
            &&& drained(s, None).entries.len() == 0
            &&& drained(s, None).dropped == 0
        }),
{
    let s0 = LogState { entries: Seq::empty(), cap, dropped: 0 };
    lemma_pushed_all_keeps_latest(s0, es);
    let s = pushed_all(s0, es);
    assert(s0.entries + es =~= es);
    assert(s.entries.take(drain_count(s, None) as int) =~= s.entries);
}

/// A drain takes as many entries as it is allowed and as there are: with a
/// limit, the smaller of the limit and the number buffered (so a limit at
/// least the number buffered takes every entry); without one, every entry.
pub proof fn lemma_drain_takes_min_of_limit_and_buffered(s: LogState, m: usize)
    ensures
        drain_count(s, Some(m)) <= m,
        drain_count(s, Some(m)) <= s.entries.len(),
        drain_count(s, Some(m)) == m || drain_count(s, Some(m)) == s.entries.len(),
        m >= s.entries.len() ==> drain_count(s, Some(m)) == s.entries.len(),
        drain_count(s, None) == s.entries.len(),
        drained(s, Some(m)).entries.len() + drain_count(s, Some(m)) == s.entries.len(),
{
}

/// The bound of a buffer is the capacity asked for, except that zero is
/// taken as one.
pub proof fn lemma_bound_is_requested_capacity(cap: nat)
    ensures
        cap >= 1 ==> effective_cap(cap) == cap,
        effective_cap(0) == 1,
{
}

/// Pushing one entry: it becomes the newest, the buffer grows by one until
/// it reaches its bound, and only then is exactly the oldest entry given up
/// (and counted).
pub proof fn lemma_push_one(s: LogState, e: LogEntry)
    requires
        log_wf(s),
    ensures
        pushed(s, e).entries.len() > 0,
        pushed(s, e).entries.last() == e,
        s.entries.len() < s.cap ==> pushed(s, e).entries.len() == s.entries.len() + 1
            && pushed(s, e).entries.drop_last() == s.entries && pushed(s, e).dropped == s.dropped,
        s.entries.len() == s.cap ==> pushed(s, e).entries.len() == s.cap
            && pushed(s, e).entries.drop_last() == s.entries.subrange(1, s.entries.len() as int)
            && (s.dropped < u64::MAX ==> pushed(s, e).dropped == s.dropped + 1),
{
    if s.entries.len() == s.cap {
        assert(pushed(s, e).entries.drop_last() =~= s.entries.subrange(1, s.entries.len() as int));
    } else {
        assert(pushed(s, e).entries.drop_last() =~= s.entries);
    }
}

/// The bounded event buffer.
pub struct LogBuffer {
    entries: VecDeque<LogEntry>,
    cap: usize,
    dropped: u64,
}

impl View for LogBuffer {
    type V = LogState;

    closed spec fn view(&self) -> LogState {
        LogState { entries: self.entries@, cap: self.cap as nat, dropped: self.dropped as nat }
    }
}

impl LogBuffer {
    #[verifier::type_invariant]
    spec fn inv(self) -> bool {
        1 <= self.cap && self.entries@.len() <= self.cap
    }

    /// An empty buffer that holds at most `cap` entries (at least one).
    pub fn new(cap: usize) -> (r: LogBuffer)
        ensures
            log_wf(r@),
            r@.entries == Seq::<LogEntry>::empty(),
            r@.cap == effective_cap(cap as nat),
            r@.dropped == 0,
    {
        let cap = if cap == 0 {
            1
        } else {
            cap
        };
        LogBuffer { entries: VecDeque::new(), cap, dropped: 0 }
    }

    /// Appends an event, discarding and counting the oldest entries while the
    /// buffer is full.
    pub fn push(&mut self, e: LogEntry)
        ensures
            log_wf(old(self)@),
            log_wf(final(self)@),
            final(self)@ == pushed(old(self)@, e),
    {
        proof {
            use_type_invariant(&*self);
        }
        let ghost before = self@;
        let cap = self.cap;
        let mut dropped = self.dropped;
        let mut entries: VecDeque<LogEntry> = VecDeque::new();
        std::mem::swap(&mut entries, &mut self.entries);
        while entries.len() >= cap
            invariant
                cap == before.cap,
                1 <= cap,
                entries@.len() <= cap,
                entries@.len() >= cap ==> entries@ == before.entries && dropped == before.dropped,
                entries@.len() < cap ==> (before.entries.len() >= cap ==> entries@
                    == before.entries.drop_first() && dropped == (if before.dropped < u64::MAX {
                    before.dropped + 1
                } else {
                    before.dropped
                })) && (before.entries.len() < cap ==> entries@ == before.entries && dropped
                    == before.dropped),
            decreases entries@.len(),
        {
            let _ = entries.pop_front();
            dropped = dropped.saturating_add(1);
        }
        entries.push_back(e);
        self.entries = entries;
        self.dropped = dropped;
    }

    /// Takes the oldest `max` entries (all of them when `max` is `None`),
    /// oldest first, together with the count of discarded entries, which
    /// starts again at zero.
    pub fn drain(&mut self, max: Option<usize>) -> (r: Drained)
        ensures
            log_wf(old(self)@),
            log_wf(final(self)@),
            final(self)@ == drained(old(self)@, max),
            r.entries@ == old(self)@.entries.take(drain_count(old(self)@, max) as int),
            r.dropped == old(self)@.dropped,
    {
        proof {
            use_type_invariant(&*self);
        }
        let len = self.entries.len();
        let n = match max {
            None => len,
            Some(m) => if m < len {
                m
            } else {
                len
            },
        };
        let ghost before = self@;
        let mut entries: VecDeque<LogEntry> = VecDeque::new();
        std::mem::swap(&mut entries, &mut self.entries);
        let mut taken: Vec<LogEntry> = Vec::new();
        let mut i: usize = 0;
        while i < n
            invariant
                n <= before.entries.len(),
                i <= n,
                entries@ == before.entries.skip(i as int),
                taken@ == before.entries.take(i as int),
            decreases n - i,
        {
            match entries.pop_front() {
                Some(e) => {
                    taken.push(e);
                },
                None => {},
            }
            i = i + 1;
            assert(taken@ =~= before.entries.take(i as int));
            assert(entries@ =~= before.entries.skip(i as int));
        }
        self.entries = entries;
        let dropped = self.dropped;
        self.dropped = 0;
        Drained { entries: taken, dropped }
    }
}

} // verus!
