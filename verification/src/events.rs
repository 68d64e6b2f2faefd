//! Bounded broadcast channels with independent read cursors.
//!
//! A channel is an append-only log of one event kind. It retains a window of
//! at most `cap` recent events; when full, the oldest retained event is
//! evicted. Each consumer owns a `ReaderId` cursor into the log; a cursor
//! that has fallen behind the retained window silently skips forward to the
//! oldest retained event, so losing old input under pressure is preferred
//! over unbounded growth or blocking the writer.

use vstd::prelude::*;

verus! {

/// Spec-level state of a channel: how many events have been evicted, the
/// retained window, and the capacity.
pub struct ChanModel<T> {
    pub dropped: int,
    pub window: Seq<T>,
    pub cap: int,
}

/// A well-formed model: positive capacity, window within capacity.
pub open spec fn m_wf<T>(c: ChanModel<T>) -> bool {
    0 < c.cap && 0 <= c.dropped && c.window.len() <= c.cap
}

/// Position just past the last pushed event.
pub open spec fn m_end<T>(c: ChanModel<T>) -> int {
    c.dropped + c.window.len()
}

/// One push: append, evicting the oldest retained event when full.
pub open spec fn m_push<T>(c: ChanModel<T>, e: T) -> ChanModel<T> {
    if c.window.len() < c.cap {
        ChanModel { dropped: c.dropped, window: c.window.push(e), cap: c.cap }
    } else {
        ChanModel {
            dropped: c.dropped + 1,
            window: c.window.subrange(1, c.window.len() as int).push(e),
            cap: c.cap,
        }
    }
}

/// A sequence of pushes, oldest first.
pub open spec fn m_push_all<T>(c: ChanModel<T>, es: Seq<T>) -> ChanModel<T>
    decreases es.len(),
{
    if es.len() == 0 {
        c
    } else {
        m_push(m_push_all(c, es.drop_last()), es.last())
    }
}

/// A cursor clamped forward to the oldest retained event.
pub open spec fn m_clamp<T>(c: ChanModel<T>, pos: int) -> int {
    if pos >= c.dropped {
        pos
    } else {
        c.dropped
    }
}

/// What a reader positioned at `pos` drains: every retained event at or
/// after its (clamped) cursor, in push order.
pub open spec fn m_read<T>(c: ChanModel<T>, pos: int) -> Seq<T> {
    let p = m_clamp(c, pos);
    if p <= m_end(c) {
        c.window.subrange(p - c.dropped, c.window.len() as int)
    } else {
        Seq::empty()
    }
}

/// A consumer's cursor: an absolute position in the channel's log.
#[derive(Clone, Copy, Debug, PartialEq, Eq, Structural)]
pub struct ReaderId {
    pub pos: u64,
}

/// A bounded broadcast channel of one event kind.
pub struct EventChannel<T> {
    buf: Vec<T>,
    dropped: u64,
    cap: usize,
    hist: Ghost<Seq<T>>,
}

impl<T> EventChannel<T> {
    /// The current spec-level state.
    pub closed spec fn model(&self) -> ChanModel<T> {
        ChanModel { dropped: self.dropped as int, window: self.buf@, cap: self.cap as int }
    }

    /// Every event ever pushed, oldest first.
    pub closed spec fn history(&self) -> Seq<T> {
        self.hist@
    }

    /// Position just past the last pushed event.
    pub open spec fn end(&self) -> int {
        self.history().len() as int
    }

    /// The channel invariant: the retained window is the tail of the
    /// history, within capacity.
    pub closed spec fn wf(&self) -> bool {
        &&& 0 < self.cap
        &&& self.buf@.len() <= self.cap
        &&& self.dropped + self.buf@.len() == self.hist@.len()
        &&& self.hist@.len() <= u64::MAX
        &&& self.buf@ == self.hist@.subrange(self.dropped as int, self.hist@.len() as int)
    }

    /// Everything a well-formed channel guarantees about its model, for
    /// reasoning outside this module: the model is well formed, ends where
    /// the history ends, and retains exactly the history's tail.
    pub proof fn lemma_abs(&self)
        requires
            self.wf(),
        ensures
            m_wf(self.model()),
            m_end(self.model()) == self.end(),
            self.model().window == self.history().subrange(
                self.model().dropped,
                self.end(),
            ),
            0 <= self.model().dropped <= self.end(),
    {
    }

    /// An empty channel retaining at most `cap` events.
    pub fn with_capacity(cap: usize) -> (r: EventChannel<T>)
        requires
            1 <= cap,
        ensures
            r.wf(),
            r.model() == (ChanModel::<T> { dropped: 0, window: Seq::empty(), cap: cap as int }),
            r.history() == Seq::<T>::empty(),
    {
        let r = EventChannel { buf: Vec::new(), dropped: 0, cap, hist: Ghost(Seq::empty()) };
        proof {
            assert(r.buf@ =~= r.hist@.subrange(0, r.hist@.len() as int));
            assert(r.model().window =~= Seq::<T>::empty());
        }
        r
    }

    /// Append one event, evicting the oldest retained one when the window
    /// is full.
    pub fn push(&mut self, e: T)
        requires
            old(self).wf(),
            old(self).end() < u64::MAX,
        ensures
            final(self).wf(),
            final(self).model() == m_push(old(self).model(), e),
            final(self).history() == old(self).history().push(e),
    {
        if self.buf.len() == self.cap {
            self.buf.remove(0);
            self.dropped = self.dropped + 1;
        }
        self.buf.push(e);
        proof {
            self.hist@ = self.hist@.push(e);
        }
        proof {
            assert(self.buf@ =~= self.hist@.subrange(self.dropped as int, self.hist@.len() as int));
            assert(final(self).model().window =~= m_push(old(self).model(), e).window);
        }
    }

    /// The log position just past the last pushed event; the bound a
    /// caller must stay below to push more.
    pub fn log_len(&self) -> (r: u64)
        requires
            self.wf(),
        ensures
            r as int == self.end(),
    {
        self.dropped + self.buf.len() as u64
    }

    /// A new cursor positioned at "now": it sees only future pushes.
    pub fn register_reader(&self) -> (r: ReaderId)
        requires
            self.wf(),
        ensures
            r.pos as int == self.end(),
    {
        ReaderId { pos: self.dropped + self.buf.len() as u64 }
    }

    /// Advance the cursor over the next retained event, if any, and return
    /// a reference to it. A cursor behind the retained window skips forward
    /// to the oldest retained event first.
    pub fn read_next<'a>(&'a self, r: &mut ReaderId) -> (e: Option<&'a T>)
        requires
            self.wf(),
        ensures
            m_clamp(self.model(), old(r).pos as int) < m_end(self.model()) ==> {
                &&& e matches Some(ev)
                &&& *ev == self.history()[m_clamp(self.model(), old(r).pos as int)]
                &&& final(r).pos as int == m_clamp(self.model(), old(r).pos as int) + 1
            },
            m_clamp(self.model(), old(r).pos as int) >= m_end(self.model()) ==> {
                &&& e is None
                &&& final(r).pos as int == m_clamp(self.model(), old(r).pos as int)
            },
    {
        let p: u64 = if r.pos < self.dropped {
            self.dropped
        } else {
            r.pos
        };
        let end: u64 = self.dropped + self.buf.len() as u64;
        if p < end {
            let i: usize = (p - self.dropped) as usize;
            r.pos = p + 1;
            Some(&self.buf[i])
        } else {
            r.pos = p;
            None
        }
    }
}

impl<T: Copy> EventChannel<T> {
    /// Drain every retained event at or after the cursor, in push order,
    /// and move the cursor to "now". Events drained once are never yielded
    /// to the same cursor again.
    pub fn read(&self, r: &mut ReaderId) -> (out: Vec<T>)
        requires
            self.wf(),
        ensures
            out@ == m_read(self.model(), old(r).pos as int),
            old(r).pos as int <= self.end() ==> final(r).pos as int == self.end(),
            old(r).pos as int > self.end() ==> final(r).pos == old(r).pos,
    {
        let mut out: Vec<T> = Vec::new();
        let p: u64 = if r.pos < self.dropped {
            self.dropped
        } else {
            r.pos
        };
        let end: u64 = self.dropped + self.buf.len() as u64;
        if p > end {
            proof {
                assert(out@ =~= m_read(self.model(), old(r).pos as int));
            }
            return out;
        }
        let mut i: u64 = p;
        while i < end
            invariant
                self.wf(),
                p <= i <= end,
                self.dropped <= p,
                end == self.dropped + self.buf@.len(),
                out@ == self.buf@.subrange(p - self.dropped, i - self.dropped),
            decreases end - i,
        {
            let idx: usize = (i - self.dropped) as usize;
            out.push(self.buf[idx]);
            proof {
                assert(out@ =~= self.buf@.subrange(p - self.dropped, i + 1 - self.dropped));
            }
            i = i + 1;
        }
        r.pos = end;
        proof {
            assert(out@ =~= m_read(self.model(), old(r).pos as int));
        }
        out
    }
}

/// After any sequence of pushes the retained window is exactly the last
/// `min(cap, older + new)` events of the concatenated log, and the drop
/// count accounts for the rest.
pub proof fn lemma_push_all_window<T>(c: ChanModel<T>, es: Seq<T>)
    requires
        m_wf(c),
    ensures
        m_wf(m_push_all(c, es)),
        m_push_all(c, es).cap == c.cap,
        m_end(m_push_all(c, es)) == m_end(c) + es.len(),
        m_push_all(c, es).dropped == c.dropped + spill(c.window.len() as int, es.len() as int, c.cap),
        m_push_all(c, es).window == (c.window + es).subrange(
            spill(c.window.len() as int, es.len() as int, c.cap),
            c.window.len() + es.len() as int,
        ),
    decreases es.len(),
{
    if es.len() == 0 {
        assert(m_push_all(c, es).window =~= (c.window + es).subrange(
            spill(c.window.len() as int, es.len() as int, c.cap),
            c.window.len() + es.len() as int,
        ));
    } else {
        let init = es.drop_last();
        let e = es.last();
        lemma_push_all_window(c, init);
        let c1 = m_push_all(c, init);
        let c2 = m_push(c1, e);
        assert(m_push_all(c, es) == c2);
        let s0 = spill(c.window.len() as int, init.len() as int, c.cap);
        let s1 = spill(c.window.len() as int, es.len() as int, c.cap);
        assert(c.window + init == (c.window + es).subrange(0, c.window.len() + es.len() - 1));
        if c1.window.len() < c1.cap {
            assert(s1 == s0);
            assert(c2.window =~= (c.window + es).subrange(s1, c.window.len() + es.len() as int));
        } else {
            assert(s1 == s0 + 1);
            assert(c2.window =~= (c.window + es).subrange(s1, c.window.len() + es.len() as int));
        }
    }
}

/// How many of the oldest events spill out of the window when `n` events
/// are pushed onto `w` retained ones with capacity `cap`.
pub open spec fn spill(w: int, n: int, cap: int) -> int {
    if w + n <= cap {
        0
    } else {
        w + n - cap
    }
}

/// Delivery without loss: a reader registered at the end of the log, after
/// at most a window's worth of pushes, drains exactly those events, in push
/// order. Registering later means starting at a later end, so a second
/// reader registered after some of the pushes sees exactly the remainder.
pub proof fn lemma_reader_drains_pushes<T>(c: ChanModel<T>, es: Seq<T>)
    requires
        m_wf(c),
        es.len() <= c.cap,
    ensures
        m_read(m_push_all(c, es), m_end(c)) == es,
{
    lemma_push_all_window(c, es);
    let c1 = m_push_all(c, es);
    let s = spill(c.window.len() as int, es.len() as int, c.cap);
    assert(c1.dropped <= m_end(c));
    assert(m_clamp(c1, m_end(c)) == m_end(c));
    assert(m_read(c1, m_end(c)) =~= es);
}

/// Bounded loss under overflow: whatever was pushed, a reader positioned at
/// or before the old end drains at most `cap` events, and they are exactly
/// the newest pushed ones, in push order and without duplicates.
pub proof fn lemma_overflow_keeps_newest<T>(c: ChanModel<T>, es: Seq<T>, pos: int)
    requires
        m_wf(c),
        es.len() >= c.cap,
        pos <= m_end(c),
    ensures
        m_read(m_push_all(c, es), pos) == es.subrange(es.len() - c.cap, es.len() as int),
        m_read(m_push_all(c, es), pos).len() == c.cap,
    decreases es.len(),
{
    lemma_push_all_window(c, es);
    let c1 = m_push_all(c, es);
    let s = spill(c.window.len() as int, es.len() as int, c.cap);
    assert(c1.dropped == c.dropped + c.window.len() + es.len() - c.cap);
    assert(c1.dropped >= m_end(c));
    assert(m_clamp(c1, pos) == c1.dropped);
    assert(m_read(c1, pos) =~= es.subrange(es.len() - c.cap, es.len() as int));
}

} // verus!
