//! Debouncing of change events, which a single editor action can fire in
//! rapid bursts.
//!
//! A change is recorded together with the instant of its first arrival;
//! further changes of the same category arriving while one is pending are
//! dropped, so the first-seen timestamp is kept and worst-case latency stays
//! bounded under a continuous burst. A periodic sweep emits and removes every
//! pending change whose age has reached the debounce window.

use vstd::prelude::*;

use super::ChangeType;
use super::ChangeView;

verus! {

/// One pending change: a category together with the instant (in milliseconds)
/// it was first seen.
pub struct PendingChange {
    pub change: ChangeType,
    pub since: u64,
}

/// A pending entry has reached the debounce window at instant `now`.
pub open spec fn is_expired(e: (ChangeView, u64), window: u64, now: u64) -> bool {
    e.1 + window <= now
}

/// The pending map holds at most one entry per distinct category.
pub open spec fn distinct_keys(p: Seq<(ChangeView, u64)>) -> bool {
    forall|i: int, j: int| 0 <= i < j < p.len() ==> #[trigger] p[i].0 != #[trigger] p[j].0
}

/// Some pending entry carries the category `c`.
pub open spec fn has_key(p: Seq<(ChangeView, u64)>, c: ChangeView) -> bool {
    exists|i: int| 0 <= i < p.len() && #[trigger] p[i].0 == c
}

/// Recording a change: inserted with the current instant only if its category
/// is absent; otherwise the pending map is unchanged and the first-seen
/// timestamp is kept.
pub open spec fn spec_record(p: Seq<(ChangeView, u64)>, c: ChangeView, now: u64) -> Seq<
    (ChangeView, u64),
> {
    if has_key(p, c) {
        p
    } else {
        p.push((c, now))
    }
}

/// The categories that a sweep at instant `now` emits: those of every entry
/// whose age has reached the window, in pending order.
pub open spec fn spec_emitted(p: Seq<(ChangeView, u64)>, window: u64, now: u64) -> Seq<
    ChangeView,
> {
    p.filter_map(
        |e: (ChangeView, u64)|
            if is_expired(e, window, now) {
                Some(e.0)
            } else {
                None
            },
    )
}

/// The entries still pending after a sweep at instant `now`: those younger
/// than the window, unchanged and in order.
pub open spec fn spec_kept(p: Seq<(ChangeView, u64)>, window: u64, now: u64) -> Seq<
    (ChangeView, u64),
> {
    p.filter_map(
        |e: (ChangeView, u64)|
            if is_expired(e, window, now) {
                None
            } else {
                Some(e)
            },
    )
}

/// Coalesces a stream of classified changes into at most one notification per
/// category per debounce window.
pub struct Debouncer {
    pending: Vec<PendingChange>,
    window: u64,
}

impl Debouncer {
    /// The pending map: category and first-seen instant of every change that
    /// arrived and was not yet emitted.
    pub closed spec fn pending_view(&self) -> Seq<(ChangeView, u64)> {
        Seq::new(self.pending@.len(), |i: int| (self.pending@[i].change@, self.pending@[i].since))
    }

    /// The debounce window in milliseconds.
    pub closed spec fn spec_window(&self) -> u64 {
        self.window
    }

    /// At most one pending entry per category.
    pub open spec fn wf(&self) -> bool {
        distinct_keys(self.pending_view())
    }

    /// A debouncer with the given window and nothing pending.
    pub fn new(window_millis: u64) -> (d: Debouncer)
        ensures
            d.pending_view() == Seq::<(ChangeView, u64)>::empty(),
            d.spec_window() == window_millis,
            d.wf(),
    {
        let d = Debouncer { pending: Vec::new(), window: window_millis };
        proof {
            assert(d.pending_view() =~= Seq::<(ChangeView, u64)>::empty());
        }
        d
    }

    /// The debounce window in milliseconds.
    pub fn window(&self) -> (w: u64)
        ensures
            w == self.spec_window(),
    {
        self.window
    }

    /// Record one classified change at instant `now`. If the category is
    /// already pending, the change is dropped and the earlier timestamp kept.
    pub fn record(&mut self, change: ChangeType, now: u64)
        requires
            old(self).wf(),
        ensures
            final(self).wf(),
            final(self).spec_window() == old(self).spec_window(),
            final(self).pending_view() == spec_record(old(self).pending_view(), change@, now),
    {
        let n = self.pending.len();
        for i in 0..n
            invariant
                n == self.pending.len(),
                forall|j: int| 0 <= j < i ==> self.pending_view()[j].0 != change@,
                self.wf(),
        {
            if self.pending[i].change == change {
                proof {
                    assert(self.pending_view()[i as int].0 == change@);
                    assert(has_key(self.pending_view(), change@));
                }
                return;
            }
        }
        proof {
            assert(!has_key(self.pending_view(), change@));
        }
        let ghost before = self.pending_view();
        self.pending.push(PendingChange { change, since: now });
        proof {
            assert(self.pending_view() =~= before.push((change@, now)));
        }
    }

    /// Sweep at instant `now`: emit and drop every pending change whose age
    /// reached the window, keeping the younger ones untouched.
    pub fn sweep(&mut self, now: u64) -> (out: Vec<ChangeType>)
        requires
            old(self).wf(),
        ensures
            final(self).wf(),
            final(self).spec_window() == old(self).spec_window(),
            out.deep_view() == spec_emitted(
                old(self).pending_view(),
                old(self).spec_window(),
                now,
            ),
            final(self).pending_view() == spec_kept(
                old(self).pending_view(),
                old(self).spec_window(),
                now,
            ),
    {
        let ghost orig = self.pending_view();
        let ghost w = self.window;
        let mut out: Vec<ChangeType> = Vec::new();
        let mut kept: Vec<PendingChange> = Vec::new();
        let n = self.pending.len();
        for i in 0..n
            invariant
                n == self.pending.len(),
                w == self.window,
                orig == self.pending_view(),
                orig.len() == n,
                out.deep_view() =~= spec_emitted(orig.take(i as int), w, now),
                Seq::new(kept@.len(), |k: int| (kept@[k].change@, kept@[k].since)) =~= spec_kept(
                    orig.take(i as int),
                    w,
                    now,
                ),
        {
            let e = &self.pending[i];
            let ghost out_before = out.deep_view();
            let ghost kept_before = Seq::new(
                kept@.len(),
                |k: int| (kept@[k].change@, kept@[k].since),
            );
            if now >= e.since && now - e.since >= self.window {
                proof {
                    assert(is_expired(orig[i as int], w, now));
                }
                out.push(e.change.duplicate());
                proof {
                    assert(out.deep_view() =~= out_before.push(orig[i as int].0));
                }
            } else {
                proof {
                    assert(!is_expired(orig[i as int], w, now));
                }
                kept.push(PendingChange { change: e.change.duplicate(), since: e.since });
                proof {
                    assert(Seq::new(kept@.len(), |k: int| (kept@[k].change@, kept@[k].since))
                        =~= kept_before.push(orig[i as int]));
                }
            }
            proof {
                orig.lemma_filter_map_take_succ(
                    |e: (ChangeView, u64)|
                        if is_expired(e, w, now) {
                            Some(e.0)
                        } else {
                            None
                        },
                    i as int,
                );
                orig.lemma_filter_map_take_succ(
                    |e: (ChangeView, u64)|
                        if is_expired(e, w, now) {
                            None
                        } else {
                            Some(e)
                        },
                    i as int,
                );
                assert(out.deep_view() =~= spec_emitted(orig.take(i + 1), w, now));
                assert(Seq::new(kept@.len(), |k: int| (kept@[k].change@, kept@[k].since))
                    =~= spec_kept(orig.take(i + 1), w, now));
            }
        }
        self.pending = kept;
        proof {
            assert(orig.take(n as int) =~= orig);
            lemma_kept_distinct(orig, w, now);
        }
        out
    }
}

/// Everything a sweep keeps pending was pending before, under the same
/// category and timestamp.
pub proof fn lemma_kept_is_sub(p: Seq<(ChangeView, u64)>, window: u64, now: u64, c: ChangeView)
    requires
        has_key(spec_kept(p, window, now), c),
    ensures
        has_key(p, c),
{
    let f = |e: (ChangeView, u64)|
        if is_expired(e, window, now) {
            None
        } else {
            Some(e)
        };
    let kept = p.filter_map(f);
    let i = choose|i: int| 0 <= i < kept.len() && #[trigger] kept[i].0 == c;
    assert(kept.contains(kept[i]));
    p.lemma_filter_map_contains(f, kept[i]);
    let t = choose|t: (ChangeView, u64)| #[trigger] p.contains(t) && f(t) == Some(kept[i]);
    let j = choose|j: int| 0 <= j < p.len() && p[j] == t;
    assert(p[j].0 == c);
}

/// A sweep never introduces a duplicate category: if the pending map held at
/// most one entry per category, so does what the sweep keeps.
pub proof fn lemma_kept_distinct(p: Seq<(ChangeView, u64)>, window: u64, now: u64)
    requires
        distinct_keys(p),
    ensures
        distinct_keys(spec_kept(p, window, now)),
    decreases p.len(),
{
    let f = |e: (ChangeView, u64)|
        if is_expired(e, window, now) {
            None
        } else {
            Some(e)
        };
    if p.len() == 0 {
        assert(p.filter_map(f).len() == 0);
    } else {
        let rest = p.drop_last();
        lemma_kept_distinct(rest, window, now);
        assert(spec_kept(rest, window, now) == rest.filter_map(f));
        if f(p.last()) is Some {
            let kept = spec_kept(p, window, now);
            assert(kept == rest.filter_map(f) + seq![p.last()]);
            assert forall|i: int, j: int| 0 <= i < j < kept.len() implies #[trigger] kept[i].0
                != #[trigger] kept[j].0 by {
                if j < kept.len() - 1 {
                    assert(rest.filter_map(f)[i] == kept[i]);
                    assert(rest.filter_map(f)[j] == kept[j]);
                } else {
                    assert(kept[j] == p.last());
                    assert(kept[i] == rest.filter_map(f)[i]);
                    if kept[i].0 == p.last().0 {
                        lemma_kept_has_key(rest, window, now, kept[i].0);
                        let m = choose|m: int|
                            0 <= m < rest.len() && #[trigger] rest[m].0 == kept[i].0;
                        assert(p[m].0 == p[p.len() - 1].0);
                        assert(false);
                    }
                }
            }
        } else {
            assert(spec_kept(p, window, now) == rest.filter_map(f));
        }
    }
}

/// How often a sweep emitted the category `c`.
pub open spec fn count_of(s: Seq<ChangeView>, c: ChangeView) -> nat {
    s.filter(|x: ChangeView| x == c).len()
}

/// Every category that a sweep emits was pending before it.
pub proof fn lemma_emitted_has_key(p: Seq<(ChangeView, u64)>, window: u64, now: u64, c: ChangeView)
    requires
        spec_emitted(p, window, now).contains(c),
    ensures
        has_key(p, c),
{
    let f = |e: (ChangeView, u64)|
        if is_expired(e, window, now) {
            Some(e.0)
        } else {
            None
        };
    p.lemma_filter_map_contains(f, c);
    let t = choose|t: (ChangeView, u64)| #[trigger] p.contains(t) && f(t) == Some(c);
    let j = choose|j: int| 0 <= j < p.len() && p[j] == t;
    assert(p[j].0 == c);
}

/// A sequence without the category `c` counts zero occurrences of it.
proof fn lemma_count_zero(s: Seq<ChangeView>, c: ChangeView)
    requires
        forall|i: int| 0 <= i < s.len() ==> #[trigger] s[i] != c,
    ensures
        count_of(s, c) == 0,
    decreases s.len(),
{
    reveal(Seq::filter);
    if s.len() > 0 {
        let rest = s.drop_last();
        assert(forall|i: int| 0 <= i < rest.len() ==> #[trigger] rest[i] != c);
        lemma_count_zero(rest, c);
        assert(!((|x: ChangeView| x == c)(s.last())));
        assert(s.filter(|x: ChangeView| x == c) == rest.filter(|x: ChangeView| x == c));
    }
}

/// Appending an occurrence of the counted category raises its count by one.
proof fn lemma_count_push(s: Seq<ChangeView>, c: ChangeView)
    ensures
        count_of(s.push(c), c) == count_of(s, c) + 1,
{
    reveal(Seq::filter);
    assert(s.push(c).drop_last() =~= s);
    assert(s.push(c).last() == c);
}

/// A category that is not pending is not emitted.
pub proof fn lemma_absent_not_emitted(p: Seq<(ChangeView, u64)>, window: u64, now: u64, c: ChangeView)
    requires
        !has_key(p, c),
    ensures
        count_of(spec_emitted(p, window, now), c) == 0,
{
    let emitted = spec_emitted(p, window, now);
    assert forall|i: int| 0 <= i < emitted.len() implies #[trigger] emitted[i] != c by {
        if emitted[i] == c {
            assert(emitted.contains(c));
            lemma_emitted_has_key(p, window, now, c);
        }
    }
    lemma_count_zero(emitted, c);
}

/// Appending one pending entry extends what a sweep emits by that entry's
/// category if it is expired, and by nothing otherwise.
pub proof fn lemma_emitted_push(
    p: Seq<(ChangeView, u64)>,
    e: (ChangeView, u64),
    window: u64,
    now: u64,
)
    ensures
        is_expired(e, window, now) ==> spec_emitted(p.push(e), window, now) == spec_emitted(
            p,
            window,
            now,
        ).push(e.0),
        !is_expired(e, window, now) ==> spec_emitted(p.push(e), window, now) == spec_emitted(
            p,
            window,
            now,
        ),
        is_expired(e, window, now) ==> spec_kept(p.push(e), window, now) == spec_kept(
            p,
            window,
            now,
        ),
        !is_expired(e, window, now) ==> spec_kept(p.push(e), window, now) == spec_kept(
            p,
            window,
            now,
        ).push(e),
{
    let q = p.push(e);
    assert(q.drop_last() =~= p);
    assert(q.last() == e);
    let f = |x: (ChangeView, u64)|
        if is_expired(x, window, now) {
            Some(x.0)
        } else {
            None
        };
    let g = |x: (ChangeView, u64)|
        if is_expired(x, window, now) {
            None
        } else {
            Some(x)
        };
    if is_expired(e, window, now) {
        assert(q.filter_map(f) == q.drop_last().filter_map(f) + seq![e.0]);
        assert(q.drop_last().filter_map(f) + seq![e.0] =~= p.filter_map(f).push(e.0));
        assert(q.filter_map(g) == q.drop_last().filter_map(g));
    } else {
        assert(q.filter_map(f) == q.drop_last().filter_map(f));
        assert(q.filter_map(g) == q.drop_last().filter_map(g) + seq![e]);
        assert(q.drop_last().filter_map(g) + seq![e] =~= p.filter_map(g).push(e));
    }
}

/// Two changes of one category within a single debounce window collapse to
/// exactly one emitted notification: after recording the category at `t1` and
/// again at any later instant while still pending, a sweep at an instant that
/// the first record's window has reached emits the category exactly once, and
/// it is no longer pending afterwards.
pub proof fn lemma_same_window_collapses(
    p: Seq<(ChangeView, u64)>,
    c: ChangeView,
    t1: u64,
    t2: u64,
    window: u64,
    now: u64,
)
    requires
        distinct_keys(p),
        !has_key(p, c),
        t1 + window <= now,
    ensures
        ({
            let after = spec_record(spec_record(p, c, t1), c, t2);
            &&& count_of(spec_emitted(after, window, now), c) == 1
            &&& !has_key(spec_kept(after, window, now), c)
        }),
{
    let p1 = spec_record(p, c, t1);
    assert(p1 == p.push((c, t1)));
    assert(p1[p.len() as int].0 == c);
    assert(has_key(p1, c));
    let after = spec_record(p1, c, t2);
    assert(after == p1);
    lemma_emitted_push(p, (c, t1), window, now);
    assert(spec_emitted(after, window, now) == spec_emitted(p, window, now).push(c));
    let e0 = spec_emitted(p, window, now);
    lemma_absent_not_emitted(p, window, now, c);
    lemma_count_push(e0, c);
    assert(spec_emitted(after, window, now) == e0.push(c));
    assert(count_of(spec_emitted(after, window, now), c) == 1);
    assert(spec_kept(after, window, now) == spec_kept(p, window, now));
    if has_key(spec_kept(after, window, now), c) {
        lemma_kept_is_sub(p, window, now, c);
    }
}

/// Two changes of one category more than a window apart produce two
/// emissions: a sweep after the first record's window emits the category and
/// clears it, so recording it again and sweeping after the second record's
/// window emits it a second time.
pub proof fn lemma_separated_changes_emit_twice(
    p: Seq<(ChangeView, u64)>,
    c: ChangeView,
    t1: u64,
    s1: u64,
    t2: u64,
    s2: u64,
    window: u64,
)
    requires
        distinct_keys(p),
        !has_key(p, c),
        t1 + window <= s1,
        t2 + window <= s2,
    ensures
        ({
            let p1 = spec_record(p, c, t1);
            let kept1 = spec_kept(p1, window, s1);
            let p2 = spec_record(kept1, c, t2);
            &&& count_of(spec_emitted(p1, window, s1), c) == 1
            &&& count_of(spec_emitted(p2, window, s2), c) == 1
        }),
{
    lemma_same_window_collapses(p, c, t1, t1, window, s1);
    let p1 = spec_record(p, c, t1);
    assert(p1 == p.push((c, t1)));
    assert(p1[p.len() as int].0 == c);
    assert(has_key(p1, c));
    assert(spec_record(p1, c, t1) == p1);
    let kept1 = spec_kept(p1, window, s1);
    assert(!has_key(kept1, c));
    lemma_kept_distinct(p1, window, s1);
    lemma_same_window_collapses(kept1, c, t2, t2, window, s2);
    let p2 = spec_record(kept1, c, t2);
    assert(p2 == kept1.push((c, t2)));
    assert(p2[kept1.len() as int].0 == c);
    assert(has_key(p2, c));
    assert(spec_record(p2, c, t2) == p2);
}

/// Helper: a category present among kept entries was present before the sweep.
proof fn lemma_kept_has_key(p: Seq<(ChangeView, u64)>, window: u64, now: u64, c: ChangeView)
    requires
        has_key(p.filter_map(
            |e: (ChangeView, u64)|
                if is_expired(e, window, now) {
                    None
                } else {
                    Some(e)
                },
        ), c),
    ensures
        has_key(p, c),
{
    assert(p.filter_map(
        |e: (ChangeView, u64)|
            if is_expired(e, window, now) {
                None
            } else {
                Some(e)
            },
    ) == spec_kept(p, window, now));
    lemma_kept_is_sub(p, window, now, c);
}

} // verus!
