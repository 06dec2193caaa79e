//! The integer side of flyby cinematics: scripted channel events, their
//! scheduling order, the tooltips shown along the way, and the camera state in
//! script units. The eased camera motion itself is computed by the caller.
use vstd::prelude::*;
use std::collections::HashSet;

verus! {

broadcast use vstd::std_specs::hash::group_hash_axioms;

/// Angle units per full turn.
pub const FLYBY_ANGLE_MODULUS: i32 = 2048;
/// Half-cell wrap of positions on a 128-cell map.
pub const FLYBY_DEFAULT_POS_MODULUS: i32 = 256;

/// One scripted channel event: start moving toward `target` at `start_tick`
/// (relative to the flyby's start), arriving `duration` ticks later.
#[derive(Debug, Clone, Copy, PartialEq, Eq, Structural)]
pub struct FlybyChannelEvent {
    pub start_tick: u32,
    pub target: i16,
    pub duration: u32,
}

/// A tooltip shown at a tick of the flyby.
#[derive(Debug, Clone, Copy, PartialEq, Eq, Structural)]
pub struct FlybyTooltip {
    pub tick: u32,
    pub tooltip_id: i32,
}

/// Where the camera ends up after a flyby.
#[derive(Debug, Clone, Copy, PartialEq, Eq, Structural)]
pub struct FlybyEndTarget {
    pub world_x: i16,
    pub world_y: i16,
    pub angle_z: i16,
    pub angle_x: i16,
    pub zoom: i16,
}

/// Camera state in flyby script units (half-cells, 2048 angle units per turn, zoom units).
#[derive(Debug, Clone, Copy, PartialEq, Eq, Structural)]
pub struct FlybyCameraOutput {
    pub angle_z: i16,
    pub angle_x: i16,
    pub zoom: i16,
    pub world_x: i16,
    pub world_y: i16,
}

/// `e` inserted into `s` before the first event that starts later than it.
pub open spec fn insert_by_start(s: Seq<FlybyChannelEvent>, e: FlybyChannelEvent) -> Seq<FlybyChannelEvent>
    decreases s.len(),
{
    if s.len() == 0 {
        seq![e]
    } else if e.start_tick < s[0].start_tick {
        seq![e] + s
    } else {
        seq![s[0]] + insert_by_start(s.drop_first(), e)
    }
}

/// Stable sort by start tick: events that start together keep their order.
pub open spec fn sort_by_start(s: Seq<FlybyChannelEvent>) -> Seq<FlybyChannelEvent>
    decreases s.len(),
{
    if s.len() == 0 {
        Seq::empty()
    } else {
        insert_by_start(sort_by_start(s.drop_last()), s.last())
    }
}

/// Events in order of start tick.
pub open spec fn by_start(s: Seq<FlybyChannelEvent>) -> bool {
    forall|i: int, j: int| 0 <= i < j < s.len() ==> #[trigger] s[i].start_tick <= #[trigger] s[j].start_tick
}

spec fn is_start_pos(s: Seq<FlybyChannelEvent>, e: FlybyChannelEvent, p: int) -> bool {
    &&& 0 <= p <= s.len()
    &&& forall|k: int| 0 <= k < p ==> (#[trigger] s[k]).start_tick <= e.start_tick
    &&& p < s.len() ==> e.start_tick < s[p].start_tick
}

proof fn lemma_insert_at(s: Seq<FlybyChannelEvent>, e: FlybyChannelEvent, p: int)
    requires
        is_start_pos(s, e, p),
    ensures
        insert_by_start(s, e) == s.insert(p, e),
    decreases s.len(),
{
    if s.len() == 0 {
        assert(s.insert(p, e) =~= seq![e]);
    } else if p == 0 {
        assert(s.insert(0, e) =~= seq![e] + s);
    } else {
        let t = s.drop_first();
        assert forall|k: int| 0 <= k < p - 1 implies (#[trigger] t[k]).start_tick <= e.start_tick by {
            assert(t[k] == s[k + 1]);
        }
        lemma_insert_at(t, e, p - 1);
        assert(s.insert(p, e) =~= seq![s[0]] + t.insert(p - 1, e));
    }
}

/// Sort the events of a channel by start tick, keeping the order of events
/// that start together.
pub fn sort_events(events: &mut Vec<FlybyChannelEvent>)
    ensures
        final(events)@ == sort_by_start(old(events)@),
{
    let ghost orig = old(events)@;
    let n = events.len();
    let mut out: Vec<FlybyChannelEvent> = Vec::new();
    let mut i: usize = 0;
    assert(orig.take(0) =~= Seq::<FlybyChannelEvent>::empty());
    while i < n
        invariant
            n == orig.len(),
            events@ == orig,
            0 <= i <= n,
            out@ == sort_by_start(orig.take(i as int)),
        decreases n - i,
    {
        let e = events[i];
        let mut p: usize = 0;
        while p < out.len() && out[p].start_tick <= e.start_tick
            invariant
                0 <= p <= out@.len(),
                forall|k: int| 0 <= k < p ==> (#[trigger] out@[k]).start_tick <= e.start_tick,
            decreases out@.len() - p,
        {
            p = p + 1;
        }
        let ghost before = out@;
        out.insert(p, e);
        proof {
            lemma_insert_at(before, e, p as int);
            assert(orig.take(i + 1).drop_last() =~= orig.take(i as int));
            assert(orig.take(i + 1).last() == e);
        }
        i = i + 1;
    }
    assert(orig.take(n as int) =~= orig);
    *events = out;
}

proof fn lemma_insert_multiset(s: Seq<FlybyChannelEvent>, e: FlybyChannelEvent)
    ensures
        insert_by_start(s, e).to_multiset() == s.to_multiset().insert(e),
    decreases s.len(),
{
    broadcast use vstd::seq_lib::to_multiset_insert;

    if s.len() == 0 {
        assert(seq![e] =~= s.insert(0, e));
    } else if e.start_tick < s[0].start_tick {
        assert(seq![e] + s =~= s.insert(0, e));
    } else {
        let t = s.drop_first();
        lemma_insert_multiset(t, e);
        let x = insert_by_start(t, e);
        assert(seq![s[0]] + x =~= x.insert(0, s[0]));
        assert(t.insert(0, s[0]) =~= s);
        assert(x.insert(0, s[0]).to_multiset() == x.to_multiset().insert(s[0]));
        assert(t.insert(0, s[0]).to_multiset() == t.to_multiset().insert(s[0]));
        assert(t.to_multiset().insert(e).insert(s[0]) =~= t.to_multiset().insert(s[0]).insert(e));
    }
}

/// Every event of an insertion starts no earlier than `a` when the inserted
/// one and the old ones do.
proof fn lemma_insert_bounded(s: Seq<FlybyChannelEvent>, e: FlybyChannelEvent, a: u32)
    requires
        a <= e.start_tick,
        forall|k: int| 0 <= k < s.len() ==> a <= (#[trigger] s[k]).start_tick,
    ensures
        forall|k: int| 0 <= k < insert_by_start(s, e).len() ==> a <= (#[trigger] insert_by_start(s, e)[k]).start_tick,
    decreases s.len(),
{
    if s.len() == 0 {
    } else if e.start_tick < s[0].start_tick {
        let r = seq![e] + s;
        assert forall|k: int| 0 <= k < r.len() implies a <= (#[trigger] r[k]).start_tick by {
            if k > 0 {
                assert(r[k] == s[k - 1]);
            }
        }
    } else {
        let t = s.drop_first();
        assert forall|k: int| 0 <= k < t.len() implies a <= (#[trigger] t[k]).start_tick by {
            assert(t[k] == s[k + 1]);
        }
        lemma_insert_bounded(t, e, a);
        let x = insert_by_start(t, e);
        let r = seq![s[0]] + x;
        assert forall|k: int| 0 <= k < r.len() implies a <= (#[trigger] r[k]).start_tick by {
            if k > 0 {
                assert(r[k] == x[k - 1]);
            }
        }
    }
}

proof fn lemma_insert_sorted(s: Seq<FlybyChannelEvent>, e: FlybyChannelEvent)
    requires
        by_start(s),
    ensures
        by_start(insert_by_start(s, e)),
    decreases s.len(),
{
    if s.len() == 0 {
    } else if e.start_tick < s[0].start_tick {
        let r = seq![e] + s;
        assert forall|i: int, j: int| 0 <= i < j < r.len() implies #[trigger] r[i].start_tick
            <= #[trigger] r[j].start_tick by {
            if i == 0 {
                assert(r[j] == s[j - 1]);
                if j - 1 > 0 {
                    assert(s[0].start_tick <= s[j - 1].start_tick);
                }
            } else {
                assert(r[i] == s[i - 1] && r[j] == s[j - 1]);
            }
        }
    } else {
        let t = s.drop_first();
        assert(by_start(t)) by {
            assert forall|i: int, j: int| 0 <= i < j < t.len() implies #[trigger] t[i].start_tick
                <= #[trigger] t[j].start_tick by {
                assert(t[i] == s[i + 1] && t[j] == s[j + 1]);
            }
        }
        lemma_insert_sorted(t, e);
        assert forall|k: int| 0 <= k < t.len() implies s[0].start_tick <= (#[trigger] t[k]).start_tick by {
            assert(t[k] == s[k + 1]);
        }
        lemma_insert_bounded(t, e, s[0].start_tick);
        let x = insert_by_start(t, e);
        let r = seq![s[0]] + x;
        assert forall|i: int, j: int| 0 <= i < j < r.len() implies #[trigger] r[i].start_tick
            <= #[trigger] r[j].start_tick by {
            if i == 0 {
                assert(r[j] == x[j - 1]);
            } else {
                assert(r[i] == x[i - 1] && r[j] == x[j - 1]);
            }
        }
    }
}

/// Whether an event starts at tick `k`.
pub open spec fn starts_at(k: u32) -> spec_fn(FlybyChannelEvent) -> bool {
    |e: FlybyChannelEvent| e.start_tick == k
}

/// A list ordered by start tick whose first event starts after `k` has no
/// event that starts at `k`.
proof fn lemma_filter_none_before(s: Seq<FlybyChannelEvent>, k: u32)
    requires
        by_start(s),
        s.len() > 0,
        k < s[0].start_tick,
    ensures
        s.filter(starts_at(k)) == Seq::<FlybyChannelEvent>::empty(),
    decreases s.len(),
{
    reveal(Seq::filter);
    if s.len() > 1 {
        let t = s.drop_last();
        assert(by_start(t)) by {
            assert forall|i: int, j: int| 0 <= i < j < t.len() implies #[trigger] t[i].start_tick
                <= #[trigger] t[j].start_tick by {
                assert(t[i] == s[i] && t[j] == s[j]);
            }
        }
        lemma_filter_none_before(t, k);
    } else {
        assert(s.drop_last() =~= Seq::<FlybyChannelEvent>::empty());
        assert(Seq::<FlybyChannelEvent>::empty().filter(starts_at(k)) =~= Seq::<FlybyChannelEvent>::empty());
    }
    assert(s[0].start_tick <= s.last().start_tick);
}

/// Inserting an event into a sorted list puts it after every event that
/// starts at the same tick.
proof fn lemma_insert_filter(s: Seq<FlybyChannelEvent>, e: FlybyChannelEvent, k: u32)
    requires
        by_start(s),
    ensures
        insert_by_start(s, e).filter(starts_at(k)) == (if e.start_tick == k {
            s.filter(starts_at(k)).push(e)
        } else {
            s.filter(starts_at(k))
        }),
    decreases s.len(),
{
    reveal(Seq::filter);
    broadcast use Seq::filter_distributes_over_add;

    let one = seq![e];
    assert(one.drop_last() =~= Seq::<FlybyChannelEvent>::empty());
    assert(Seq::<FlybyChannelEvent>::empty().filter(starts_at(k)) =~= Seq::<FlybyChannelEvent>::empty());
    if s.len() == 0 {
        assert(s =~= Seq::<FlybyChannelEvent>::empty());
        if e.start_tick == k {
            assert(one.filter(starts_at(k)) =~= seq![e]);
            assert(s.filter(starts_at(k)).push(e) =~= seq![e]);
        }
    } else if e.start_tick < s[0].start_tick {
        if e.start_tick == k {
            lemma_filter_none_before(s, k);
            assert((one + s).filter(starts_at(k)) == one.filter(starts_at(k)) + s.filter(starts_at(k)));
            assert(one.filter(starts_at(k)) + s.filter(starts_at(k)) =~= s.filter(starts_at(k)).push(e));
        } else {
            assert((one + s).filter(starts_at(k)) == one.filter(starts_at(k)) + s.filter(starts_at(k)));
            assert(one.filter(starts_at(k)) + s.filter(starts_at(k)) =~= s.filter(starts_at(k)));
        }
    } else {
        let h = seq![s[0]];
        let t = s.drop_first();
        assert(by_start(t)) by {
            assert forall|i: int, j: int| 0 <= i < j < t.len() implies #[trigger] t[i].start_tick
                <= #[trigger] t[j].start_tick by {
                assert(t[i] == s[i + 1] && t[j] == s[j + 1]);
            }
        }
        lemma_insert_filter(t, e, k);
        assert(s =~= h + t);
        assert((h + insert_by_start(t, e)).filter(starts_at(k)) == h.filter(starts_at(k)) + insert_by_start(
            t,
            e,
        ).filter(starts_at(k)));
        assert((h + t).filter(starts_at(k)) == h.filter(starts_at(k)) + t.filter(starts_at(k)));
        if e.start_tick == k {
            assert(h.filter(starts_at(k)) + t.filter(starts_at(k)).push(e) =~= (h.filter(starts_at(k)) + t.filter(
                starts_at(k),
            )).push(e));
        }
    }
}

/// The sort is stable: the events that start at any one tick come out in the
/// order they were given.
pub proof fn lemma_sort_by_start_stable(s: Seq<FlybyChannelEvent>, k: u32)
    ensures
        sort_by_start(s).filter(starts_at(k)) == s.filter(starts_at(k)),
    decreases s.len(),
{
    reveal(Seq::filter);
    if s.len() > 0 {
        lemma_sort_by_start_stable(s.drop_last(), k);
        lemma_sort_by_start(s.drop_last());
        lemma_insert_filter(sort_by_start(s.drop_last()), s.last(), k);
    } else {
        assert(sort_by_start(s) =~= s);
    }
}

/// Sorting a channel's events orders them by start tick and keeps exactly the
/// events it was given.
pub proof fn lemma_sort_by_start(s: Seq<FlybyChannelEvent>)
    ensures
        by_start(sort_by_start(s)),
        sort_by_start(s).to_multiset() == s.to_multiset(),
    decreases s.len(),
{
    broadcast use vstd::seq_lib::to_multiset_build;

    if s.len() > 0 {
        lemma_sort_by_start(s.drop_last());
        lemma_insert_sorted(sort_by_start(s.drop_last()), s.last());
        lemma_insert_multiset(sort_by_start(s.drop_last()), s.last());
        assert(s.drop_last().push(s.last()) =~= s);
    } else {
        assert(sort_by_start(s) =~= s);
    }
}

/// Tooltip ticks moved from relative to absolute: each shifted by `start`.
pub fn offset_tooltips(tooltips: &mut Vec<FlybyTooltip>, start: u32)
    requires
        forall|i: int| 0 <= i < old(tooltips)@.len() ==> (#[trigger] old(tooltips)@[i]).tick + start <= u32::MAX,
    ensures
        final(tooltips)@.len() == old(tooltips)@.len(),
        forall|i: int|
            0 <= i < final(tooltips)@.len() ==> (#[trigger] final(tooltips)@[i]) == (FlybyTooltip {
                tick: (old(tooltips)@[i].tick + start) as u32,
                tooltip_id: old(tooltips)@[i].tooltip_id,
            }),
{
    let n = tooltips.len();
    let mut i: usize = 0;
    while i < n
        invariant
            n == old(tooltips)@.len(),
            tooltips@.len() == n,
            0 <= i <= n,
            forall|k: int| 0 <= k < n ==> (#[trigger] old(tooltips)@[k]).tick + start <= u32::MAX,
            forall|k: int|
                0 <= k < i ==> (#[trigger] tooltips@[k]) == (FlybyTooltip {
                    tick: (old(tooltips)@[k].tick + start) as u32,
                    tooltip_id: old(tooltips)@[k].tooltip_id,
                }),
            forall|k: int| i <= k < n ==> (#[trigger] tooltips@[k]) == old(tooltips)@[k],
        decreases n - i,
    {
        let t = tooltips[i];
        tooltips.set(i, FlybyTooltip { tick: t.tick + start, tooltip_id: t.tooltip_id });
        i = i + 1;
    }
}

/// Index of the first tooltip at `tick`, if any.
pub open spec fn first_at(s: Seq<FlybyTooltip>, tick: u32) -> Option<int>
    decreases s.len(),
{
    if s.len() == 0 {
        None
    } else if s[0].tick == tick {
        Some(0)
    } else {
        match first_at(s.drop_first(), tick) {
            Some(i) => Some(i + 1),
            None => None,
        }
    }
}

proof fn lemma_first_at(s: Seq<FlybyTooltip>, tick: u32)
    ensures
        match first_at(s, tick) {
            Some(i) => 0 <= i < s.len() && s[i].tick == tick && forall|j: int| 0 <= j < i ==> s[j].tick != tick,
            None => forall|j: int| 0 <= j < s.len() ==> s[j].tick != tick,
        },
    decreases s.len(),
{
    if s.len() > 0 {
        lemma_first_at(s.drop_first(), tick);
        if s[0].tick != tick {
            assert forall|j: int| 1 <= j < s.len() implies s[j] == s.drop_first()[j - 1] by {}
        }
    }
}

/// The tooltips due at `tick` that were not shown yet: tooltips are shown once
/// per tick, so this is the first tooltip at `tick` when none was shown there,
/// and nothing otherwise; the tick is then recorded as shown.
pub fn pending_tooltips(tooltips: &Vec<FlybyTooltip>, shown: &mut HashSet<u32>, tick: u32) -> (r: Vec<i32>)
    ensures
        match first_at(tooltips@, tick) {
            Some(i) => if old(shown)@.contains(tick) {
                r@ == Seq::<i32>::empty() && final(shown)@ == old(shown)@
            } else {
                r@ == seq![tooltips@[i].tooltip_id] && final(shown)@ == old(shown)@.insert(tick)
            },
            None => r@ == Seq::<i32>::empty() && final(shown)@ == old(shown)@,
        },
{
    proof {
        lemma_first_at(tooltips@, tick);
    }
    let mut result: Vec<i32> = Vec::new();
    let n = tooltips.len();
    let mut i: usize = 0;
    while i < n
        invariant
            n == tooltips@.len(),
            0 <= i <= n,
            match first_at(tooltips@, tick) {
                Some(f) => if i <= f || old(shown)@.contains(tick) {
                    result@ == Seq::<i32>::empty() && shown@ == old(shown)@
                } else {
                    result@ == seq![tooltips@[f].tooltip_id] && shown@ == old(shown)@.insert(tick)
                },
                None => result@ == Seq::<i32>::empty() && shown@ == old(shown)@,
            },
            match first_at(tooltips@, tick) {
                Some(f) => 0 <= f < n && tooltips@[f].tick == tick && forall|j: int|
                    0 <= j < f ==> tooltips@[j].tick != tick,
                None => forall|j: int| 0 <= j < n ==> tooltips@[j].tick != tick,
            },
        decreases n - i,
    {
        let t = tooltips[i];
        if t.tick == tick && !shown.contains(&t.tick) {
            result.push(t.tooltip_id);
            shown.insert(t.tick);
        }
        i = i + 1;
    }
    result
}

} // verus!
