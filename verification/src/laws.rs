//! Laws of the range aggregation state machine, stated over whole event
//! sequences: a run of same-pattern matches within tolerance forms exactly one
//! range; a gap beyond tolerance splits it in two; a different pattern closes
//! the open range at once; and whatever is still open when input ends is
//! flushed as the final record, exactly once.

use vstd::prelude::*;

use crate::aggregate::AggModel;
use crate::aggregate::Event;
use crate::aggregate::GAP_TOLERANCE_MILLIS;
use crate::aggregate::SpecRange;
use crate::aggregate::flush_spec;
use crate::aggregate::init_model;
use crate::aggregate::lemma_run_append;
use crate::aggregate::opt_to_seq;
use crate::aggregate::run_spec;
use crate::aggregate::sat_inc;
use crate::aggregate::scan_spec;
use crate::aggregate::step_spec;

verus! {

/// `n` saturating increments from `c`.
pub open spec fn sat_add(c: int, n: int) -> int {
    if c + n <= u64::MAX {
        c + n
    } else {
        u64::MAX as int
    }
}

/// Every event carries a timestamp, matches pattern `k`, and consecutive
/// timestamps never drift apart by more than the gap tolerance.
pub open spec fn uniform_events(evs: Seq<Event>, k: int) -> bool {
    &&& forall|i: int| 0 <= i < evs.len() ==> (#[trigger] evs[i]).ts is Some
    &&& forall|i: int| 0 <= i < evs.len() ==> (#[trigger] evs[i]).pat == Some(k)
    &&& forall|i: int|
        1 <= i < evs.len() ==> (#[trigger] evs[i]).ts->0 - evs[i - 1].ts->0
            <= GAP_TOLERANCE_MILLIS
}

/// Events matching the open range's pattern, each within tolerance of the
/// last, only extend it: nothing is emitted, the start stays, the end follows
/// the last timestamp, and the count grows by one per event.
pub proof fn lemma_extend_run(m: AggModel, evs: Seq<Event>, k: int)
    requires
        uniform_events(evs, k),
        m.open matches Some(r) && r.pattern_index == k && 0 <= r.match_count <= u64::MAX,
        evs.len() > 0 ==> evs[0].ts->0 - m.open->0.end <= GAP_TOLERANCE_MILLIS,
    ensures
        run_spec(m, evs).1 == Seq::<SpecRange>::empty(),
        run_spec(m, evs).0.open == Some(
            SpecRange {
                start: m.open->0.start,
                end: if evs.len() == 0 {
                    m.open->0.end
                } else {
                    evs[evs.len() - 1].ts->0
                },
                pattern_index: k,
                match_count: sat_add(m.open->0.match_count, evs.len() as int),
            },
        ),
        run_spec(m, evs).0.last == if evs.len() == 0 {
            m.last
        } else {
            Some(evs[evs.len() - 1].ts->0)
        },
    decreases evs.len(),
{
    let r = m.open->0;
    if evs.len() == 0 {
        assert(run_spec(m, evs).0.open == Some(
            SpecRange {
                start: r.start,
                end: r.end,
                pattern_index: k,
                match_count: sat_add(r.match_count, 0),
            },
        ));
    } else {
        let ev = evs[0];
        let t = ev.ts->0;
        let s = step_spec(m, ev);
        let r1 = SpecRange {
            start: r.start,
            end: t,
            pattern_index: k,
            match_count: sat_inc(r.match_count),
        };
        assert(s.0 == AggModel { open: Some(r1), last: Some(t) });
        assert(s.1 is None);
        let rest = evs.skip(1);
        assert forall|i: int| 0 <= i < rest.len() implies (#[trigger] rest[i]).ts is Some && rest[i].pat
            == Some(k) by {
            assert(rest[i] == evs[i + 1]);
        }
        assert forall|i: int|
            1 <= i < rest.len() implies (#[trigger] rest[i]).ts->0 - rest[i - 1].ts->0
            <= GAP_TOLERANCE_MILLIS by {
            assert(rest[i] == evs[i + 1]);
            assert(rest[i - 1] == evs[i]);
        }
        if rest.len() > 0 {
            assert(rest[0] == evs[1]);
        }
        lemma_extend_run(s.0, rest, k);
        assert(opt_to_seq(s.1) + run_spec(s.0, rest).1 =~= Seq::<SpecRange>::empty());
        if rest.len() > 0 {
            assert(rest[rest.len() - 1] == evs[evs.len() - 1]);
        }
        assert(sat_add(sat_inc(r.match_count), rest.len() as int) == sat_add(
            r.match_count,
            evs.len() as int,
        ));
    }
}

/// A uniform run of events arriving while no range is open, or while the open
/// range lies more than the gap tolerance before the first of them, emits
/// exactly that stale range (if any) and leaves a single new range open,
/// spanning the run's first to last timestamp and counting every event.
pub proof fn lemma_uniform_run(m: AggModel, evs: Seq<Event>, k: int)
    requires
        uniform_events(evs, k),
        evs.len() >= 1,
        match m.open {
            None => true,
            Some(r) => evs[0].ts->0 - r.end > GAP_TOLERANCE_MILLIS,
        },
    ensures
        run_spec(m, evs).1 == flush_spec(m),
        run_spec(m, evs).0.open == Some(
            SpecRange {
                start: evs[0].ts->0,
                end: evs[evs.len() - 1].ts->0,
                pattern_index: k,
                match_count: sat_add(1, evs.len() - 1),
            },
        ),
        run_spec(m, evs).0.last == Some(evs[evs.len() - 1].ts->0),
{
    let ev = evs[0];
    let t = ev.ts->0;
    let s = step_spec(m, ev);
    let fresh = SpecRange { start: t, end: t, pattern_index: k, match_count: 1 };
    assert(s.0 == AggModel { open: Some(fresh), last: Some(t) });
    assert(opt_to_seq(s.1) =~= flush_spec(m));
    let rest = evs.skip(1);
    assert forall|i: int| 0 <= i < rest.len() implies (#[trigger] rest[i]).ts is Some && rest[i].pat
        == Some(k) by {
        assert(rest[i] == evs[i + 1]);
    }
    assert forall|i: int|
        1 <= i < rest.len() implies (#[trigger] rest[i]).ts->0 - rest[i - 1].ts->0
        <= GAP_TOLERANCE_MILLIS by {
        assert(rest[i] == evs[i + 1]);
        assert(rest[i - 1] == evs[i]);
    }
    if rest.len() > 0 {
        assert(rest[0] == evs[1]);
    }
    lemma_extend_run(s.0, rest, k);
    assert(run_spec(m, evs).1 =~= flush_spec(m));
    if rest.len() > 0 {
        assert(rest[rest.len() - 1] == evs[evs.len() - 1]);
    }
}

/// A sequence of timestamped lines, all matching pattern `k`, consecutive
/// timestamps within the gap tolerance, scans to exactly one range: from the
/// first to the last timestamp, counting every line, flushed once at end of
/// input.
pub proof fn lemma_single_range(evs: Seq<Event>, k: int)
    requires
        uniform_events(evs, k),
        1 <= evs.len() <= u64::MAX,
    ensures
        scan_spec(evs) == seq![
            SpecRange {
                start: evs[0].ts->0,
                end: evs[evs.len() - 1].ts->0,
                pattern_index: k,
                match_count: evs.len() as int,
            },
        ],
{
    lemma_uniform_run(init_model(), evs, k);
    let r = run_spec(init_model(), evs);
    assert(r.1 =~= Seq::<SpecRange>::empty());
    assert(sat_add(1, evs.len() - 1) == evs.len() as int);
    assert(scan_spec(evs) =~= seq![
        SpecRange {
            start: evs[0].ts->0,
            end: evs[evs.len() - 1].ts->0,
            pattern_index: k,
            match_count: evs.len() as int,
        },
    ]);
}

/// Two uniform runs of the same pattern separated by a gap beyond tolerance
/// scan to exactly two ranges, each closed independently: the first is emitted
/// when the gap is detected, the second is flushed at end of input.
pub proof fn lemma_gap_splits(a: Seq<Event>, b: Seq<Event>, k: int)
    requires
        uniform_events(a, k),
        uniform_events(b, k),
        1 <= a.len() <= u64::MAX,
        1 <= b.len() <= u64::MAX,
        b[0].ts->0 - a[a.len() - 1].ts->0 > GAP_TOLERANCE_MILLIS,
    ensures
        scan_spec(a + b) == seq![
            SpecRange {
                start: a[0].ts->0,
                end: a[a.len() - 1].ts->0,
                pattern_index: k,
                match_count: a.len() as int,
            },
            SpecRange {
                start: b[0].ts->0,
                end: b[b.len() - 1].ts->0,
                pattern_index: k,
                match_count: b.len() as int,
            },
        ],
{
    lemma_run_append(init_model(), a, b);
    lemma_uniform_run(init_model(), a, k);
    let ma = run_spec(init_model(), a).0;
    lemma_uniform_run(ma, b, k);
    let ra = SpecRange {
        start: a[0].ts->0,
        end: a[a.len() - 1].ts->0,
        pattern_index: k,
        match_count: a.len() as int,
    };
    let rb = SpecRange {
        start: b[0].ts->0,
        end: b[b.len() - 1].ts->0,
        pattern_index: k,
        match_count: b.len() as int,
    };
    assert(sat_add(1, a.len() - 1) == a.len() as int);
    assert(sat_add(1, b.len() - 1) == b.len() as int);
    assert(run_spec(init_model(), a).1 =~= Seq::<SpecRange>::empty());
    assert(run_spec(ma, b).1 =~= seq![ra]);
    assert(scan_spec(a + b) =~= seq![ra, rb]);
}

/// A line matching a different pattern than the open range's, within the gap
/// tolerance, closes the open range with its accumulated count and opens a new
/// range starting at that line's timestamp.
pub proof fn lemma_pattern_switch(m: AggModel, ev: Event, j: int)
    requires
        (m.open is Some),
        (ev.ts is Some),
        ev.ts->0 - m.open->0.end <= GAP_TOLERANCE_MILLIS,
        ev.pat == Some(j),
        j != m.open->0.pattern_index,
    ensures
        step_spec(m, ev).1 == Some(m.open->0),
        step_spec(m, ev).0 == (AggModel {
            open: Some(
                SpecRange {
                    start: ev.ts->0,
                    end: ev.ts->0,
                    pattern_index: j,
                    match_count: 1,
                },
            ),
            last: Some(ev.ts->0),
        }),
{
}

} // verus!
