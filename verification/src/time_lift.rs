//! The composition lift: from clock times to bare 24-hour clock values,
//! and from bare clock values to absolute UTC instants anchored on a
//! calendar date in the author's local timezone.  This is the single
//! place where an undefined local time (a reading that does not exist on
//! that date under that zone's rules) is silently dropped: extraction is
//! best-effort, such a candidate is no error.

use vstd::prelude::*;
use crate::time_components::TimeComponents;
use crate::time_components::spec_to_24h_hour;
use crate::zones::zone_combine;
use crate::zones::zone_known;
use crate::zones::utc_representable;
use crate::zones::zone_local_to_utc;

verus! {

/// The bare 24-hour reading of a clock time: hour and minute, meridiem
/// tag discarded.
pub open spec fn spec_bare_clock(t: TimeComponents) -> (int, int) {
    (spec_to_24h_hour(t.spec_hour() as int, t.spec_kind()), t.spec_minute() as int)
}

/// The bare readings of a sequence of clock times.
pub open spec fn spec_bare_clocks(ts: Seq<TimeComponents>) -> Seq<(int, int)> {
    Seq::new(ts.len(), |i: int| spec_bare_clock(ts[i]))
}

/// The instants a sequence of bare clock values denotes on the date
/// `today` in `zone`, in order, undefined combinations dropped.
pub open spec fn spec_lift_to_instant(cs: Seq<(int, int)>, zone: Seq<char>, today: int) -> Seq<int>
    decreases cs.len(),
{
    if cs.len() == 0 {
        Seq::empty()
    } else {
        let rest = spec_lift_to_instant(cs.drop_last(), zone, today);
        match zone_local_to_utc(zone, today, cs.last().0, cs.last().1) {
            Some(t) => rest.push(t),
            None => rest,
        }
    }
}

/// The instants a sequence of clock times denotes: both lift stages
/// composed.
pub open spec fn spec_lift_times(ts: Seq<TimeComponents>, zone: Seq<char>, today: int) -> Seq<
    int,
> {
    spec_lift_to_instant(spec_bare_clocks(ts), zone, today)
}

/// The integer readings of a vector of instants.
pub open spec fn spec_instants_view(v: Seq<i64>) -> Seq<int> {
    Seq::new(v.len(), |i: int| v[i] as int)
}

/// First lift stage: normalize every clock time to its 24-hour reading
/// and discard the meridiem tag.
pub fn lift_to_bare_clock(times: &Vec<TimeComponents>) -> (r: Vec<(u32, u32)>)
    ensures
        r@.len() == times@.len(),
        forall|i: int|
            0 <= i < times@.len() ==> ((#[trigger] r@[i]).0 as int, r@[i].1 as int)
                == spec_bare_clock(times@[i]) && r@[i].0 < 24 && r@[i].1 < 60,
{
    let mut r: Vec<(u32, u32)> = Vec::new();
    let mut i: usize = 0;
    while i < times.len()
        invariant
            0 <= i <= times@.len(),
            r@.len() == i,
            forall|j: int|
                0 <= j < i ==> ((#[trigger] r@[j]).0 as int, r@[j].1 as int) == spec_bare_clock(
                    times@[j],
                ) && r@[j].0 < 24 && r@[j].1 < 60,
        decreases times@.len() - i,
    {
        let t24 = times[i].to_24h();
        r.push((t24.hour(), t24.minute()));
        i = i + 1;
    }
    r
}

/// Second lift stage: anchor every bare clock value to the date `today`
/// in `zone` and convert to a UTC instant; undefined combinations are
/// dropped.
pub fn lift_to_instant(clocks: &Vec<(u32, u32)>, zone: &str, today: i64) -> (r: Vec<i64>)
    requires
        zone_known(zone@),
        forall|i: int|
            0 <= i < clocks@.len() ==> (#[trigger] clocks@[i]).0 < 24 && clocks@[i].1 < 60,
    ensures
        spec_instants_view(r@) == spec_lift_to_instant(
            Seq::new(clocks@.len(), |i: int| ((clocks@[i].0 as int, clocks@[i].1 as int))),
            zone@,
            today as int,
        ),
        forall|k: int| 0 <= k < r@.len() ==> utc_representable(#[trigger] r@[k] as int),
{
    let ghost cs = Seq::new(clocks@.len(), |i: int| ((clocks@[i].0 as int, clocks@[i].1 as int)));
    let mut r: Vec<i64> = Vec::new();
    let mut i: usize = 0;
    while i < clocks.len()
        invariant
            0 <= i <= clocks@.len(),
            zone_known(zone@),
            forall|j: int|
                0 <= j < clocks@.len() ==> (#[trigger] clocks@[j]).0 < 24 && clocks@[j].1 < 60,
            cs == Seq::new(
                clocks@.len(),
                |j: int| ((clocks@[j].0 as int, clocks@[j].1 as int)),
            ),
            spec_instants_view(r@) == spec_lift_to_instant(cs.take(i as int), zone@, today as int),
            forall|k: int| 0 <= k < r@.len() ==> utc_representable(#[trigger] r@[k] as int),
        decreases clocks@.len() - i,
    {
        proof {
            assert(cs.take(i + 1).drop_last() =~= cs.take(i as int));
            assert(cs.take(i + 1).last() == cs[i as int]);
        }
        let c = clocks[i];
        match zone_combine(zone, today, c.0, c.1) {
            Some(t) => {
                r.push(t);
                proof {
                    assert(spec_instants_view(r@) =~= spec_lift_to_instant(
                        cs.take(i + 1),
                        zone@,
                        today as int,
                    ));
                }
            },
            None => {
                proof {
                    assert(spec_instants_view(r@) =~= spec_lift_to_instant(
                        cs.take(i + 1),
                        zone@,
                        today as int,
                    ));
                }
            },
        }
        i = i + 1;
    }
    proof {
        assert(cs.take(cs.len() as int) =~= cs);
    }
    r
}

/// Both lift stages composed: the instants a sequence of extracted clock
/// times denotes on the date `today` in `zone`.
pub fn lift_times_to_instants(times: &Vec<TimeComponents>, zone: &str, today: i64) -> (r: Vec<
    i64,
>)
    requires
        zone_known(zone@),
    ensures
        spec_instants_view(r@) == spec_lift_times(times@, zone@, today as int),
        forall|k: int| 0 <= k < r@.len() ==> utc_representable(#[trigger] r@[k] as int),
{
    let bare = lift_to_bare_clock(times);
    let r = lift_to_instant(&bare, zone, today);
    proof {
        assert(Seq::new(bare@.len(), |i: int| ((bare@[i].0 as int, bare@[i].1 as int)))
            =~= spec_bare_clocks(times@));
    }
    r
}

/// Deduplicating a vector of instants and reading it as integers is the
/// same as reading first and deduplicating the integer sequence.
pub proof fn lemma_dedup_instants_view(v: Seq<i64>)
    ensures
        spec_instants_view(crate::text::dedup_first(v)) == crate::text::dedup_first(
            spec_instants_view(v),
        ),
    decreases v.len(),
{
    if v.len() > 0 {
        let d = v.drop_last();
        let l = v.last();
        lemma_dedup_instants_view(d);
        assert(spec_instants_view(v).drop_last() =~= spec_instants_view(d));
        assert(spec_instants_view(v).last() == l as int);
        assert(d.contains(l) == spec_instants_view(d).contains(l as int)) by {
            if d.contains(l) {
                let i = choose|i: int| 0 <= i < d.len() && d[i] == l;
                assert(spec_instants_view(d)[i] == l as int);
            }
            if spec_instants_view(d).contains(l as int) {
                let i = choose|i: int|
                    0 <= i < spec_instants_view(d).len() && spec_instants_view(d)[i] == l as int;
                assert(d[i] as int == l as int);
                assert(d[i] == l);
            }
        }
        if !d.contains(l) {
            assert(spec_instants_view(crate::text::dedup_first(v)) =~= spec_instants_view(
                crate::text::dedup_first(d),
            ).push(l as int));
        }
    } else {
        assert(spec_instants_view(crate::text::dedup_first(v)) =~= crate::text::dedup_first(
            spec_instants_view(v),
        ));
    }
}

} // verus!
