//! The metric engine: from the sets of an exercise to one value per day, and
//! from there to a chart of bounded size.
//!
//! Weights are thousandths of a unit, so every value here is a whole number
//! of thousandths: of a unit for weights and estimates, of unit-reps for
//! volumes. Sums that pass the range of `u64` stop at its largest value.
//! Observations are grouped by calendar day.

use vstd::prelude::*;
use crate::models::{GraphPoint, Metric, SetData};
use crate::time::{iso_date_text, Day};
use crate::weight::Weight;

verus! {

/// The Epley estimate of the one-repetition maximum, in thousandths: the
/// weight itself for at most one rep, else the weight times `1 + reps / 30`,
/// rounded down.
pub open spec fn epley(milli: nat, reps: int) -> nat {
    if reps <= 1 {
        milli
    } else {
        (milli * (30 + reps) / 30) as nat
    }
}

/// The volume of a set: weight times reps; nothing without reps.
pub open spec fn set_volume(milli: nat, reps: int) -> nat {
    if reps <= 0 {
        0
    } else {
        (milli * reps) as nat
    }
}

/// What one set counts for under a metric.
pub open spec fn set_score(metric: Metric, s: SetData) -> nat {
    match metric {
        Metric::MaxWeight => s.weight.milli as nat,
        Metric::SessionTotalVolume => set_volume(s.weight.milli as nat, s.reps as int),
        Metric::BestSetVolume => set_volume(s.weight.milli as nat, s.reps as int),
        Metric::Est1Rm => epley(s.weight.milli as nat, s.reps as int),
    }
}

/// Whether the sets of a day are added up under the metric; else the best
/// set counts.
pub open spec fn adds_within_day(metric: Metric) -> bool {
    metric == Metric::SessionTotalVolume
}

/// Whether the days of a bucket are added up under the metric; else the
/// best day counts. Volumes are added, peaks are kept.
pub open spec fn adds_across_days(metric: Metric) -> bool {
    metric == Metric::SessionTotalVolume || metric == Metric::BestSetVolume
}

/// The larger of two numbers.
pub open spec fn larger(a: nat, b: nat) -> nat {
    if a >= b {
        a
    } else {
        b
    }
}

/// `x` kept within the range of `u64`.
pub open spec fn capped(x: nat) -> u64 {
    if x > u64::MAX {
        u64::MAX
    } else {
        x as u64
    }
}

/// The value of a group of sets under a metric: the sum of what they count
/// for where the metric adds up, else the most any of them counts for; 0 for
/// no sets.
pub open spec fn day_total(metric: Metric, sets: Seq<SetData>) -> nat
    decreases sets.len(),
{
    if sets.len() == 0 {
        0
    } else if adds_within_day(metric) {
        day_total(metric, sets.drop_last()) + set_score(metric, sets.last())
    } else {
        larger(day_total(metric, sets.drop_last()), set_score(metric, sets.last()))
    }
}

/// The sets done on day `day`, in the order given.
pub open spec fn sets_on(sets: Seq<SetData>, day: int) -> Seq<SetData>
    decreases sets.len(),
{
    if sets.len() == 0 {
        Seq::empty()
    } else if sets.last().date@ == day {
        sets_on(sets.drop_last(), day).push(sets.last())
    } else {
        sets_on(sets.drop_last(), day)
    }
}

/// In a run of days in ascending order, the index of the first day that is
/// not before `day`; the length of the run if all are before it.
pub open spec fn day_position(days: Seq<int>, day: int) -> int
    decreases days.len(),
{
    if days.len() == 0 {
        0
    } else if days.last() < day {
        days.len() as int
    } else {
        day_position(days.drop_last(), day)
    }
}

/// A run of days in ascending order with `day` in it, once.
pub open spec fn with_day(days: Seq<int>, day: int) -> Seq<int> {
    let p = day_position(days, day);
    if p < days.len() && days[p] == day {
        days
    } else {
        days.insert(p, day)
    }
}

/// The days on which any of the sets was done, each once, in ascending
/// order.
pub open spec fn days_of(sets: Seq<SetData>) -> Seq<int>
    decreases sets.len(),
{
    if sets.len() == 0 {
        Seq::empty()
    } else {
        with_day(days_of(sets.drop_last()), sets.last().date@)
    }
}

/// Strictly ascending.
pub open spec fn ascending(days: Seq<int>) -> bool {
    forall|i: int, j: int| 0 <= i < j < days.len() ==> days[i] < days[j]
}

/// The series of a metric over the sets: one entry per day on which a set
/// was done, in ascending order of the days, each with the value of that
/// day's sets.
pub open spec fn daily_series(sets: Seq<SetData>, metric: Metric) -> Seq<(int, u64)> {
    Seq::new(
        days_of(sets).len(),
        |p: int| (days_of(sets)[p], capped(day_total(metric, sets_on(sets, days_of(sets)[p])))),
    )
}

/// The value that stands for a bucket of daily values: their sum where the
/// metric adds up across days, else the largest of them.
pub open spec fn bucket_value(metric: Metric, values: Seq<(int, u64)>) -> nat
    decreases values.len(),
{
    if values.len() == 0 {
        0
    } else if adds_across_days(metric) {
        bucket_value(metric, values.drop_last()) + values.last().1 as nat
    } else {
        larger(bucket_value(metric, values.drop_last()), values.last().1 as nat)
    }
}

/// A point of a chart, as mathematics.
pub ghost struct PointModel {
    pub date: Seq<char>,
    pub value: u64,
}

impl View for GraphPoint {
    type V = PointModel;

    open spec fn view(&self) -> PointModel {
        PointModel { date: self.date@, value: self.value }
    }
}

/// The models of a run of points, in order.
pub open spec fn points_view(points: Seq<GraphPoint>) -> Seq<PointModel> {
    Seq::new(points.len(), |i: int| points[i]@)
}

/// The days and values of a series, in order.
pub open spec fn series_view(points: Seq<(Day, u64)>) -> Seq<(int, u64)> {
    Seq::new(points.len(), |i: int| (points[i].0@, points[i].1))
}

/// The point for a day and a value.
pub open spec fn point_of(day: int, value: u64) -> PointModel {
    PointModel { date: iso_date_text(day), value }
}

/// A series as points, one for one.
pub open spec fn as_points(series: Seq<(int, u64)>) -> Seq<PointModel> {
    Seq::new(series.len(), |i: int| point_of(series[i].0, series[i].1))
}

/// The size of the buckets that bring `count` entries down to at most
/// `max_points` points: `count / max_points`, rounded up.
pub open spec fn bucket_size(count: nat, max_points: nat) -> nat
    recommends
        max_points > 0,
{
    if count % max_points == 0 {
        count / max_points
    } else {
        count / max_points + 1
    }
}

/// The series cut into consecutive buckets of `size` entries, the last one
/// maybe shorter, each bucket giving one point: the day of its first entry
/// and the value that stands for the bucket.
pub open spec fn bucketed(series: Seq<(int, u64)>, size: nat, metric: Metric) -> Seq<PointModel>
    decreases series.len(),
{
    if series.len() == 0 || size == 0 {
        Seq::empty()
    } else {
        let k = if size < series.len() {
            size as int
        } else {
            series.len() as int
        };
        seq![point_of(series[0].0, capped(bucket_value(metric, series.take(k))))] + bucketed(
            series.skip(k),
            size,
            metric,
        )
    }
}

/// The chart of a series under a budget of `max_points` points: nothing for
/// an empty series or no budget; the series itself, point for point, if it
/// fits; else its buckets.
pub open spec fn downsampled(series: Seq<(int, u64)>, max_points: nat, metric: Metric) -> Seq<
    PointModel,
> {
    if series.len() == 0 || max_points == 0 {
        Seq::empty()
    } else if series.len() <= max_points {
        as_points(series)
    } else {
        bucketed(series, bucket_size(series.len(), max_points), metric)
    }
}

/// The chart of a metric over the sets of an exercise.
pub open spec fn graph_of(sets: Seq<SetData>, metric: Metric, max_points: nat) -> Seq<
    PointModel,
> {
    if sets.len() == 0 || max_points == 0 {
        Seq::empty()
    } else {
        downsampled(daily_series(sets, metric), max_points, metric)
    }
}

/// The position of a day lies in range; the days before it are before the
/// day, and those from it on are not.
pub proof fn lemma_day_position(days: Seq<int>, day: int)
    requires
        ascending(days),
    ensures
        0 <= day_position(days, day) <= days.len(),
        forall|j: int| 0 <= j < day_position(days, day) ==> days[j] < day,
        forall|j: int| day_position(days, day) <= j < days.len() ==> days[j] >= day,
    decreases days.len(),
{
    if days.len() > 0 && days.last() >= day {
        let rest = days.drop_last();
        lemma_day_position(rest, day);
        assert forall|j: int| 0 <= j < day_position(days, day) implies days[j] < day by {
            assert(rest[j] == days[j]);
        }
        assert forall|j: int| day_position(days, day) <= j < days.len() implies days[j]
            >= day by {
            if j < rest.len() {
                assert(rest[j] == days[j]);
            }
        }
    }
}

/// An index that parts the days before `day` from the rest is its position.
pub proof fn lemma_day_position_is(days: Seq<int>, day: int, p: int)
    requires
        ascending(days),
        0 <= p <= days.len(),
        forall|j: int| 0 <= j < p ==> days[j] < day,
        p < days.len() ==> days[p] >= day,
    ensures
        day_position(days, day) == p,
{
    lemma_day_position(days, day);
    let q = day_position(days, day);
    if q < p {
        assert(days[q] >= day);
    }
}

/// Putting a day into an ascending run keeps it ascending, and the run then
/// holds the day and what it held before, nothing else.
pub proof fn lemma_with_day(days: Seq<int>, day: int)
    requires
        ascending(days),
    ensures
        ascending(with_day(days, day)),
        with_day(days, day).contains(day),
        forall|d: int| with_day(days, day).contains(d) <==> (d == day || days.contains(d)),
{
    lemma_day_position(days, day);
    let p = day_position(days, day);
    let r = with_day(days, day);
    if !(p < days.len() && days[p] == day) {
        assert(r[p] == day);
        assert forall|d: int| r.contains(d) <==> (d == day || days.contains(d)) by {
            if days.contains(d) {
                let i = choose|i: int| 0 <= i < days.len() && days[i] == d;
                if i < p {
                    assert(r[i] == d);
                } else {
                    assert(r[i + 1] == d);
                }
            }
        }
    }
}

/// The days of the sets are in strictly ascending order, and a day is among
/// them exactly if a set was done on it.
pub proof fn lemma_days_of(sets: Seq<SetData>)
    ensures
        ascending(days_of(sets)),
        forall|d: int|
            days_of(sets).contains(d) <==> exists|i: int|
                0 <= i < sets.len() && (#[trigger] sets[i]).date@ == d,
    decreases sets.len(),
{
    if sets.len() > 0 {
        let rest = sets.drop_last();
        lemma_days_of(rest);
        lemma_with_day(days_of(rest), sets.last().date@);
        let last = sets.last().date@;
        assert forall|d: int|
            days_of(sets).contains(d) <==> exists|i: int|
                0 <= i < sets.len() && (#[trigger] sets[i]).date@ == d by {
            assert(with_day(days_of(rest), last).contains(d) <==> (d == last || days_of(
                rest,
            ).contains(d)));
            if exists|i: int| 0 <= i < sets.len() && (#[trigger] sets[i]).date@ == d {
                let i = choose|i: int| 0 <= i < sets.len() && (#[trigger] sets[i]).date@ == d;
                if i < rest.len() {
                    assert(rest[i].date@ == d);
                }
            }
        }
    }
}

/// No set was done on a day that is not among the days of the sets.
pub proof fn lemma_no_sets_on(sets: Seq<SetData>, day: int)
    requires
        !days_of(sets).contains(day),
    ensures
        sets_on(sets, day).len() == 0,
    decreases sets.len(),
{
    if sets.len() > 0 {
        let rest = sets.drop_last();
        lemma_days_of(rest);
        lemma_with_day(days_of(rest), sets.last().date@);
        lemma_no_sets_on(rest, day);
    }
}

/// What one set counts for fits in 63 bits.
pub proof fn lemma_score_fits(metric: Metric, s: SetData)
    ensures
        set_score(metric, s) <= 0x7fff_ffff_ffff_ffff,
{
    let w = s.weight.milli as int;
    let r = s.reps as int;
    if r > 0 {
        assert(w * r <= 0xffff_ffff * 0x7fff_ffff) by (nonlinear_arith)
            requires
                0 <= w <= 0xffff_ffff,
                0 < r <= 0x7fff_ffff,
        ;
        assert(w * (30 + r) <= 0xffff_ffff * 0x8000_001d) by (nonlinear_arith)
            requires
                0 <= w <= 0xffff_ffff,
                0 < r <= 0x7fff_ffff,
        ;
    }
}

/// The Epley estimate of the one-repetition maximum, in thousandths.
pub fn estimate_1rm(weight: Weight, reps: i32) -> (value: u64)
    ensures
        value == epley(weight.milli as nat, reps as int),
{
    if reps <= 1 {
        weight.milli as u64
    } else {
        let factor: u64 = 30 + reps as u64;
        assert(weight.milli * factor <= 0xffff_ffff * 0x8000_001d) by (nonlinear_arith)
            requires
                0 <= weight.milli <= 0xffff_ffff,
                0 <= factor <= 0x8000_001d,
        ;
        (weight.milli as u64) * factor / 30
    }
}

/// What one set counts for under a metric.
pub fn score(metric: Metric, s: &SetData) -> (value: u64)
    ensures
        value == set_score(metric, *s),
        value <= 0x7fff_ffff_ffff_ffff,
{
    proof {
        lemma_score_fits(metric, *s);
    }
    match metric {
        Metric::MaxWeight => s.weight.milli as u64,
        Metric::SessionTotalVolume | Metric::BestSetVolume => {
            if s.reps <= 0 {
                0
            } else {
                (s.weight.milli as u64) * (s.reps as u64)
            }
        },
        Metric::Est1Rm => estimate_1rm(s.weight, s.reps),
    }
}

/// Takes one more set into the running value of a day.
fn take_into_day(metric: Metric, acc: u64, value: u64) -> (r: u64)
    ensures
        adds_within_day(metric) ==> r == capped((acc + value) as nat),
        !adds_within_day(metric) ==> r == larger(acc as nat, value as nat),
{
    match metric {
        Metric::SessionTotalVolume => acc.saturating_add(value),
        _ => if acc >= value {
            acc
        } else {
            value
        },
    }
}

/// Takes one more day into the running value of a bucket.
fn take_into_bucket(metric: Metric, acc: u64, value: u64) -> (r: u64)
    ensures
        adds_across_days(metric) ==> r == capped((acc + value) as nat),
        !adds_across_days(metric) ==> r == larger(acc as nat, value as nat),
{
    match metric {
        Metric::SessionTotalVolume | Metric::BestSetVolume => acc.saturating_add(value),
        _ => if acc >= value {
            acc
        } else {
            value
        },
    }
}

/// The value of a group of sets under a metric.
pub fn day_metric(metric: Metric, sets: &[SetData]) -> (value: u64)
    ensures
        value == capped(day_total(metric, sets@)),
{
    let n = sets.len();
    let mut acc: u64 = 0;
    let mut i: usize = 0;
    while i < n
        invariant
            i <= n,
            n == sets.len(),
            acc == capped(day_total(metric, sets@.take(i as int))),
        decreases n - i,
    {
        assert(sets@.take(i + 1).drop_last() =~= sets@.take(i as int));
        let v = score(metric, &sets[i]);
        acc = take_into_day(metric, acc, v);
        i = i + 1;
    }
    assert(sets@.take(n as int) =~= sets@);
    acc
}

/// The number of points of a bucketed series times the bucket size stays
/// below the length of the series plus one bucket: there are as many points
/// as buckets are needed.
pub proof fn lemma_bucketed_len(series: Seq<(int, u64)>, size: nat, metric: Metric)
    requires
        size > 0,
    ensures
        bucketed(series, size, metric).len() * size < series.len() + size,
        series.len() > 0 ==> bucketed(series, size, metric).len() > 0,
    decreases series.len(),
{
    if series.len() > 0 {
        if size < series.len() {
            let rest = series.skip(size as int);
            lemma_bucketed_len(rest, size, metric);
            let m = bucketed(rest, size, metric).len();
            assert((m + 1) * size == m * size + size) by (nonlinear_arith);
        } else {
            let rest = series.skip(series.len() as int);
            assert(bucketed(rest, size, metric).len() == 0);
            assert(1 * size == size) by (nonlinear_arith);
        }
    }
}

/// Buckets of the size chosen for a budget cover the series within it.
pub proof fn lemma_bucket_size(count: nat, max_points: nat)
    requires
        max_points > 0,
    ensures
        bucket_size(count, max_points) * max_points >= count,
        count > 0 ==> bucket_size(count, max_points) > 0,
{
    let q = count / max_points;
    let r = count % max_points;
    assert(count == q * max_points + r) by (nonlinear_arith)
        requires
            max_points > 0,
            q == count / max_points,
            r == count % max_points,
    ;
    assert((q + 1) * max_points == q * max_points + max_points) by (nonlinear_arith);
}

/// A chart never has more points than its budget.
pub proof fn lemma_downsampled_len(series: Seq<(int, u64)>, max_points: nat, metric: Metric)
    ensures
        downsampled(series, max_points, metric).len() <= max_points,
        downsampled(series, max_points, metric).len() <= series.len(),
{
    if series.len() > 0 && max_points > 0 && series.len() > max_points {
        let size = bucket_size(series.len(), max_points);
        lemma_bucket_size(series.len(), max_points);
        lemma_bucketed_len(series, size, metric);
        let m = bucketed(series, size, metric).len();
        assert(m <= max_points) by (nonlinear_arith)
            requires
                m * size < series.len() + size,
                size * max_points >= series.len(),
                size > 0,
        ;
    }
}

/// Brings a series, in ascending order of its days, down to at most
/// `max_points` points.
pub fn downsample_graph_points(points: Vec<(Day, u64)>, max_points: usize, metric: Metric) -> (out:
    Vec<GraphPoint>)
    ensures
        points_view(out@) == downsampled(series_view(points@), max_points as nat, metric),
        out.len() <= max_points,
        points.len() <= max_points ==> points_view(out@) == as_points(series_view(points@)),
{
    let ghost series = series_view(points@);
    proof {
        lemma_downsampled_len(series, max_points as nat, metric);
    }
    let n = points.len();
    let mut out: Vec<GraphPoint> = Vec::new();
    if n == 0 || max_points == 0 {
        return out;
    }
    if n <= max_points {
        let mut i: usize = 0;
        while i < n
            invariant
                i <= n,
                n == points.len(),
                out.len() == i,
                series == series_view(points@),
                forall|j: int| 0 <= j < i ==> (#[trigger] out[j])@ == as_points(series)[j],
            decreases n - i,
        {
            out.push(GraphPoint { date: points[i].0.iso_text(), value: points[i].1 });
            i = i + 1;
        }
        return out;
    }
    let size: usize = if n % max_points == 0 {
        n / max_points
    } else {
        assert(n / max_points < n) by (nonlinear_arith)
            requires
                max_points >= 2,
                n > 0,
        ;
        n / max_points + 1
    };
    proof {
        lemma_bucket_size(n as nat, max_points as nat);
    }
    let mut start: usize = 0;
    assert(series.skip(0) =~= series);
    while start < n
        invariant
            start <= n,
            n == points.len(),
            size > 0,
            series == series_view(points@),
            points_view(out@) + bucketed(series.skip(start as int), size as nat, metric)
                == bucketed(series, size as nat, metric),
        decreases n - start,
    {
        let end: usize = if size < n - start {
            start + size
        } else {
            n
        };
        let ghost rest = series.skip(start as int);
        let ghost k = end - start;
        let mut acc: u64 = 0;
        let mut i: usize = start;
        while i < end
            invariant
                start <= i <= end <= n,
                n == points.len(),
                series == series_view(points@),
                rest == series.skip(start as int),
                k == end - start,
                acc == capped(bucket_value(metric, rest.take(k).take(i - start))),
            decreases end - i,
        {
            assert(rest.take(k).take(i - start + 1).drop_last() =~= rest.take(k).take(i - start));
            acc = take_into_bucket(metric, acc, points[i].1);
            i = i + 1;
        }
        assert(rest.take(k).take(k) =~= rest.take(k));
        out.push(GraphPoint { date: points[start].0.iso_text(), value: acc });
        proof {
            assert(rest.skip(k) =~= series.skip(end as int));
        }
        start = end;
    }
    out
}

/// The value of a group after one more set.
proof fn lemma_day_total_push(metric: Metric, group: Seq<SetData>, x: SetData)
    ensures
        day_total(metric, group.push(x)) == if adds_within_day(metric) {
            day_total(metric, group) + set_score(metric, x)
        } else {
            larger(day_total(metric, group), set_score(metric, x))
        },
{
    assert(group.push(x).drop_last() =~= group);
}

/// The series of a metric over the sets: one entry per day on which a set
/// was done, in ascending order of the days.
pub fn daily_values(sets: &[SetData], metric: Metric) -> (series: Vec<(Day, u64)>)
    ensures
        series_view(series@) == daily_series(sets@, metric),
        forall|i: int, j: int| 0 <= i < j < series.len() ==> series[i].0@ < series[j].0@,
{
    proof {
        lemma_days_of(sets@);
    }
    let n = sets.len();
    let mut series: Vec<(Day, u64)> = Vec::new();
    let mut i: usize = 0;
    while i < n
        invariant
            i <= n,
            n == sets.len(),
            series_view(series@) == daily_series(sets@.take(i as int), metric),
        decreases n - i,
    {
        let x = sets[i];
        let ghost prev = sets@.take(i as int);
        let ghost next = sets@.take(i + 1);
        let ghost days = days_of(prev);
        let ghost d = x.date@;
        let ghost old_series = series_view(series@);
        proof {
            assert(next.drop_last() =~= prev);
            lemma_days_of(prev);
            assert(old_series.len() == days.len());
        }
        let m = series.len();
        let mut p: usize = 0;
        while p < m && series[p].0.is_before(x.date)
            invariant
                p <= m,
                m == series.len(),
                old_series == series_view(series@),
                old_series == daily_series(prev, metric),
                days == days_of(prev),
                days.len() == m,
                d == x.date@,
                forall|j: int| 0 <= j < p ==> days[j] < d,
            decreases m - p,
        {
            assert(old_series[p as int].0 == days[p as int]);
            p = p + 1;
        }
        let v = score(metric, &x);
        proof {
            if p < m {
                assert(old_series[p as int].0 == days[p as int]);
            }
            lemma_day_position_is(days, d, p as int);
        }
        if p < m && series[p].0.same_as(x.date) {
            let updated = take_into_day(metric, series[p].1, v);
            let day = series[p].0;
            series[p] = (day, updated);
            proof {
                assert forall|q: int| 0 <= q < days.len() implies series_view(series@)[q]
                    == daily_series(next, metric)[q] by {
                    assert(old_series[q] == daily_series(prev, metric)[q]);
                    if q == p {
                        lemma_day_total_push(metric, sets_on(prev, d), x);
                    }
                }
            }
        } else {
            let fresh = take_into_day(metric, 0, v);
            series.insert(p, (x.date, fresh));
            proof {
                lemma_no_sets_on(prev, d);
                assert forall|q: int| 0 <= q < days.len() + 1 implies series_view(series@)[q]
                    == daily_series(next, metric)[q] by {
                    if q == p {
                        lemma_day_total_push(metric, sets_on(prev, d), x);
                    } else if q < p {
                        assert(old_series[q] == daily_series(prev, metric)[q]);
                    } else {
                        assert(old_series[q - 1] == daily_series(prev, metric)[q - 1]);
                    }
                }
            }
        }
        i = i + 1;
    }
    assert(sets@.take(n as int) =~= sets@);
    assert forall|i: int, j: int| 0 <= i < j < series.len() implies series[i].0@
        < series[j].0@ by {
        assert(series_view(series@)[i].0 == days_of(sets@)[i]);
        assert(series_view(series@)[j].0 == days_of(sets@)[j]);
    }
    series
}

/// The chart of a metric over the sets of an exercise: the value of each
/// day on which a set was done, in ascending order of the days, brought down
/// to at most `max_points` points.
pub fn build_graph(sets: Vec<SetData>, metric: Metric, max_points: usize) -> (out: Vec<
    GraphPoint,
>)
    ensures
        points_view(out@) == graph_of(sets@, metric, max_points as nat),
        out.len() <= max_points,
{
    if sets.len() == 0 || max_points == 0 {
        return Vec::new();
    }
    let series = daily_values(sets.as_slice(), metric);
    downsample_graph_points(series, max_points, metric)
}

} // verus!
