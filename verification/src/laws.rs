//! What holds of the entry fields, the grid and the charts, whatever the
//! input: stated over the models that the operations' contracts speak of,
//! and proved.

use vstd::prelude::*;
use crate::app::AppModel;
use crate::exercise::{
    lemma_position_of_number, lemma_sort_keeps, lemma_sort_members, lemma_sort_ordered,
    ordered_by_number, position_of_number, ExerciseModel,
};
use crate::focus::Focus;
use crate::metric::{as_points, downsampled, lemma_downsampled_len};
use crate::models::{DaySets, Metric, WorkoutSet};
use crate::seqs::{any, first_index, lemma_first_index, lemma_first_index_is};
use crate::sets::SetModel;
use crate::sync::has_id;
use crate::text::{
    digit_value, is_digit, lemma_digits_value_one, lemma_digits_value_push, parse_count,
};
use crate::time::{idle_since_input, window_elapsed, Day, Now, INPUT_TIMEOUT};
use crate::weight::{is_weight_char, parse_weight, placeholder, WeightFieldModel};

verus! {

/// The field after `n` backspaces.
pub open spec fn backspaces(f: WeightFieldModel, n: nat) -> WeightFieldModel
    decreases n,
{
    if n == 0 {
        f
    } else {
        backspaces(f, (n - 1) as nat).backspace()
    }
}

/// After `n` backspaces the buffer holds what it held, less its last `n`
/// characters.
proof fn lemma_backspaces_buffer(f: WeightFieldModel, n: nat)
    ensures
        backspaces(f, n).buffer == if n <= f.buffer.len() {
            f.buffer.take(f.buffer.len() - n)
        } else {
            Seq::empty()
        },
        n > 0 ==> backspaces(f, n).wf(),
        backspaces(f, n).last_input == f.last_input,
    decreases n,
{
    if n > 0 {
        lemma_backspaces_buffer(f, (n - 1) as nat);
    }
}

/// Backspacing a weight field until its buffer is empty leaves it unset:
/// its value is 0 and it shows the placeholder, whatever it held.
pub proof fn law_backspace_until_empty(f: WeightFieldModel, n: nat)
    requires
        f.wf(),
        n >= f.buffer.len(),
    ensures
        backspaces(f, n).is_unset(),
        backspaces(f, n).value == 0,
        backspaces(f, n).display() == placeholder(),
{
    lemma_backspaces_buffer(f, n);
}

/// The exercise after `n` backspaces in the weight under the cursor, all
/// at `now`.
pub open spec fn weight_backspaces(e: ExerciseModel, n: nat, now: u64) -> ExerciseModel
    decreases n,
{
    if n == 0 {
        e
    } else {
        weight_backspaces(e, (n - 1) as nat, now).backspace_weight(now)
    }
}

/// Backspaces in the weight under the cursor act on that field alone, as
/// backspaces of the field do.
proof fn lemma_weight_backspaces(e: ExerciseModel, n: nat, now: u64)
    requires
        e.on_set(),
    ensures
        weight_backspaces(e, n, now).on_set(),
        weight_backspaces(e, n, now).cursor == e.cursor,
        weight_backspaces(e, n, now).current().weight == backspaces(e.current().weight, n),
        n > 0 ==> weight_backspaces(e, n, now).default_weight == backspaces(
            e.current().weight,
            n,
        ).value,
    decreases n,
{
    if n > 0 {
        lemma_weight_backspaces(e, (n - 1) as nat, now);
    }
}

/// Backspacing the weight under the cursor until its buffer is empty leaves
/// no weight behind: the field reads 0 and so does the seed of new sets.
pub proof fn law_backspace_weight_until_empty(e: ExerciseModel, n: nat, now: u64)
    requires
        e.wf(),
        n >= e.current().weight.buffer.len(),
    ensures
        weight_backspaces(e, n, now).current().weight.is_unset(),
        weight_backspaces(e, n, now).current().weight.value == 0,
        n > 0 ==> weight_backspaces(e, n, now).default_weight == 0,
{
    lemma_weight_backspaces(e, n, now);
    law_backspace_until_empty(e.current().weight, n);
}

/// Two keystrokes more than the debounce window apart do not join: the
/// second starts a fresh number, as if the buffer had been cleared between
/// them.
pub proof fn law_debounce_starts_fresh(
    f: WeightFieldModel,
    first: char,
    at: u64,
    second: char,
    later: u64,
)
    requires
        is_weight_char(first),
        is_weight_char(second),
        later - at > INPUT_TIMEOUT,
    ensures
        f.push_char(first, at).push_char(second, later).buffer == seq![second],
        f.push_char(first, at).push_char(second, later) == (WeightFieldModel {
            buffer: Seq::empty(),
            ..f.push_char(first, at)
        }).push_char(second, later),
        f.push_char(first, at).push_char(second, later).value == parse_weight(seq![second]),
{
}

/// Two keystrokes within the debounce window join: the second is appended
/// to what the first left.
pub proof fn law_within_window_appends(
    f: WeightFieldModel,
    first: char,
    at: u64,
    second: char,
    later: u64,
)
    requires
        is_weight_char(first),
        is_weight_char(second),
        later - at <= INPUT_TIMEOUT,
    ensures
        f.push_char(first, at).push_char(second, later).buffer == f.push_char(
            first,
            at,
        ).buffer.push(second),
{
}

/// The debounce window holds for the weight in the grid: two keystrokes to
/// the weight under the cursor more than the window apart leave only the
/// second in its buffer.
pub proof fn law_grid_weight_debounce(
    e: ExerciseModel,
    first: char,
    at: u64,
    second: char,
    later: u64,
)
    requires
        e.on_set(),
        is_weight_char(first),
        is_weight_char(second),
        later - at > INPUT_TIMEOUT,
    ensures
        e.push_weight_char(first, at).push_weight_char(second, later).current().weight.buffer
            == seq![second],
{
}

/// The debounce window holds for the reps in the grid: two digits to the
/// reps under the cursor more than the window apart leave only the second in
/// the buffer.
pub proof fn law_grid_reps_debounce(
    e: ExerciseModel,
    first: char,
    at: Now,
    second: char,
    later: Now,
)
    requires
        e.on_set(),
        is_digit(first),
        is_digit(second),
        later.tick - at.tick > INPUT_TIMEOUT,
    ensures
        e.push_reps_char(first, at).push_reps_char(second, later).current().reps_buffer
            == seq![second],
{
}

/// A buffer of one digit reads as that digit.
pub proof fn lemma_one_digit_count(ch: char)
    requires
        is_digit(ch),
    ensures
        parse_count(seq![ch]) == Some(digit_value(ch) as i32),
{
    lemma_digits_value_one(ch);
}

/// A buffer of two digits reads as ten times the first plus the second.
pub proof fn lemma_two_digit_count(a: char, b: char)
    requires
        is_digit(a),
        is_digit(b),
    ensures
        parse_count(seq![a, b]) == Some((digit_value(a) * 10 + digit_value(b)) as i32),
{
    lemma_digits_value_one(a);
    lemma_digits_value_push(seq![a], b);
    assert(seq![a].push(b) =~= seq![a, b]);
}

/// The single-key entry of reps: a digit from `3` to `9` that starts a
/// count commits that count at once, stamps the set, and tells the caller
/// to move on.
pub proof fn law_reps_fast_path(e: ExerciseModel, ch: char, now: Now)
    requires
        e.on_set(),
        '3' <= ch <= '9',
        window_elapsed(e.last_input, now.tick) || e.current().reps_buffer.len() == 0,
    ensures
        e.reps_advances(ch, now.tick),
        e.push_reps_char(ch, now).current().reps == Some(digit_value(ch) as i32),
        e.push_reps_char(ch, now).current().completed_at is Some,
        e.push_reps_char(ch, now).current().reps_buffer == seq![ch],
{
    lemma_one_digit_count(ch);
    assert(e.reps_base(now.tick) =~= Seq::<char>::empty());
}

/// A digit from `0` to `2` that starts a count is committed, but the entry
/// waits for a second digit: the caller is not told to move on.
pub proof fn law_reps_low_digit_waits(e: ExerciseModel, ch: char, now: Now)
    requires
        e.on_set(),
        '0' <= ch <= '2',
        window_elapsed(e.last_input, now.tick) || e.current().reps_buffer.len() == 0,
    ensures
        !e.reps_advances(ch, now.tick),
        e.push_reps_char(ch, now).current().reps == Some(digit_value(ch) as i32),
{
    lemma_one_digit_count(ch);
    assert(e.reps_base(now.tick) =~= Seq::<char>::empty());
}

/// A second digit within the debounce window joins the first: the count of
/// both is committed, and the caller is not told to move on.
pub proof fn law_reps_second_digit(e: ExerciseModel, a: char, at: Now, b: char, later: Now)
    requires
        e.on_set(),
        is_digit(a),
        is_digit(b),
        window_elapsed(e.last_input, at.tick) || e.current().reps_buffer.len() == 0,
        later.tick - at.tick <= INPUT_TIMEOUT,
    ensures
        !e.push_reps_char(a, at).reps_advances(b, later.tick),
        e.push_reps_char(a, at).push_reps_char(b, later).current().reps == Some(
            (digit_value(a) * 10 + digit_value(b)) as i32,
        ),
{
    lemma_two_digit_count(a, b);
    let typed = e.push_reps_char(a, at);
    assert(typed.current().reps_buffer == seq![a]);
    assert(seq![a].push(b) =~= seq![a, b]);
}

/// In the workout, a digit from `3` to `9` that starts the reps of a set
/// moves the entry on by one set, to the reps of the next set or of a set
/// appended for it.
pub proof fn law_fast_path_moves_on(a: AppModel, ch: char, now: Now)
    requires
        a.on_exercise(),
        a.current().on_set(),
        a.current().focus == Focus::Reps,
        '3' <= ch <= '9',
        !idle_since_input(a.current().last_input, now.tick),
        window_elapsed(a.current().last_input, now.tick) || a.current().current().reps_buffer.len()
            == 0,
    ensures
        a.input_char(ch, now).current().cursor == a.current().cursor + 1,
        a.input_char(ch, now).current().focus == Focus::Reps,
        a.input_char(ch, now).current().sets[a.current().cursor as int].reps == Some(
            digit_value(ch) as i32,
        ),
{
    law_reps_fast_path(a.current(), ch, now);
}

/// Applying the same confirmation twice leaves the exercise as applying it
/// once does, whether the set was held or not, as long as the debounce
/// window does not run out between the two: both times the weight is taken
/// from the service, or both times it is held back.
pub proof fn law_confirmation_idempotent(
    e: ExerciseModel,
    saved: WorkoutSet,
    first: u64,
    second: u64,
)
    requires
        e.takes_server_weight(second) ==> e.takes_server_weight(first),
    ensures
        e.apply_saved_set(saved, first).apply_saved_set(saved, second) == e.apply_saved_set(
            saved,
            first,
        ),
{
    let n = saved.set_number;
    let k = position_of_number(e.sets, n);
    let once = e.apply_saved_set(saved, first);
    let twice = once.apply_saved_set(saved, second);
    lemma_position_of_number(e.sets, n);
    lemma_position_of_number(once.sets, n);
    let j = position_of_number(once.sets, n);
    if k < e.sets.len() {
        assert(once.sets[k].number == n);
        assert(twice.sets =~= once.sets);
    } else {
        let added = SetModel::from_server(saved);
        let all = e.sets.push(added);
        assert(all[e.sets.len() as int] == added);
        lemma_sort_members(all, added);
        lemma_sort_members(all, once.sets[j]);
        assert(twice.sets =~= once.sets);
    }
}

/// The answer to a save, taken twice by the controller, leaves the
/// exercises as taking it once does, as long as the debounce window does not
/// run out between the two. The status line and the queue of
/// requests are not part of this: each answer asks for the activity again.
pub proof fn law_saved_response_idempotent(
    a: AppModel,
    exercise_id: i64,
    day: Day,
    set_number: i32,
    saved: WorkoutSet,
    first: Now,
    second: Now,
)
    requires
        any(a.exercises, has_id(exercise_id)) ==> (a.exercises[first_index(
            a.exercises,
            has_id(exercise_id),
        )].takes_server_weight(second.tick) ==> a.exercises[first_index(
            a.exercises,
            has_id(exercise_id),
        )].takes_server_weight(first.tick)),
    ensures
        a.on_set_saved(exercise_id, day, set_number, Ok(saved), first).on_set_saved(
            exercise_id,
            day,
            set_number,
            Ok(saved),
            second,
        ).exercises == a.on_set_saved(exercise_id, day, set_number, Ok(saved), first).exercises,
{
    let k = first_index(a.exercises, has_id(exercise_id));
    let once = a.on_set_saved(exercise_id, day, set_number, Ok(saved), first);
    lemma_first_index(a.exercises, has_id(exercise_id));
    if day == a.day && k < a.exercises.len() {
        let e = a.exercises[k];
        law_confirmation_idempotent(e, saved, first.tick, second.tick);
        assert(once.exercises == a.exercises.update(k, e.apply_saved_set(saved, first.tick)));
        assert(once.exercises[k].id == e.id);
        assert forall|j: int| 0 <= j < k implies !has_id(exercise_id)(
            #[trigger] once.exercises[j],
        ) by {
            assert(once.exercises[j] == a.exercises[j]);
        }
        lemma_first_index_is(once.exercises, has_id(exercise_id), k);
        let twice = once.on_set_saved(exercise_id, day, set_number, Ok(saved), second);
        assert(twice.exercises =~= once.exercises);
    } else if day == a.day {
        assert(once.exercises == a.exercises);
    }
}

/// An answer for a day that is no longer on screen is dropped: the answer
/// to a save or a delete changes nothing, and a list of sets only ends the
/// wait for it.
pub proof fn law_stale_answers_are_dropped(
    a: AppModel,
    exercise_id: i64,
    day: Day,
    set_number: i32,
    saved: Result<WorkoutSet, String>,
    deleted: Result<(), String>,
    listed: Result<DaySets, String>,
    now: Now,
)
    requires
        day != a.day,
    ensures
        a.on_set_saved(exercise_id, day, set_number, saved, now) == a,
        a.on_set_deleted(exercise_id, day, set_number, deleted, now) == a,
        a.on_sets_loaded(exercise_id, day, listed) == (AppModel {
            loading_sets: a.on_sets_loaded(exercise_id, day, listed).loading_sets,
            ..a
        }),
        a.on_sets_loaded(exercise_id, day, listed).exercises == a.exercises,
{
}

/// A confirmation that arrives while the user is typing does not touch any
/// weight: as long as a keystroke was taken within the debounce window,
/// every set keeps its weight field as the user left it, and the seed of new
/// sets stays.
pub proof fn law_response_keeps_local_weight(e: ExerciseModel, saved: WorkoutSet, now: u64)
    requires
        !window_elapsed(e.last_input, now),
    ensures
        e.apply_saved_set(saved, now).default_weight == e.default_weight,
        e.apply_saved_set(saved, now).last_input == e.last_input,
        position_of_number(e.sets, saved.set_number) < e.sets.len() ==> forall|i: int|
            0 <= i < e.sets.len() ==> (#[trigger] e.apply_saved_set(saved, now).sets[i]).weight
                == e.sets[i].weight,
        forall|i: int|
            0 <= i < e.sets.len() ==> exists|j: int|
                0 <= j < e.apply_saved_set(saved, now).sets.len() && (#[trigger] e.apply_saved_set(
                    saved,
                    now,
                ).sets[j]).weight == e.sets[i].weight && e.apply_saved_set(
                    saved,
                    now,
                ).sets[j].number == (#[trigger] e.sets[i]).number,
{
    let k = position_of_number(e.sets, saved.set_number);
    let r = e.apply_saved_set(saved, now);
    lemma_position_of_number(e.sets, saved.set_number);
    if k < e.sets.len() {
        assert forall|i: int| 0 <= i < e.sets.len() implies exists|j: int|
            0 <= j < r.sets.len() && (#[trigger] r.sets[j]).weight == e.sets[i].weight
                && r.sets[j].number == (#[trigger] e.sets[i]).number by {
            assert(r.sets[i].weight == e.sets[i].weight && r.sets[i].number == e.sets[i].number);
        }
    } else {
        let all = e.sets.push(SetModel::from_server(saved));
        assert forall|i: int| 0 <= i < e.sets.len() implies exists|j: int|
            0 <= j < r.sets.len() && (#[trigger] r.sets[j]).weight == e.sets[i].weight
                && r.sets[j].number == (#[trigger] e.sets[i]).number by {
            assert(all[i] == e.sets[i]);
            lemma_sort_members(all, e.sets[i]);
        }
    }
}

/// A weight typed after a save was sent survives the answer to that save:
/// if the answer arrives within the debounce window of the keystroke, the
/// weight under the cursor is still what the user typed.
pub proof fn law_edit_survives_response(
    e: ExerciseModel,
    ch: char,
    typed_at: u64,
    saved: WorkoutSet,
    answered_at: u64,
)
    requires
        e.on_set(),
        is_weight_char(ch),
        position_of_number(e.sets, saved.set_number) < e.sets.len(),
        answered_at - typed_at <= INPUT_TIMEOUT,
    ensures
        e.push_weight_char(ch, typed_at).apply_saved_set(saved, answered_at).current().weight
            == e.push_weight_char(ch, typed_at).current().weight,
        e.push_weight_char(ch, typed_at).apply_saved_set(saved, answered_at).default_weight
            == e.push_weight_char(ch, typed_at).default_weight,
{
    let typed = e.push_weight_char(ch, typed_at);
    lemma_position_of_number(e.sets, saved.set_number);
    lemma_position_of_number(typed.sets, saved.set_number);
    let k = position_of_number(e.sets, saved.set_number);
    let j = position_of_number(typed.sets, saved.set_number);
    if j > k {
        assert(typed.sets[k].number != saved.set_number);
    }
}

/// The set with the number of `saved` keeps its place when the weight
/// under the cursor is edited.
proof fn lemma_edit_keeps_numbers(before: ExerciseModel, after: ExerciseModel, number: i32)
    requires
        after.sets.len() == before.sets.len(),
        forall|i: int|
            0 <= i < before.sets.len() ==> (#[trigger] after.sets[i]).number
                == before.sets[i].number,
    ensures
        position_of_number(after.sets, number) == position_of_number(before.sets, number),
{
    lemma_position_of_number(before.sets, number);
    lemma_position_of_number(after.sets, number);
    let k = position_of_number(before.sets, number);
    let j = position_of_number(after.sets, number);
    if j < k {
        assert(before.sets[j].number != number);
    } else if k < j {
        assert(after.sets[k].number != number);
    }
}

/// A weight moved up or down after a save was sent survives the answer to
/// that save: if the answer arrives within the debounce window of the move,
/// the weight under the cursor and the seed of new sets are still what the
/// move left.
pub proof fn law_bump_survives_response(
    e: ExerciseModel,
    delta: int,
    moved_at: u64,
    saved: WorkoutSet,
    answered_at: u64,
)
    requires
        e.on_set(),
        position_of_number(e.sets, saved.set_number) < e.sets.len(),
        answered_at - moved_at <= INPUT_TIMEOUT,
    ensures
        e.bump_weight(delta, moved_at).apply_saved_set(saved, answered_at).current().weight
            == e.bump_weight(delta, moved_at).current().weight,
        e.bump_weight(delta, moved_at).apply_saved_set(saved, answered_at).default_weight
            == e.bump_weight(delta, moved_at).default_weight,
{
    let moved = e.bump_weight(delta, moved_at);
    lemma_edit_keeps_numbers(e, moved, saved.set_number);
    law_response_keeps_local_weight(moved, saved, answered_at);
}

/// A weight shortened by a backspace after a save was sent survives the
/// answer to that save: if the answer arrives within the debounce window of
/// the backspace, the weight under the cursor and the seed of new sets are
/// still what the backspace left.
pub proof fn law_backspace_survives_response(
    e: ExerciseModel,
    erased_at: u64,
    saved: WorkoutSet,
    answered_at: u64,
)
    requires
        e.on_set(),
        position_of_number(e.sets, saved.set_number) < e.sets.len(),
        answered_at - erased_at <= INPUT_TIMEOUT,
    ensures
        e.backspace_weight(erased_at).apply_saved_set(saved, answered_at).current().weight
            == e.backspace_weight(erased_at).current().weight,
        e.backspace_weight(erased_at).apply_saved_set(
            saved,
            answered_at,
        ).default_weight == e.backspace_weight(erased_at).default_weight,
{
    let erased = e.backspace_weight(erased_at);
    lemma_edit_keeps_numbers(e, erased, saved.set_number);
    law_response_keeps_local_weight(erased, saved, answered_at);
}

/// A series that fits the budget comes out as it went in: the same days,
/// the same values, the same order.
pub proof fn law_downsample_keeps_short_series(
    series: Seq<(int, u64)>,
    max_points: nat,
    metric: Metric,
)
    requires
        series.len() <= max_points,
    ensures
        downsampled(series, max_points, metric) == as_points(series),
{
}

/// A chart never has more points than its budget allows.
pub proof fn law_downsample_within_budget(
    series: Seq<(int, u64)>,
    max_points: nat,
    metric: Metric,
)
    ensures
        downsampled(series, max_points, metric).len() <= max_points,
{
    lemma_downsampled_len(series, max_points, metric);
}

/// Deleting the only set of an exercise leaves exactly one set behind, and
/// that set is blank: number 1, no reps, unknown to the service, seeded with
/// the default weight.
pub proof fn law_delete_only_set(e: ExerciseModel)
    requires
        e.can_delete(),
        e.sets.len() == 1,
    ensures
        e.delete_current().sets == seq![SetModel::empty(1, e.default_weight)],
        e.delete_current().sets.len() == 1,
        e.delete_current().sets[0].is_empty(),
        e.delete_current().cursor == 0,
{
}

/// Deleting never leaves an exercise without sets.
pub proof fn law_delete_leaves_a_set(e: ExerciseModel)
    requires
        e.sets.len() > 0,
    ensures
        e.delete_current().sets.len() > 0,
{
}

/// A step forward from the reps of the last set of the last exercise moves
/// nothing: the state stays as it is.
pub proof fn law_tab_next_stops_at_end(a: AppModel)
    requires
        a.exercises.len() > 0,
        a.selected == a.exercises.len() - 1,
        a.current().focus == Focus::Reps,
        a.current().cursor + 1 >= a.current().sets.len(),
    ensures
        a.tab_next() == a,
{
}

/// A step back from the weight of the first set of the first exercise moves
/// nothing.
pub proof fn law_tab_prev_stops_at_start(a: AppModel)
    requires
        a.exercises.len() > 0,
        a.selected == 0,
        a.current().focus == Focus::Weight,
        a.current().cursor == 0,
    ensures
        a.tab_prev() == a,
{
}

/// A set that the service confirms after it was deleted here comes back
/// in its place: the sets stand in the order of their numbers, and none is
/// lost or doubled.
pub proof fn law_missing_set_returns_in_order(e: ExerciseModel, saved: WorkoutSet, now: u64)
    requires
        position_of_number(e.sets, saved.set_number) == e.sets.len(),
    ensures
        ordered_by_number(e.apply_saved_set(saved, now).sets),
        e.apply_saved_set(saved, now).sets.len() == e.sets.len() + 1,
        e.apply_saved_set(saved, now).sets.to_multiset() == e.sets.to_multiset().insert(
            SetModel::from_server(saved),
        ),
{
    let all = e.sets.push(SetModel::from_server(saved));
    lemma_sort_ordered(all);
    lemma_sort_keeps(all);
    e.sets.to_multiset_ensures();
}

/// Moving the day by `delta` shows the day that many days on, or leaves
/// the day as it is where the calendar ends.
pub proof fn law_move_day(a: AppModel, delta: int, utc: crate::time::Timestamp)
    ensures
        Day::reaches(a.day@ + delta) ==> a.move_day(delta, utc).day@ == a.day@ + delta,
        !Day::reaches(a.day@ + delta) ==> a.move_day(delta, utc) == a,
{
    if Day::reaches(a.day@ + delta) {
        Day::lemma_at(a.day@ + delta);
        lemma_requests_keep_the_day(a, Day::at(a.day@ + delta), utc);
    }
}

/// Queueing requests for sets or charts changes neither the day nor the
/// exercises.
proof fn lemma_request_loops_keep(a: AppModel, n: nat)
    ensures
        a.request_sets_upto(n).day == a.day,
        a.request_sets_upto(n).exercises == a.exercises,
        a.request_graphs_upto(n).day == a.day,
        a.request_graphs_upto(n).exercises == a.exercises,
    decreases n,
{
    if n > 0 && n <= a.exercises.len() {
        lemma_request_loops_keep(a, (n - 1) as nat);
    }
}

/// Putting a day on screen shows that day.
proof fn lemma_requests_keep_the_day(a: AppModel, day: Day, utc: crate::time::Timestamp)
    ensures
        a.apply_day(day, utc).day == day,
{
    let plan = crate::sync::chosen_plan(a.plans, Day::weekday_of(day@) as i32);
    let exercises = match plan {
        Some(p) => crate::sync::exercises_from(p, utc),
        None => Seq::empty(),
    };
    let base = AppModel {
        day,
        selected: 0,
        loading_sets: Seq::empty(),
        status: match plan {
            Some(p) => p.name@ + " • "@ + crate::time::short_date_text(day@),
            None => "No plans available"@,
        },
        exercises,
        graphs: crate::seqs::kept(a.graphs, crate::sync::charts_one_of(exercises)),
        pending_graphs: crate::seqs::kept(a.pending_graphs, crate::sync::names_one_of(exercises)),
        ..a
    };
    lemma_request_loops_keep(base, base.exercises.len());
    let charted = base.request_all_graphs();
    lemma_request_loops_keep(charted, charted.exercises.len());
}

} // verus!
