//! One exercise of the day: its sets, the cursor among them, the focused
//! field and the debounce timer that the fields share.

use vstd::prelude::*;
use vstd::string::*;
use crate::focus::Focus;
use crate::models::{CompactSet, DaySets, SetInput, TemplateExercise, WorkoutSet};
use crate::sets::{all_wf, sets_view, SetModel, SetState};
use crate::text::{char_is_digit, is_digit, pop_char, push_char};
use crate::time::{
    has_window_elapsed, idle_since_input, is_idle_since_input, window_elapsed, Now, Timestamp,
};
use crate::weight::{
    accepts_weight_char, is_weight_char, lemma_weight_text_round_trip, Weight, WeightFieldModel,
};

verus! {

/// How many days back a last session still seeds the weight of a new day.
pub const SEED_WINDOW_DAYS: u32 = 90;

/// One exercise of the day.
pub struct ExerciseState {
    pub id: Option<i64>,
    pub name: String,
    pub focus: Focus,
    pub sets: Vec<SetState>,
    pub cursor: usize,
    pub default_weight: Weight,
    pub last_input: Option<u64>,
}

/// What an [`ExerciseState`] holds, as mathematics.
pub ghost struct ExerciseModel {
    pub id: Option<i64>,
    pub name: Seq<char>,
    pub focus: Focus,
    pub sets: Seq<SetModel>,
    pub cursor: nat,
    pub default_weight: nat,
    pub last_input: Option<u64>,
}

impl View for ExerciseState {
    type V = ExerciseModel;

    open spec fn view(&self) -> ExerciseModel {
        ExerciseModel {
            id: self.id,
            name: self.name@,
            focus: self.focus,
            sets: sets_view(self.sets@),
            cursor: self.cursor as nat,
            default_weight: self.default_weight.milli as nat,
            last_input: self.last_input,
        }
    }
}

/// The heaviest weight among `sets`, 0 if there are none.
pub open spec fn heaviest(sets: Seq<CompactSet>) -> nat
    decreases sets.len(),
{
    if sets.len() == 0 {
        0
    } else {
        let rest = heaviest(sets.drop_last());
        if sets.last().weight.milli > rest {
            sets.last().weight.milli as nat
        } else {
            rest
        }
    }
}

/// The weight that seeds a day from a plan entry, read at `utc`: the heaviest
/// set of the last session if that session is at most 90 days old, else 0.
pub open spec fn seed_weight(ex: TemplateExercise, utc: Timestamp) -> nat {
    match ex.last_session {
        Some(s) => if utc.total_nanos() - s.date.total_nanos() <= SEED_WINDOW_DAYS
            * 86_400_000_000_000 {
            heaviest(s.sets@)
        } else {
            0
        },
        None => 0,
    }
}

/// The cursor kept within a run of `len` sets: the last index if it points
/// past it, 0 if there is no set.
pub open spec fn clamp_cursor(cursor: nat, len: nat) -> nat {
    if len == 0 {
        0
    } else if cursor < len {
        cursor
    } else {
        (len - 1) as nat
    }
}

/// The policy of the single-key entry of reps: a digit above `2` typed into
/// an empty buffer is a whole count, and the entry moves on at once. `0`, `1`
/// and `2` wait for a second digit.
pub open spec fn reps_fast_path(buffer_is_empty: bool, ch: char) -> bool {
    buffer_is_empty && ch > '2'
}

/// Decides [`reps_fast_path`].
pub fn takes_reps_fast_path(buffer_is_empty: bool, ch: char) -> (r: bool)
    ensures
        r == reps_fast_path(buffer_is_empty, ch),
{
    buffer_is_empty && ch > '2'
}

/// The sets after the weight `milli` was handed on from the set at `cursor`:
/// every other set without committed reps shows it; the rest stay.
pub open spec fn propagated(sets: Seq<SetModel>, cursor: int, milli: nat) -> Seq<SetModel> {
    Seq::new(
        sets.len(),
        |i: int|
            if i != cursor && sets[i].reps is None {
                SetModel { weight: sets[i].weight.set_to(milli), ..sets[i] }
            } else {
                sets[i]
            },
    )
}

/// How many sets stay when blank sets are dropped from the end, one set
/// always staying.
pub open spec fn trimmed_len(sets: Seq<SetModel>) -> nat
    decreases sets.len(),
{
    if sets.len() > 1 && sets.last().is_empty() {
        trimmed_len(sets.drop_last())
    } else {
        sets.len()
    }
}

/// How many blank sets stand at the end.
pub open spec fn trailing_blank(sets: Seq<SetModel>) -> nat
    decreases sets.len(),
{
    if sets.len() > 0 && sets.last().is_empty() {
        1 + trailing_blank(sets.drop_last())
    } else {
        0
    }
}

/// The number of the set that is appended to `len` sets.
pub open spec fn next_number(len: nat) -> i32 {
    if len < i32::MAX {
        (len + 1) as i32
    } else {
        i32::MAX
    }
}

/// The sets numbered from 1 in the order they stand in.
pub open spec fn renumbered(sets: Seq<SetModel>) -> Seq<SetModel> {
    Seq::new(sets.len(), |i: int| SetModel { number: next_number(i as nat), ..sets[i] })
}

/// The sets that the service's records describe, in the order given.
pub open spec fn server_sets(records: Seq<WorkoutSet>) -> Seq<SetModel> {
    Seq::new(records.len(), |i: int| SetModel::from_server(records[i]))
}

/// The index of the first set numbered `number`, or the count of sets if
/// there is none.
pub open spec fn position_of_number(sets: Seq<SetModel>, number: i32) -> int
    decreases sets.len(),
{
    if sets.len() == 0 {
        0
    } else {
        let k = position_of_number(sets.drop_last(), number);
        if k < sets.len() - 1 {
            k
        } else if sets.last().number == number {
            sets.len() - 1
        } else {
            sets.len() as int
        }
    }
}

/// `sorted` with `x` put in before the first set whose number is not below
/// that of `x`.
pub open spec fn inserted(x: SetModel, sorted: Seq<SetModel>) -> Seq<SetModel>
    decreases sorted.len(),
{
    if sorted.len() == 0 {
        seq![x]
    } else if x.number <= sorted[0].number {
        seq![x] + sorted
    } else {
        seq![sorted[0]] + inserted(x, sorted.drop_first())
    }
}

/// The sets in the order of their numbers; sets with the same number keep
/// the order they had.
pub open spec fn sort_by_number(sets: Seq<SetModel>) -> Seq<SetModel>
    decreases sets.len(),
{
    if sets.len() == 0 {
        Seq::empty()
    } else {
        inserted(sets[0], sort_by_number(sets.drop_first()))
    }
}

impl ExerciseModel {
    /// There is at least one set, the cursor points at one, and every set is
    /// well formed.
    pub open spec fn wf(self) -> bool {
        &&& self.sets.len() > 0
        &&& self.cursor < self.sets.len()
        &&& all_wf(self.sets)
    }

    /// Whether the cursor points at a set.
    pub open spec fn on_set(self) -> bool {
        self.cursor < self.sets.len()
    }

    /// The set under the cursor.
    pub open spec fn current(self) -> SetModel
        recommends
            self.on_set(),
    {
        self.sets[self.cursor as int]
    }

    /// The exercise as a plan entry seeds it at `utc`: one blank set with the
    /// seed weight, the cursor on it, the weight focused, no timer.
    pub open spec fn from_template(ex: TemplateExercise, utc: Timestamp) -> ExerciseModel {
        let w = seed_weight(ex, utc);
        ExerciseModel {
            id: Some(ex.exercise_id),
            name: ex.name@,
            focus: Focus::Weight,
            sets: seq![SetModel::empty(1, w)],
            cursor: 0,
            default_weight: w,
            last_input: None,
        }
    }

    /// The exercise with its timer reset: the next keystroke starts afresh.
    pub open spec fn reset_timer(self) -> ExerciseModel {
        ExerciseModel { last_input: None, ..self }
    }

    /// The exercise with the other field focused and the timer reset.
    pub open spec fn toggle_focus(self) -> ExerciseModel {
        ExerciseModel { focus: self.focus.flipped(), last_input: None, ..self }
    }

    /// The weight field under the cursor as the keystroke `ch` at `now`
    /// leaves it. The timer that decides is the exercise's.
    pub open spec fn typed_weight(self, ch: char, now: u64) -> WeightFieldModel
        recommends
            self.on_set(),
    {
        WeightFieldModel { last_input: self.last_input, ..self.current().weight }.push_char(
            ch,
            now,
        )
    }

    /// The exercise after the keystroke `ch` at `now` went to the weight of
    /// the set under the cursor. A digit or decimal point is taken: the field
    /// takes it, its new value is handed on to the sets without reps and
    /// becomes the seed of new sets, and the timer starts. Any other
    /// character changes nothing.
    pub open spec fn push_weight_char(self, ch: char, now: u64) -> ExerciseModel {
        if !is_weight_char(ch) {
            self
        } else if self.on_set() {
            let field = self.typed_weight(ch, now);
            let c = self.cursor as int;
            ExerciseModel {
                sets: propagated(
                    self.sets.update(c, SetModel { weight: field, ..self.sets[c] }),
                    c,
                    field.value,
                ),
                default_weight: field.value,
                last_input: Some(now),
                ..self
            }
        } else {
            ExerciseModel { last_input: Some(now), ..self }
        }
    }

    /// The exercise after a backspace at `now` in the weight of the set
    /// under the cursor: the field loses its last character, what it reads
    /// as then becomes the seed of new sets, and the timer starts, so that
    /// an answer of the service that arrives within the debounce window
    /// leaves the edit alone.
    pub open spec fn backspace_weight(self, now: u64) -> ExerciseModel {
        if self.on_set() {
            let field = self.current().weight.backspace();
            let c = self.cursor as int;
            ExerciseModel {
                sets: self.sets.update(c, SetModel { weight: field, ..self.sets[c] }),
                default_weight: field.value,
                last_input: Some(now),
                ..self
            }
        } else {
            self
        }
    }

    /// The exercise after the weight of the set under the cursor was moved
    /// by `delta` thousandths at `now`: the field shows the new value, which
    /// is handed on to the sets without reps and becomes the seed of new
    /// sets, and the timer starts, so that an answer of the service that
    /// arrives within the debounce window leaves the edit alone.
    pub open spec fn bump_weight(self, delta: int, now: u64) -> ExerciseModel {
        if self.on_set() {
            let field = self.current().weight.bump(delta);
            let c = self.cursor as int;
            ExerciseModel {
                sets: propagated(
                    self.sets.update(c, SetModel { weight: field, ..self.sets[c] }),
                    c,
                    field.value,
                ),
                default_weight: field.value,
                last_input: Some(now),
                ..self
            }
        } else {
            self
        }
    }

    /// The reps buffer that the next digit at `now` is appended to: empty
    /// once the debounce window has run out, else the buffer of the set
    /// under the cursor.
    pub open spec fn reps_base(self, now: u64) -> Seq<char>
        recommends
            self.on_set(),
    {
        if window_elapsed(self.last_input, now) {
            Seq::empty()
        } else {
            self.current().reps_buffer
        }
    }

    /// Whether the digit `ch` at `now` completes the reps of the set under
    /// the cursor, so that the entry moves on at once.
    pub open spec fn reps_advances(self, ch: char, now: u64) -> bool {
        is_digit(ch) && self.on_set() && reps_fast_path(self.reps_base(now).len() == 0, ch)
    }

    /// The exercise after the keystroke `ch` at `now` went to the reps of the
    /// set under the cursor. A digit is appended to the buffer, which is then
    /// read and committed, and the timer starts. Any other character changes
    /// nothing.
    pub open spec fn push_reps_char(self, ch: char, now: Now) -> ExerciseModel {
        if is_digit(ch) && self.on_set() {
            let c = self.cursor as int;
            let set = SetModel {
                reps_buffer: self.reps_base(now.tick).push(ch),
                ..self.sets[c]
            }.apply_reps_buffer(now.utc);
            ExerciseModel { sets: self.sets.update(c, set), last_input: Some(now.tick), ..self }
        } else {
            self
        }
    }

    /// The exercise after a backspace in the reps of the set under the
    /// cursor at `utc`: the buffer loses its last digit and is read again; on
    /// an empty buffer the reps and the stamp are cleared.
    pub open spec fn backspace_reps(self, utc: Timestamp) -> ExerciseModel {
        if self.on_set() {
            let c = self.cursor as int;
            let set = if self.sets[c].reps_buffer.len() > 0 {
                SetModel {
                    reps_buffer: self.sets[c].reps_buffer.drop_last(),
                    ..self.sets[c]
                }.apply_reps_buffer(utc)
            } else {
                self.sets[c].without_reps()
            };
            ExerciseModel { sets: self.sets.update(c, set), ..self }
        } else {
            self
        }
    }

    /// The exercise with the cursor moved by `delta` sets, kept on the sets,
    /// and the timer reset.
    pub open spec fn move_set_cursor(self, delta: int) -> ExerciseModel {
        let target = self.cursor + delta;
        let cursor = if self.sets.len() == 0 || target < 0 {
            0
        } else if target >= self.sets.len() {
            (self.sets.len() - 1) as nat
        } else {
            target as nat
        };
        ExerciseModel { cursor, last_input: None, ..self }
    }

    /// The exercise after the entry moved on from the set under the cursor:
    /// to the reps of the next set if there is one; else a blank set, seeded
    /// with the weight of the last set, is appended and the cursor goes to
    /// its reps. The timer is reset either way.
    pub open spec fn advance(self) -> ExerciseModel {
        if self.cursor + 1 < self.sets.len() {
            ExerciseModel {
                cursor: self.cursor + 1,
                focus: Focus::Reps,
                last_input: None,
                ..self
            }
        } else {
            let seed = if self.sets.len() > 0 {
                self.sets.last().weight.value
            } else {
                self.default_weight
            };
            ExerciseModel {
                sets: self.sets.push(SetModel::empty(next_number(self.sets.len()), seed)),
                cursor: self.sets.len(),
                focus: Focus::Reps,
                default_weight: seed,
                last_input: None,
                ..self
            }
        }
    }

    /// The exercise without its blank sets at the end, one set always
    /// staying, and the cursor kept on the sets.
    pub open spec fn trim_empty_trailing(self) -> ExerciseModel {
        let len = trimmed_len(self.sets);
        ExerciseModel {
            sets: self.sets.take(len as int),
            cursor: clamp_cursor(self.cursor, len),
            ..self
        }
    }

    /// How many sets the exercise shows: all of them when it is selected,
    /// else those before the blank sets at the end; at least one.
    pub open spec fn visible_len(self, selected: bool) -> nat {
        let shown = if selected {
            self.sets.len()
        } else {
            (self.sets.len() - trailing_blank(self.sets)) as nat
        };
        if shown == 0 {
            1
        } else {
            shown
        }
    }

    /// Whether deleting acts: the service knows the exercise and the cursor
    /// points at a set.
    pub open spec fn can_delete(self) -> bool {
        self.id is Some && self.on_set()
    }

    /// The exercise after the set under the cursor was deleted: the set is
    /// gone, a blank set seeded with the default weight stands in if it was
    /// the only one, the sets are numbered from 1 again, and the cursor is
    /// kept on the sets.
    pub open spec fn delete_current(self) -> ExerciseModel {
        if self.can_delete() {
            let rest = self.sets.remove(self.cursor as int);
            let kept = if rest.len() == 0 {
                seq![SetModel::empty(1, self.default_weight)]
            } else {
                rest
            };
            ExerciseModel {
                sets: renumbered(kept),
                cursor: clamp_cursor(self.cursor, kept.len()),
                ..self
            }
        } else {
            self
        }
    }

    /// The number under which the service has to delete the set under the
    /// cursor, if it knows that set.
    pub open spec fn delete_request(self) -> Option<i32> {
        if self.can_delete() && self.current().id is Some {
            Some(self.current().number)
        } else {
            None
        }
    }

    /// Whether the set under the cursor is to be saved: the service knows the
    /// exercise and the set has committed reps.
    pub open spec fn can_save(self) -> bool {
        self.id is Some && self.on_set() && self.current().reps is Some
    }

    /// The exercise after a save of the set under the cursor was sent: that
    /// set is pending.
    pub open spec fn mark_saving(self) -> ExerciseModel {
        if self.can_save() {
            let c = self.cursor as int;
            ExerciseModel {
                sets: self.sets.update(c, SetModel { pending: true, ..self.sets[c] }),
                ..self
            }
        } else {
            self
        }
    }

    /// What a save of the set under the cursor carries, `noon` standing in
    /// for a missing stamp: the number of the set, and weight, reps and stamp.
    pub open spec fn save_request(self, noon: Timestamp) -> Option<(i32, SetInput)> {
        if self.can_save() {
            let set = self.current();
            Some(
                (
                    set.number,
                    (SetInput {
                        weight: Weight { milli: set.weight.value as u32 },
                        reps: set.reps->0,
                        completed_at: Some(
                            match set.completed_at {
                                Some(t) => t,
                                None => noon,
                            },
                        ),
                    }),
                ),
            )
        } else {
            None
        }
    }

    /// The exercise after the service listed `records` as its sets of the
    /// day: they replace the sets in the order given, one blank set seeded
    /// with the default weight standing in for an empty list; the cursor is
    /// kept on the sets, and the weight of the last set seeds new ones.
    pub open spec fn apply_server_sets(self, records: Seq<WorkoutSet>) -> ExerciseModel {
        let sets = if records.len() == 0 {
            seq![SetModel::empty(1, self.default_weight)]
        } else {
            server_sets(records)
        };
        ExerciseModel {
            sets,
            cursor: clamp_cursor(self.cursor, sets.len()),
            default_weight: sets.last().weight.value,
            ..self
        }
    }

    /// Whether a confirmation that arrives at `now` may overwrite the
    /// weight: only when no keystroke was taken within the debounce window.
    pub open spec fn takes_server_weight(self, now: u64) -> bool {
        window_elapsed(self.last_input, now)
    }

    /// The exercise after the service confirmed the save of `saved`, applied
    /// at `now`. The first set with the number of `saved` takes identity,
    /// reps and stamp from it and is no longer pending; it takes the weight
    /// too, unless an edit was made within the debounce window. If no set
    /// has that number, the set that `saved` describes is added and the sets
    /// are put in the order of their numbers. Either way the weight of
    /// `saved` becomes the seed of new sets, unless an edit was made within
    /// the debounce window.
    pub open spec fn apply_saved_set(self, saved: WorkoutSet, now: u64) -> ExerciseModel {
        let k = position_of_number(self.sets, saved.set_number);
        let take = self.takes_server_weight(now);
        ExerciseModel {
            sets: if k < self.sets.len() {
                self.sets.update(k, self.sets[k].confirmed(saved, take))
            } else {
                sort_by_number(self.sets.push(SetModel::from_server(saved)))
            },
            default_weight: if take {
                saved.weight.milli as nat
            } else {
                self.default_weight
            },
            ..self
        }
    }
}

/// Hands `weight` on from the set at `cursor` to the other sets that have no
/// committed reps.
fn propagate_weight(sets: &mut Vec<SetState>, cursor: usize, weight: Weight)
    ensures
        sets_view(final(sets)@) == propagated(
            sets_view(old(sets)@),
            cursor as int,
            weight.milli as nat,
        ),
{
    let n = sets.len();
    let ghost before = sets_view(sets@);
    let ghost after = propagated(before, cursor as int, weight.milli as nat);
    let mut i: usize = 0;
    while i < n
        invariant
            i <= n,
            sets.len() == n,
            before.len() == n,
            after == propagated(before, cursor as int, weight.milli as nat),
            forall|j: int| 0 <= j < i ==> (#[trigger] sets[j])@ == after[j],
            forall|j: int| i <= j < n ==> (#[trigger] sets[j])@ == before[j],
        decreases n - i,
    {
        if i != cursor && sets[i].reps.is_none() {
            sets[i].weight.set_to(weight);
        }
        i = i + 1;
    }
}

/// Trimming keeps at least one set if there was one, drops only blank sets,
/// and stops before a set that is not blank.
pub proof fn lemma_trimmed_len(sets: Seq<SetModel>)
    ensures
        trimmed_len(sets) <= sets.len(),
        sets.len() > 0 ==> trimmed_len(sets) > 0,
        forall|i: int| trimmed_len(sets) <= i < sets.len() ==> (#[trigger] sets[i]).is_empty(),
        trimmed_len(sets) > 1 ==> !sets[trimmed_len(sets) - 1].is_empty(),
    decreases sets.len(),
{
    if sets.len() > 1 && sets.last().is_empty() {
        lemma_trimmed_len(sets.drop_last());
        assert forall|i: int| trimmed_len(sets) <= i < sets.len() implies (
        #[trigger] sets[i]).is_empty() by {
            if i < sets.len() - 1 {
                assert(sets.drop_last()[i] == sets[i]);
            }
        }
    }
}

/// The position of a number lies in range, no set before it has the number,
/// and the set there has it.
pub proof fn lemma_position_of_number(sets: Seq<SetModel>, number: i32)
    ensures
        0 <= position_of_number(sets, number) <= sets.len(),
        forall|j: int|
            0 <= j < position_of_number(sets, number) ==> (#[trigger] sets[j]).number != number,
        position_of_number(sets, number) < sets.len() ==> sets[position_of_number(
            sets,
            number,
        )].number == number,
    decreases sets.len(),
{
    if sets.len() > 0 {
        lemma_position_of_number(sets.drop_last(), number);
        assert forall|j: int| 0 <= j < position_of_number(sets, number) implies (
        #[trigger] sets[j]).number != number by {
            if j < sets.len() - 1 {
                assert(sets.drop_last()[j] == sets[j]);
            }
        }
    }
}

/// An index that holds the first set with the number is its position.
pub proof fn lemma_position_of_number_is(sets: Seq<SetModel>, number: i32, k: int)
    requires
        0 <= k <= sets.len(),
        forall|j: int| 0 <= j < k ==> (#[trigger] sets[j]).number != number,
        k < sets.len() ==> sets[k].number == number,
    ensures
        position_of_number(sets, number) == k,
{
    lemma_position_of_number(sets, number);
}

/// Putting `x` in before the first set whose number is not below its own
/// is an insertion at that index.
pub proof fn lemma_inserted_at(x: SetModel, sorted: Seq<SetModel>, pos: int)
    requires
        0 <= pos <= sorted.len(),
        forall|j: int| 0 <= j < pos ==> (#[trigger] sorted[j]).number < x.number,
        pos < sorted.len() ==> x.number <= sorted[pos].number,
    ensures
        inserted(x, sorted) == sorted.insert(pos, x),
    decreases sorted.len(),
{
    if sorted.len() > 0 && pos > 0 {
        lemma_inserted_at(x, sorted.drop_first(), pos - 1);
    }
}

/// Putting a set in keeps the others, all well formed if they were.
pub proof fn lemma_inserted_keeps(x: SetModel, sorted: Seq<SetModel>)
    ensures
        inserted(x, sorted).len() == sorted.len() + 1,
        inserted(x, sorted).to_multiset() == sorted.to_multiset().insert(x),
        all_wf(sorted) && x.wf() ==> all_wf(inserted(x, sorted)),
    decreases sorted.len(),
{
    broadcast use vstd::seq_lib::group_to_multiset_ensures;

    if sorted.len() > 0 && x.number <= sorted[0].number {
        assert(seq![x] + sorted =~= sorted.insert(0, x));
    } else if sorted.len() > 0 {
        let rest = sorted.drop_first();
        lemma_inserted_keeps(x, rest);
        let tail = inserted(x, rest);
        assert(seq![sorted[0]] + tail =~= tail.insert(0, sorted[0]));
        assert(sorted =~= rest.insert(0, sorted[0]));
    }
}

/// Sorting keeps every set, as often as it occurred, and with it the count
/// of sets and their being well formed.
pub proof fn lemma_sort_keeps(sets: Seq<SetModel>)
    ensures
        sort_by_number(sets).len() == sets.len(),
        sort_by_number(sets).to_multiset() == sets.to_multiset(),
        all_wf(sets) ==> all_wf(sort_by_number(sets)),
    decreases sets.len(),
{
    broadcast use vstd::seq_lib::group_to_multiset_ensures;

    if sets.len() > 0 {
        let rest = sets.drop_first();
        lemma_sort_keeps(rest);
        lemma_inserted_keeps(sets[0], sort_by_number(rest));
        assert(sets =~= rest.insert(0, sets[0]));
    }
}

/// No set stands before a set with a lower number.
pub open spec fn ordered_by_number(sets: Seq<SetModel>) -> bool {
    forall|i: int, j: int| 0 <= i < j < sets.len() ==> sets[i].number <= sets[j].number
}

/// Putting a set in keeps the order of the numbers.
pub proof fn lemma_inserted_ordered(x: SetModel, sorted: Seq<SetModel>)
    requires
        ordered_by_number(sorted),
    ensures
        ordered_by_number(inserted(x, sorted)),
    decreases sorted.len(),
{
    if sorted.len() > 0 && !(x.number <= sorted[0].number) {
        let rest = sorted.drop_first();
        lemma_inserted_ordered(x, rest);
        lemma_inserted_keeps(x, rest);
        let tail = inserted(x, rest);
        let r = seq![sorted[0]] + tail;
        assert forall|i: int, j: int| 0 <= i < j < r.len() implies r[i].number
            <= r[j].number by {
            if i == 0 {
                tail.to_multiset_ensures();
                rest.to_multiset_ensures();
                assert(tail.to_multiset().count(tail[j - 1]) > 0);
            }
        }
    }
}

/// Sorting puts the sets in the order of their numbers.
pub proof fn lemma_sort_ordered(sets: Seq<SetModel>)
    ensures
        ordered_by_number(sort_by_number(sets)),
    decreases sets.len(),
{
    if sets.len() > 0 {
        lemma_sort_ordered(sets.drop_first());
        lemma_inserted_ordered(sets[0], sort_by_number(sets.drop_first()));
    }
}

/// Sorting neither adds a set nor loses one.
pub proof fn lemma_sort_members(sets: Seq<SetModel>, x: SetModel)
    ensures
        sort_by_number(sets).contains(x) <==> sets.contains(x),
{
    lemma_sort_keeps(sets);
    sets.to_multiset_ensures();
    sort_by_number(sets).to_multiset_ensures();
    assert(sort_by_number(sets).contains(x) <==> sort_by_number(sets).to_multiset().count(x)
        > 0);
}

/// Puts `x` in before the first set whose number is not below its own.
fn insert_by_number(out: &mut Vec<SetState>, x: SetState)
    ensures
        sets_view(final(out)@) == inserted(x@, sets_view(old(out)@)),
{
    let n = out.len();
    let ghost before = sets_view(out@);
    let mut pos: usize = 0;
    while pos < n && out[pos].number < x.number
        invariant
            pos <= n,
            n == out.len(),
            before == sets_view(out@),
            forall|j: int| 0 <= j < pos ==> (#[trigger] before[j]).number < x.number,
        decreases n - pos,
    {
        pos = pos + 1;
    }
    let ghost xm = x@;
    out.insert(pos, x);
    proof {
        lemma_inserted_at(xm, before, pos as int);
    }
}

/// Puts the sets in the order of their numbers, sets with the same number
/// keeping the order they had.
fn sort_sets(sets: &mut Vec<SetState>)
    ensures
        sets_view(final(sets)@) == sort_by_number(sets_view(old(sets)@)),
{
    let ghost before = sets_view(sets@);
    let mut out: Vec<SetState> = Vec::new();
    while sets.len() > 0
        invariant
            sets.len() <= before.len(),
            sets_view(sets@) == before.take(sets.len() as int),
            sets_view(out@) == sort_by_number(before.skip(sets.len() as int)),
        decreases sets.len(),
    {
        let ghost k = sets.len() as int;
        let ghost cur = sets_view(sets@);
        match sets.pop() {
            Some(x) => {
                assert(x@ == cur[k - 1]);
                assert(before.skip(k - 1).drop_first() =~= before.skip(k));
                insert_by_number(&mut out, x);
            },
            None => {},
        }
    }
    *sets = out;
}

impl ExerciseState {
    /// Seeds the exercise from a plan entry, read at `utc`.
    pub fn from_template(ex: &TemplateExercise, utc: Timestamp) -> (r: ExerciseState)
        ensures
            r@ == ExerciseModel::from_template(*ex, utc),
            r@.wf(),
    {
        let mut milli: u32 = 0;
        match &ex.last_session {
            Some(s) => {
                if s.date.within_days_before(utc, SEED_WINDOW_DAYS) {
                    let n = s.sets.len();
                    let mut i: usize = 0;
                    while i < n
                        invariant
                            i <= n,
                            n == s.sets.len(),
                            milli == heaviest(s.sets@.take(i as int)),
                        decreases n - i,
                    {
                        assert(s.sets@.take(i + 1).drop_last() =~= s.sets@.take(i as int));
                        if s.sets[i].weight.milli > milli {
                            milli = s.sets[i].weight.milli;
                        }
                        i = i + 1;
                    }
                    assert(s.sets@.take(n as int) =~= s.sets@);
                }
            },
            None => {},
        }
        let weight = Weight { milli };
        let mut sets: Vec<SetState> = Vec::new();
        sets.push(SetState::empty(1, weight));
        let r = ExerciseState {
            id: Some(ex.exercise_id),
            name: ex.name.clone(),
            focus: Focus::Weight,
            sets,
            cursor: 0,
            default_weight: weight,
            last_input: None,
        };
        assert(r@.sets =~= seq![SetModel::empty(1, milli as nat)]);
        r
    }

    /// Whether there was a keystroke and the debounce window has run out
    /// since, so that the entry moves on by itself.
    pub fn should_auto_advance(&self, now: Now) -> (r: bool)
        ensures
            r == idle_since_input(self@.last_input, now.tick),
    {
        is_idle_since_input(self.last_input, now.tick)
    }

    /// Resets the timer: the next keystroke starts a fresh number.
    pub fn reset_timer(&mut self)
        ensures
            final(self)@ == old(self)@.reset_timer(),
    {
        self.last_input = None;
    }

    /// Sends the keystroke `ch` at `now` to the weight of the set under the
    /// cursor.
    pub fn push_weight_char(&mut self, ch: char, now: Now)
        ensures
            final(self)@ == old(self)@.push_weight_char(ch, now.tick),
            old(self)@.wf() ==> final(self)@.wf(),
    {
        if !accepts_weight_char(ch) {
            return ;
        }
        if self.cursor < self.sets.len() {
            let c = self.cursor;
            let ghost before = sets_view(self.sets@);
            self.sets[c].weight.last_input = self.last_input;
            self.sets[c].weight.push_char(ch, now.tick);
            let w = self.sets[c].weight.value;
            assert(sets_view(self.sets@) =~= before.update(
                c as int,
                SetModel { weight: old(self)@.typed_weight(ch, now.tick), ..before[c as int] },
            ));
            propagate_weight(&mut self.sets, c, w);
            self.default_weight = w;
            proof {
                lemma_weight_text_round_trip(w.milli as nat);
            }
        }
        self.last_input = Some(now.tick);
    }

    /// Removes the last character of the weight of the set under the cursor,
    /// at `now`.
    pub fn backspace_weight(&mut self, now: Now)
        ensures
            final(self)@ == old(self)@.backspace_weight(now.tick),
            old(self)@.wf() ==> final(self)@.wf(),
    {
        if self.cursor < self.sets.len() {
            self.last_input = Some(now.tick);
            let c = self.cursor;
            let ghost before = sets_view(self.sets@);
            self.sets[c].weight.backspace();
            self.default_weight = self.sets[c].weight.value;
            assert(sets_view(self.sets@) =~= before.update(
                c as int,
                SetModel { weight: before[c as int].weight.backspace(), ..before[c as int] },
            ));
        }
    }

    /// Moves the weight of the set under the cursor by `delta` thousandths,
    /// not below 0, at `now`.
    pub fn bump_weight(&mut self, delta: i32, now: Now)
        ensures
            final(self)@ == old(self)@.bump_weight(delta as int, now.tick),
            old(self)@.wf() ==> final(self)@.wf(),
    {
        if self.cursor < self.sets.len() {
            self.last_input = Some(now.tick);
            let c = self.cursor;
            let ghost before = sets_view(self.sets@);
            self.sets[c].weight.bump(delta);
            let w = self.sets[c].weight.value;
            assert(sets_view(self.sets@) =~= before.update(
                c as int,
                SetModel { weight: before[c as int].weight.bump(delta as int), ..before[c as int] },
            ));
            propagate_weight(&mut self.sets, c, w);
            self.default_weight = w;
        }
    }

    /// Focuses the other field and resets the timer.
    pub fn toggle_focus(&mut self)
        ensures
            final(self)@ == old(self)@.toggle_focus(),
    {
        self.focus = self.focus.toggled();
        self.last_input = None;
    }

    /// Moves the cursor by `delta` sets, keeps it on the sets, and resets the
    /// timer.
    pub fn move_set_cursor(&mut self, delta: i32)
        ensures
            final(self)@ == old(self)@.move_set_cursor(delta as int),
            old(self)@.wf() ==> final(self)@.wf(),
    {
        let len = self.sets.len();
        let target: i128 = self.cursor as i128 + delta as i128;
        self.cursor = if len == 0 || target < 0 {
            0
        } else if target >= len as i128 {
            len - 1
        } else {
            target as usize
        };
        self.last_input = None;
    }

    /// Sends the keystroke `ch` at `now` to the reps of the set under the
    /// cursor. Returns whether the entry is to move on at once.
    pub fn push_reps_char(&mut self, ch: char, now: Now) -> (advance: bool)
        ensures
            final(self)@ == old(self)@.push_reps_char(ch, now),
            advance == old(self)@.reps_advances(ch, now.tick),
            old(self)@.wf() ==> final(self)@.wf(),
    {
        if !char_is_digit(ch) {
            return false;
        }
        if self.cursor >= self.sets.len() {
            return false;
        }
        let c = self.cursor;
        let ghost before = sets_view(self.sets@);
        if has_window_elapsed(self.last_input, now.tick) {
            self.sets[c].reps_buffer = String::new();
        }
        let empty = self.sets[c].reps_buffer.as_str().unicode_len() == 0;
        let advance = takes_reps_fast_path(empty, ch);
        push_char(&mut self.sets[c].reps_buffer, ch);
        self.sets[c].apply_reps_buffer(now.utc);
        self.last_input = Some(now.tick);
        assert(sets_view(self.sets@) =~= before.update(
            c as int,
            SetModel {
                reps_buffer: old(self)@.reps_base(now.tick).push(ch),
                ..before[c as int]
            }.apply_reps_buffer(now.utc),
        ));
        advance
    }

    /// Removes the last digit of the reps of the set under the cursor and
    /// reads the buffer again at `now`; on an empty buffer the reps and the
    /// stamp are cleared.
    pub fn backspace_reps(&mut self, now: Now)
        ensures
            final(self)@ == old(self)@.backspace_reps(now.utc),
            old(self)@.wf() ==> final(self)@.wf(),
    {
        if self.cursor < self.sets.len() {
            let c = self.cursor;
            let ghost before = sets_view(self.sets@);
            if pop_char(&mut self.sets[c].reps_buffer).is_some() {
                self.sets[c].apply_reps_buffer(now.utc);
            } else {
                self.sets[c].reps = None;
                self.sets[c].completed_at = None;
            }
            assert(sets_view(self.sets@) =~= before.update(
                c as int,
                if before[c as int].reps_buffer.len() > 0 {
                    SetModel {
                        reps_buffer: before[c as int].reps_buffer.drop_last(),
                        ..before[c as int]
                    }.apply_reps_buffer(now.utc)
                } else {
                    before[c as int].without_reps()
                },
            ));
        }
    }

    /// Moves the entry on from the set under the cursor: to the reps of the
    /// next set, or of a blank set appended for it.
    pub fn advance(&mut self)
        ensures
            final(self)@ == old(self)@.advance(),
            old(self)@.wf() ==> final(self)@.wf(),
    {
        self.last_input = None;
        let len = self.sets.len();
        if self.cursor < len && self.cursor + 1 < len {
            self.cursor = self.cursor + 1;
            self.focus = Focus::Reps;
            return ;
        }
        let seed = if len > 0 {
            self.sets[len - 1].weight.value
        } else {
            self.default_weight
        };
        let number: i32 = if len < 2_147_483_647 {
            (len + 1) as i32
        } else {
            2_147_483_647
        };
        let ghost before = sets_view(self.sets@);
        self.default_weight = seed;
        self.sets.push(SetState::empty(number, seed));
        self.cursor = len;
        self.focus = Focus::Reps;
        assert(sets_view(self.sets@) =~= before.push(SetModel::empty(number, seed.milli as nat)));
    }

    /// Drops the blank sets at the end, one set always staying, and keeps
    /// the cursor on the sets.
    pub fn trim_empty_trailing(&mut self)
        ensures
            final(self)@ == old(self)@.trim_empty_trailing(),
            old(self)@.wf() ==> final(self)@.wf(),
    {
        let ghost before = sets_view(self.sets@);
        while self.sets.len() > 1 && self.sets[self.sets.len() - 1].is_empty()
            invariant
                self.sets.len() <= before.len(),
                before == sets_view(old(self).sets@),
                sets_view(self.sets@) == before.take(self.sets.len() as int),
                trimmed_len(sets_view(self.sets@)) == trimmed_len(before),
                self.id == old(self).id,
                self.name == old(self).name,
                self.focus == old(self).focus,
                self.cursor == old(self).cursor,
                self.default_weight == old(self).default_weight,
                self.last_input == old(self).last_input,
            decreases self.sets.len(),
        {
            let ghost cur = sets_view(self.sets@);
            let _ = self.sets.pop();
            assert(sets_view(self.sets@) =~= cur.drop_last());
        }
        let len = self.sets.len();
        if len == 0 {
            self.cursor = 0;
        } else if self.cursor >= len {
            self.cursor = len - 1;
        }
        proof {
            lemma_trimmed_len(before);
        }
    }

    /// How many sets the exercise shows: all of them when it is selected,
    /// else those before the blank sets at the end; at least one.
    pub fn visible_len(&self, selected: bool) -> (n: usize)
        ensures
            n == self@.visible_len(selected),
    {
        let len = self.sets.len();
        if selected {
            return if len == 0 {
                1
            } else {
                len
            };
        }
        let ghost all = sets_view(self.sets@);
        let mut k: usize = len;
        assert(all.take(len as int) =~= all);
        while k > 0 && self.sets[k - 1].is_empty()
            invariant
                k <= len,
                len == self.sets.len(),
                all == sets_view(self.sets@),
                trailing_blank(all) == (len - k) + trailing_blank(all.take(k as int)),
            decreases k,
        {
            assert(all.take(k as int).drop_last() =~= all.take(k - 1));
            k = k - 1;
        }
        if k == 0 {
            1
        } else {
            k
        }
    }

    /// Deletes the set under the cursor, if the service knows the exercise
    /// and the cursor points at a set. Returns the number under which the
    /// service has to delete the set, if it knows that set.
    pub fn delete_current(&mut self) -> (request: Option<i32>)
        ensures
            final(self)@ == old(self)@.delete_current(),
            request == old(self)@.delete_request(),
            old(self)@.wf() ==> final(self)@.wf(),
    {
        if self.id.is_none() || self.cursor >= self.sets.len() {
            return None;
        }
        let ghost before = sets_view(self.sets@);
        let removed = self.sets.remove(self.cursor);
        assert(sets_view(self.sets@) =~= before.remove(self.cursor as int));
        if self.sets.len() == 0 {
            self.sets.push(SetState::empty(1, self.default_weight));
            assert(sets_view(self.sets@) =~= seq![
                SetModel::empty(1, self.default_weight.milli as nat),
            ]);
        }
        let ghost kept = sets_view(self.sets@);
        let n = self.sets.len();
        let mut i: usize = 0;
        while i < n
            invariant
                i <= n,
                n == self.sets.len(),
                kept.len() == n,
                forall|j: int| 0 <= j < i ==> (#[trigger] self.sets[j])@ == renumbered(kept)[j],
                forall|j: int| i <= j < n ==> (#[trigger] self.sets[j])@ == kept[j],
                self.id == old(self).id,
                self.name == old(self).name,
                self.focus == old(self).focus,
                self.cursor == old(self).cursor,
                self.default_weight == old(self).default_weight,
                self.last_input == old(self).last_input,
            decreases n - i,
        {
            self.sets[i].number = if i < 2_147_483_647 {
                (i + 1) as i32
            } else {
                2_147_483_647
            };
            i = i + 1;
        }
        assert(sets_view(self.sets@) =~= renumbered(kept));
        if self.cursor >= n {
            self.cursor = n - 1;
        }
        if removed.id.is_some() {
            Some(removed.number)
        } else {
            None
        }
    }

    /// Marks the set under the cursor as being saved, if the service knows
    /// the exercise and the set has committed reps, and returns what the
    /// save carries: the number of the set and its values, `noon` standing
    /// in for a missing stamp.
    pub fn begin_save(&mut self, noon: Timestamp) -> (request: Option<(i32, SetInput)>)
        ensures
            final(self)@ == old(self)@.mark_saving(),
            request == old(self)@.save_request(noon),
            old(self)@.wf() ==> final(self)@.wf(),
    {
        if self.id.is_none() || self.cursor >= self.sets.len() {
            return None;
        }
        let c = self.cursor;
        let reps = match self.sets[c].reps {
            Some(r) => r,
            None => {
                return None;
            },
        };
        let completed_at = match self.sets[c].completed_at {
            Some(t) => t,
            None => noon,
        };
        let ghost before = sets_view(self.sets@);
        self.sets[c].pending = true;
        assert(sets_view(self.sets@) =~= before.update(
            c as int,
            SetModel { pending: true, ..before[c as int] },
        ));
        Some(
            (
                self.sets[c].number,
                SetInput {
                    weight: self.sets[c].weight.value,
                    reps,
                    completed_at: Some(completed_at),
                },
            ),
        )
    }

    /// Replaces the sets by those the service listed for the day.
    pub fn apply_server_sets(&mut self, data: DaySets)
        ensures
            final(self)@ == old(self)@.apply_server_sets(data.sets@),
            final(self)@.sets.len() > 0,
            final(self)@.on_set(),
            all_wf(final(self)@.sets),
    {
        let n = data.sets.len();
        let mut sets: Vec<SetState> = Vec::new();
        if n == 0 {
            sets.push(SetState::empty(1, self.default_weight));
            assert(sets_view(sets@) =~= seq![
                SetModel::empty(1, self.default_weight.milli as nat),
            ]);
        } else {
            let mut i: usize = 0;
            while i < n
                invariant
                    i <= n,
                    n == data.sets.len(),
                    sets.len() == i,
                    forall|j: int|
                        0 <= j < i ==> (#[trigger] sets[j])@ == SetModel::from_server(
                            data.sets[j],
                        ),
                    forall|j: int| 0 <= j < i ==> (#[trigger] sets[j])@.wf(),
                decreases n - i,
            {
                sets.push(SetState::from_record(&data.sets[i]));
                i = i + 1;
            }
            assert(sets_view(sets@) =~= server_sets(data.sets@));
        }
        let len = sets.len();
        if self.cursor >= len {
            self.cursor = len - 1;
        }
        self.default_weight = sets[len - 1].weight.value;
        self.sets = sets;
    }

    /// Takes the service's confirmation of the save of `saved`, at `now`.
    pub fn apply_saved_set(&mut self, saved: &WorkoutSet, now: Now)
        ensures
            final(self)@ == old(self)@.apply_saved_set(*saved, now.tick),
            old(self)@.wf() ==> final(self)@.wf(),
    {
        let n = self.sets.len();
        let ghost before = sets_view(self.sets@);
        let mut k: usize = 0;
        while k < n && self.sets[k].number != saved.set_number
            invariant
                k <= n,
                n == self.sets.len(),
                before == sets_view(self.sets@),
                *self == *old(self),
                forall|j: int| 0 <= j < k ==> (#[trigger] before[j]).number != saved.set_number,
            decreases n - k,
        {
            k = k + 1;
        }
        proof {
            lemma_position_of_number_is(before, saved.set_number, k as int);
        }
        let take = has_window_elapsed(self.last_input, now.tick);
        if take {
            self.default_weight = saved.weight;
        }
        if k < n {
            self.sets[k].confirm(saved, take);
            assert(sets_view(self.sets@) =~= before.update(
                k as int,
                before[k as int].confirmed(*saved, take),
            ));
        } else {
            self.sets.push(SetState::from_record(saved));
            assert(sets_view(self.sets@) =~= before.push(SetModel::from_server(*saved)));
            sort_sets(&mut self.sets);
            proof {
                lemma_sort_keeps(before.push(SetModel::from_server(*saved)));
            }
        }
    }
}

} // verus!
