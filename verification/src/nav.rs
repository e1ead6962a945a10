//! Moving through the grid: from field to field, from set to set, and from
//! one exercise to the next.

use vstd::prelude::*;
use crate::app::{exercises_view, step_index, stepped, App, AppModel};
use crate::exercise::ExerciseModel;
use crate::focus::Focus;

verus! {

impl ExerciseModel {
    /// The exercise as it is entered from the one before: the weight of its
    /// first set focused, the timer reset.
    pub open spec fn entered_at_start(self) -> ExerciseModel {
        ExerciseModel { cursor: 0, focus: Focus::Weight, last_input: None, ..self }
    }

    /// The exercise as it is entered from the one after: the reps of its
    /// last set focused, the timer reset.
    pub open spec fn entered_at_end(self) -> ExerciseModel {
        ExerciseModel {
            cursor: if self.sets.len() == 0 {
                0
            } else {
                (self.sets.len() - 1) as nat
            },
            focus: Focus::Reps,
            last_input: None,
            ..self
        }
    }

    /// Whether a step forward stays in the exercise: from the weight to the
    /// reps, or from the reps to the weight of the next set.
    pub open spec fn steps_forward_within(self) -> bool {
        self.focus == Focus::Weight || self.cursor + 1 < self.sets.len()
    }

    /// The exercise after a step forward that stays in it.
    pub open spec fn stepped_forward(self) -> ExerciseModel
        recommends
            self.steps_forward_within(),
    {
        if self.focus == Focus::Weight {
            ExerciseModel { focus: Focus::Reps, last_input: None, ..self }
        } else {
            ExerciseModel {
                cursor: self.cursor + 1,
                focus: Focus::Weight,
                last_input: None,
                ..self
            }
        }
    }

    /// Whether a step back stays in the exercise: from the reps to the
    /// weight, or from the weight to the reps of the set before.
    pub open spec fn steps_back_within(self) -> bool {
        self.focus == Focus::Reps || self.cursor > 0
    }

    /// The exercise after a step back that stays in it.
    pub open spec fn stepped_back(self) -> ExerciseModel
        recommends
            self.steps_back_within(),
    {
        if self.focus == Focus::Reps {
            ExerciseModel { focus: Focus::Weight, last_input: None, ..self }
        } else {
            ExerciseModel {
                cursor: (self.cursor - 1) as nat,
                focus: Focus::Reps,
                last_input: None,
                ..self
            }
        }
    }
}

impl AppModel {
    /// The state with the selected exercise rid of its blank sets at the
    /// end.
    pub open spec fn trim_current(self) -> AppModel {
        if self.on_exercise() {
            self.with_current(self.current().trim_empty_trailing())
        } else {
            self
        }
    }

    /// The state after the selection moved by `delta` exercises: the
    /// exercise left loses its blank sets at the end, the selection is kept
    /// on the exercises, the timer of the exercise entered is reset, and its
    /// sets are asked for.
    pub open spec fn select_exercise(self, delta: int) -> AppModel {
        if self.exercises.len() == 0 {
            self
        } else {
            let left = self.trim_current();
            let next = stepped(self.selected, delta, self.exercises.len());
            AppModel {
                selected: next,
                exercises: left.exercises.update(
                    next as int,
                    left.exercises[next as int].reset_timer(),
                ),
                ..left
            }.request_current_sets()
        }
    }

    /// The state after a step forward. Within the exercise it goes from the
    /// weight to the reps and from the reps to the weight of the next set.
    /// Past the last set it goes to the weight of the first set of the next
    /// exercise, the exercise left losing its blank sets at the end. Past the
    /// last set of the last exercise nothing moves.
    pub open spec fn tab_next(self) -> AppModel {
        if self.exercises.len() == 0 {
            self
        } else if self.on_exercise() && self.current().steps_forward_within() {
            self.with_current(self.current().stepped_forward())
        } else if self.selected + 1 < self.exercises.len() {
            let left = self.trim_current();
            let next = (self.selected + 1) as int;
            AppModel {
                selected: next as nat,
                exercises: left.exercises.update(next, left.exercises[next].entered_at_start()),
                ..left
            }.request_current_sets()
        } else {
            self
        }
    }

    /// The state after a step back. Within the exercise it goes from the
    /// reps to the weight and from the weight to the reps of the set before.
    /// Before the first set it goes to the reps of the last set of the
    /// exercise before, the exercise left losing its blank sets at the end.
    /// Before the first set of the first exercise nothing moves.
    pub open spec fn tab_prev(self) -> AppModel {
        if self.exercises.len() == 0 {
            self
        } else if self.on_exercise() && self.current().steps_back_within() {
            self.with_current(self.current().stepped_back())
        } else if self.selected > 0 {
            let left = self.trim_current();
            let next = self.selected - 1;
            AppModel {
                selected: next as nat,
                exercises: if next < left.exercises.len() {
                    left.exercises.update(next, left.exercises[next].entered_at_end())
                } else {
                    left.exercises
                },
                ..left
            }.request_current_sets()
        } else {
            self
        }
    }
}

impl App {
    /// Rids the selected exercise of its blank sets at the end.
    fn trim_current(&mut self)
        ensures
            final(self)@ == old(self)@.trim_current(),
            old(self)@.wf() ==> final(self)@.wf(),
    {
        if self.selected < self.exercises.len() {
            let ghost before = exercises_view(self.exercises@);
            let s = self.selected;
            self.exercises[s].trim_empty_trailing();
            assert(exercises_view(self.exercises@) =~= before.update(
                s as int,
                before[s as int].trim_empty_trailing(),
            ));
        }
    }

    /// Moves the selection by `delta` exercises.
    pub fn select_exercise(&mut self, delta: i32)
        ensures
            final(self)@ == old(self)@.select_exercise(delta as int),
            old(self)@.wf() ==> final(self)@.wf(),
    {
        if self.exercises.len() == 0 {
            return ;
        }
        let ghost len = self.exercises.len();
        self.trim_current();
        let next = step_index(self.selected, delta, self.exercises.len());
        self.selected = next;
        let ghost left = exercises_view(self.exercises@);
        self.exercises[next].reset_timer();
        assert(exercises_view(self.exercises@) =~= left.update(
            next as int,
            left[next as int].reset_timer(),
        ));
        self.request_current_sets();
    }

    /// Steps forward: to the next field, the next set, or the next exercise.
    pub fn tab_next(&mut self)
        ensures
            final(self)@ == old(self)@.tab_next(),
            old(self)@.wf() ==> final(self)@.wf(),
    {
        let len = self.exercises.len();
        if len == 0 {
            return ;
        }
        let s = self.selected;
        if s < len {
            let ghost before = exercises_view(self.exercises@);
            let focus = self.exercises[s].focus;
            let cursor = self.exercises[s].cursor;
            let sets = self.exercises[s].sets.len();
            match focus {
                Focus::Weight => {
                    self.exercises[s].focus = Focus::Reps;
                    self.exercises[s].last_input = None;
                    assert(exercises_view(self.exercises@) =~= before.update(
                        s as int,
                        before[s as int].stepped_forward(),
                    ));
                    return ;
                },
                Focus::Reps => {
                    if cursor < sets && cursor + 1 < sets {
                        self.exercises[s].cursor = cursor + 1;
                        self.exercises[s].focus = Focus::Weight;
                        self.exercises[s].last_input = None;
                        assert(exercises_view(self.exercises@) =~= before.update(
                            s as int,
                            before[s as int].stepped_forward(),
                        ));
                        return ;
                    }
                },
            }
        }
        if s < len - 1 {
            self.trim_current();
            let next = s + 1;
            self.selected = next;
            let ghost left = exercises_view(self.exercises@);
            self.exercises[next].cursor = 0;
            self.exercises[next].focus = Focus::Weight;
            self.exercises[next].last_input = None;
            assert(exercises_view(self.exercises@) =~= left.update(
                next as int,
                left[next as int].entered_at_start(),
            ));
            self.request_current_sets();
        }
    }

    /// Steps back: to the field before, the set before, or the exercise
    /// before.
    pub fn tab_prev(&mut self)
        ensures
            final(self)@ == old(self)@.tab_prev(),
            old(self)@.wf() ==> final(self)@.wf(),
    {
        let len = self.exercises.len();
        if len == 0 {
            return ;
        }
        let s = self.selected;
        if s < len {
            let ghost before = exercises_view(self.exercises@);
            let focus = self.exercises[s].focus;
            let cursor = self.exercises[s].cursor;
            match focus {
                Focus::Reps => {
                    self.exercises[s].focus = Focus::Weight;
                    self.exercises[s].last_input = None;
                    assert(exercises_view(self.exercises@) =~= before.update(
                        s as int,
                        before[s as int].stepped_back(),
                    ));
                    return ;
                },
                Focus::Weight => {
                    if cursor > 0 {
                        self.exercises[s].cursor = cursor - 1;
                        self.exercises[s].focus = Focus::Reps;
                        self.exercises[s].last_input = None;
                        assert(exercises_view(self.exercises@) =~= before.update(
                            s as int,
                            before[s as int].stepped_back(),
                        ));
                        return ;
                    }
                },
            }
        }
        if s > 0 {
            self.trim_current();
            let next = s - 1;
            self.selected = next;
            if next < len {
                let ghost left = exercises_view(self.exercises@);
                let sets = self.exercises[next].sets.len();
                self.exercises[next].cursor = if sets == 0 {
                    0
                } else {
                    sets - 1
                };
                self.exercises[next].focus = Focus::Reps;
                self.exercises[next].last_input = None;
                assert(exercises_view(self.exercises@) =~= left.update(
                    next as int,
                    left[next as int].entered_at_end(),
                ));
            }
            self.request_current_sets();
        }
    }
}

} // verus!
