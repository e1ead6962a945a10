//! The controller: the exercises of the day, the selection among them, and
//! the queue of requests to the service. This file holds its state and the
//! editing of the grid; the exchange with the service and the side views
//! stand in files of their own.

use vstd::prelude::*;
use vstd::string::*;
use crate::api::{requests_view, Request, RequestModel};
use crate::auth::{AuthModel, AuthState};
use crate::exercise::{ExerciseModel, ExerciseState};
use crate::focus::Focus;
use crate::manage::{EditModel, ExerciseEditState, ManageModel, ManageState};
use crate::models::{ActivityDay, Exercise, Graph, Template};
use crate::screen;
use crate::text::{count_text, signed_decimal};
use crate::time::{idle_since_input, Day, Now};

verus! {

/// The controller's state.
pub struct App {
    pub running: bool,
    pub view: screen::View,
    pub auth: AuthState,
    pub day: Day,
    pub exercises: Vec<ExerciseState>,
    pub graphs: Vec<Graph>,
    pub activity: Vec<ActivityDay>,
    pub selected: usize,
    pub status: String,
    pub manage: ManageState,
    pub exercise_edit: ExerciseEditState,
    pub plans: Vec<Template>,
    pub all_exercises: Vec<Exercise>,
    pub pending_graphs: Vec<i64>,
    pub loading_sets: Vec<(Day, i64)>,
    pub outbox: Vec<Request>,
}

/// What an [`App`] holds, as mathematics.
pub ghost struct AppModel {
    pub running: bool,
    pub view: screen::View,
    pub auth: AuthModel,
    pub day: Day,
    pub exercises: Seq<ExerciseModel>,
    pub graphs: Seq<Graph>,
    pub activity: Seq<ActivityDay>,
    pub selected: nat,
    pub status: Seq<char>,
    pub manage: ManageModel,
    pub exercise_edit: EditModel,
    pub plans: Seq<Template>,
    pub all_exercises: Seq<Exercise>,
    pub pending_graphs: Seq<i64>,
    pub loading_sets: Seq<(Day, i64)>,
    pub outbox: Seq<RequestModel>,
}

/// The models of a run of exercises, in order.
pub open spec fn exercises_view(exercises: Seq<ExerciseState>) -> Seq<ExerciseModel> {
    Seq::new(exercises.len(), |i: int| exercises[i]@)
}

impl View for App {
    type V = AppModel;

    open spec fn view(&self) -> AppModel {
        AppModel {
            running: self.running,
            view: self.view,
            auth: self.auth@,
            day: self.day,
            exercises: exercises_view(self.exercises@),
            graphs: self.graphs@,
            activity: self.activity@,
            selected: self.selected as nat,
            status: self.status@,
            manage: self.manage@,
            exercise_edit: self.exercise_edit@,
            plans: self.plans@,
            all_exercises: self.all_exercises@,
            pending_graphs: self.pending_graphs@,
            loading_sets: self.loading_sets@,
            outbox: requests_view(self.outbox@),
        }
    }
}

/// The index `delta` steps from `index` among `len` items, kept on them.
pub open spec fn stepped(index: nat, delta: int, len: nat) -> nat {
    if len == 0 || index + delta < 0 {
        0
    } else if index + delta >= len {
        (len - 1) as nat
    } else {
        (index + delta) as nat
    }
}

/// Steps `delta` from `index` among `len` items and stays on them.
pub fn step_index(index: usize, delta: i32, len: usize) -> (r: usize)
    ensures
        r == stepped(index as nat, delta as int, len as nat),
{
    let target: i128 = index as i128 + delta as i128;
    if len == 0 || target < 0 {
        0
    } else if target >= len as i128 {
        len - 1
    } else {
        target as usize
    }
}

impl AppModel {
    /// Every exercise is well formed.
    pub open spec fn grid_wf(self) -> bool {
        forall|i: int| 0 <= i < self.exercises.len() ==> (#[trigger] self.exercises[i]).wf()
    }

    /// Every exercise is well formed, and no request is marked as under way
    /// twice.
    pub open spec fn wf(self) -> bool {
        &&& self.grid_wf()
        &&& self.loading_sets.no_duplicates()
        &&& self.pending_graphs.no_duplicates()
    }

    /// Whether an exercise is selected.
    pub open spec fn on_exercise(self) -> bool {
        self.selected < self.exercises.len()
    }

    /// The selected exercise.
    pub open spec fn current(self) -> ExerciseModel
        recommends
            self.on_exercise(),
    {
        self.exercises[self.selected as int]
    }

    /// The state with `ex` in place of the selected exercise.
    pub open spec fn with_current(self, ex: ExerciseModel) -> AppModel
        recommends
            self.on_exercise(),
    {
        AppModel { exercises: self.exercises.update(self.selected as int, ex), ..self }
    }

    /// The state with one more request queued.
    pub open spec fn send(self, request: RequestModel) -> AppModel {
        AppModel { outbox: self.outbox.push(request), ..self }
    }

    /// The state with the queue of requests emptied.
    pub open spec fn sent(self) -> AppModel {
        AppModel { outbox: Seq::empty(), ..self }
    }

    /// The state after the other field of the selected exercise was focused.
    pub open spec fn toggle_focus(self) -> AppModel {
        if self.on_exercise() {
            self.with_current(self.current().toggle_focus())
        } else {
            self
        }
    }

    /// The state after the set cursor of the selected exercise moved by
    /// `delta`.
    pub open spec fn move_set_cursor(self, delta: int) -> AppModel {
        if self.on_exercise() {
            self.with_current(self.current().move_set_cursor(delta))
        } else {
            self
        }
    }

    /// The state after the entry moved on in the selected exercise.
    pub open spec fn advance_set(self) -> AppModel {
        if self.on_exercise() {
            self.with_current(self.current().advance())
        } else {
            self
        }
    }

    /// The state after the set under the cursor was handed to the service:
    /// if the service knows the exercise and the set has committed reps, the
    /// set is pending and a save is queued that carries its number, its
    /// weight and reps, and its stamp, local noon of the day standing in for
    /// a missing stamp. Else nothing changes.
    pub open spec fn sync_current_set(self, now: Now) -> AppModel {
        if self.on_exercise() {
            let ex = self.current();
            match ex.save_request(self.day.noon_spec(now.offset)) {
                Some((set_number, input)) => self.with_current(ex.mark_saving()).send(
                    RequestModel::SaveSet {
                        day: self.day,
                        exercise_id: ex.id->0,
                        set_number,
                        input,
                    },
                ),
                None => self,
            }
        } else {
            self
        }
    }

    /// Whether a tick at `now` moves the entry on: the workout is on screen,
    /// the reps of a set with committed reps are focused, and the debounce
    /// window has run out since the last keystroke.
    pub open spec fn tick_advances(self, now: Now) -> bool {
        &&& self.view == screen::View::Workout
        &&& self.on_exercise()
        &&& self.current().focus == Focus::Reps
        &&& idle_since_input(self.current().last_input, now.tick)
        &&& self.current().on_set()
        &&& self.current().current().reps is Some
    }

    /// The state after a tick at `now`.
    pub open spec fn tick(self, now: Now) -> AppModel {
        if self.tick_advances(now) {
            self.advance_set()
        } else {
            self
        }
    }

    /// The state after the keystroke `ch` at `now` in the workout. In the
    /// weight, the field takes it and the set is handed to the service. In
    /// the reps, the entry first moves on if it has been idle, then the
    /// field takes the keystroke, the set is handed to the service, and the
    /// entry moves on again if the keystroke completed the count.
    pub open spec fn input_char(self, ch: char, now: Now) -> AppModel {
        if !self.on_exercise() {
            self
        } else if self.current().focus == Focus::Weight {
            self.with_current(self.current().push_weight_char(ch, now.tick)).sync_current_set(now)
        } else {
            let start = if idle_since_input(self.current().last_input, now.tick) {
                self.advance_set()
            } else {
                self
            };
            let typed = start.with_current(
                start.current().push_reps_char(ch, now),
            ).sync_current_set(now);
            if start.current().reps_advances(ch, now.tick) {
                typed.advance_set()
            } else {
                typed
            }
        }
    }

    /// The state after a backspace at `now` in the workout: the focused
    /// field loses its last character and the set is handed to the service.
    pub open spec fn backspace(self, now: Now) -> AppModel {
        if self.on_exercise() {
            let ex = self.current();
            self.with_current(
                if ex.focus == Focus::Weight {
                    ex.backspace_weight(now.tick)
                } else {
                    ex.backspace_reps(now.utc)
                },
            ).sync_current_set(now)
        } else {
            self
        }
    }

    /// The state after the weight under the cursor was moved by `delta`
    /// thousandths at `now`: the set is handed to the service.
    pub open spec fn bump_weight(self, delta: int, now: Now) -> AppModel {
        if self.on_exercise() {
            self.with_current(self.current().bump_weight(delta, now.tick)).sync_current_set(now)
        } else {
            self
        }
    }

    /// The state after the set under the cursor was deleted. If the service
    /// knows the set, a delete is queued under the number the set had, and
    /// the status says so.
    pub open spec fn delete_current_set(self) -> AppModel {
        if self.on_exercise() {
            let ex = self.current();
            let after = self.with_current(ex.delete_current());
            match ex.delete_request() {
                Some(set_number) => AppModel {
                    status: "Deleting set "@ + signed_decimal(set_number as int) + "..."@,
                    ..after
                }.send(
                    RequestModel::DeleteSet {
                        day: self.day,
                        exercise_id: ex.id->0,
                        set_number,
                    },
                ),
                None => after,
            }
        } else {
            self
        }
    }
}

impl Day {
    /// Local noon of this day, where local time is `offset` seconds ahead of
    /// UTC.
    pub open spec fn noon_spec(self, offset: i32) -> crate::time::Timestamp {
        crate::time::Timestamp { secs: Day::noon_secs(self@, offset as int) as i64, nanos: 0 }
    }
}

impl App {
    /// Queues a request.
    pub fn send(&mut self, request: Request)
        ensures
            final(self)@ == old(self)@.send(request@),
            old(self)@.wf() ==> final(self)@.wf(),
    {
        let ghost before = requests_view(self.outbox@);
        self.outbox.push(request);
        assert(requests_view(self.outbox@) =~= before.push(request@));
    }

    /// Hands out the queued requests, in the order they were queued, and
    /// empties the queue.
    pub fn take_requests(&mut self) -> (requests: Vec<Request>)
        ensures
            requests_view(requests@) == old(self)@.outbox,
            final(self)@ == old(self)@.sent(),
            old(self)@.wf() ==> final(self)@.wf(),
    {
        let mut requests: Vec<Request> = Vec::new();
        core::mem::swap(&mut requests, &mut self.outbox);
        assert(requests_view(self.outbox@) =~= Seq::<RequestModel>::empty());
        requests
    }

    /// Focuses the other field of the selected exercise.
    pub fn toggle_focus(&mut self)
        ensures
            final(self)@ == old(self)@.toggle_focus(),
            old(self)@.wf() ==> final(self)@.wf(),
    {
        if self.selected < self.exercises.len() {
            let ghost before = exercises_view(self.exercises@);
            let s = self.selected;
            self.exercises[s].toggle_focus();
            assert(exercises_view(self.exercises@) =~= before.update(
                s as int,
                before[s as int].toggle_focus(),
            ));
        }
    }

    /// Moves the set cursor of the selected exercise by `delta`.
    pub fn move_set_cursor(&mut self, delta: i32)
        ensures
            final(self)@ == old(self)@.move_set_cursor(delta as int),
            old(self)@.wf() ==> final(self)@.wf(),
    {
        if self.selected < self.exercises.len() {
            let ghost before = exercises_view(self.exercises@);
            let s = self.selected;
            self.exercises[s].move_set_cursor(delta);
            assert(exercises_view(self.exercises@) =~= before.update(
                s as int,
                before[s as int].move_set_cursor(delta as int),
            ));
        }
    }

    /// Moves the entry on in the selected exercise.
    pub fn advance_set(&mut self)
        ensures
            final(self)@ == old(self)@.advance_set(),
            old(self)@.wf() ==> final(self)@.wf(),
    {
        if self.selected < self.exercises.len() {
            let ghost before = exercises_view(self.exercises@);
            let s = self.selected;
            self.exercises[s].advance();
            assert(exercises_view(self.exercises@) =~= before.update(
                s as int,
                before[s as int].advance(),
            ));
        }
    }

    /// Hands the set under the cursor to the service, if the service knows
    /// the exercise and the set has committed reps.
    pub fn sync_current_set(&mut self, now: Now)
        ensures
            final(self)@ == old(self)@.sync_current_set(now),
            old(self)@.wf() ==> final(self)@.wf(),
    {
        if self.selected >= self.exercises.len() {
            return ;
        }
        let ghost before = exercises_view(self.exercises@);
        let s = self.selected;
        let noon = self.day.noon(now.offset);
        let exercise_id = self.exercises[s].id;
        match self.exercises[s].begin_save(noon) {
            Some((set_number, input)) => {
                assert(exercises_view(self.exercises@) =~= before.update(
                    s as int,
                    before[s as int].mark_saving(),
                ));
                match exercise_id {
                    Some(id) => {
                        self.send(Request::SaveSet { day: self.day, exercise_id: id, set_number, input });
                    },
                    None => {},
                }
            },
            None => {
                assert(exercises_view(self.exercises@) =~= before);
            },
        }
    }

    /// Moves the entry on if the user has been idle after committing reps.
    pub fn tick(&mut self, now: Now)
        ensures
            final(self)@ == old(self)@.tick(now),
            old(self)@.wf() ==> final(self)@.wf(),
    {
        if self.view != screen::View::Workout {
            return ;
        }
        if self.selected >= self.exercises.len() {
            return ;
        }
        let ex = &self.exercises[self.selected];
        if ex.focus == Focus::Reps && ex.should_auto_advance(now) && ex.cursor < ex.sets.len()
            && ex.sets[ex.cursor].reps.is_some() {
            self.advance_set();
        }
    }

    /// Takes the keystroke `ch` at `now` in the workout.
    pub fn input_char(&mut self, ch: char, now: Now)
        ensures
            final(self)@ == old(self)@.input_char(ch, now),
            old(self)@.wf() ==> final(self)@.wf(),
    {
        if self.selected >= self.exercises.len() {
            return ;
        }
        let s = self.selected;
        match self.exercises[s].focus {
            Focus::Weight => {
                let ghost before = exercises_view(self.exercises@);
                self.exercises[s].push_weight_char(ch, now);
                assert(exercises_view(self.exercises@) =~= before.update(
                    s as int,
                    before[s as int].push_weight_char(ch, now.tick),
                ));
                self.sync_current_set(now);
            },
            Focus::Reps => {
                if self.exercises[s].should_auto_advance(now) {
                    self.advance_set();
                }
                let ghost start = exercises_view(self.exercises@);
                let advance = self.exercises[s].push_reps_char(ch, now);
                assert(exercises_view(self.exercises@) =~= start.update(
                    s as int,
                    start[s as int].push_reps_char(ch, now),
                ));
                self.sync_current_set(now);
                if advance {
                    self.advance_set();
                }
            },
        }
    }

    /// Takes a backspace at `now` in the workout.
    pub fn backspace(&mut self, now: Now)
        ensures
            final(self)@ == old(self)@.backspace(now),
            old(self)@.wf() ==> final(self)@.wf(),
    {
        if self.selected < self.exercises.len() {
            let ghost before = exercises_view(self.exercises@);
            let s = self.selected;
            match self.exercises[s].focus {
                Focus::Weight => {
                    self.exercises[s].backspace_weight(now);
                    assert(exercises_view(self.exercises@) =~= before.update(
                        s as int,
                        before[s as int].backspace_weight(now.tick),
                    ));
                },
                Focus::Reps => {
                    self.exercises[s].backspace_reps(now);
                    assert(exercises_view(self.exercises@) =~= before.update(
                        s as int,
                        before[s as int].backspace_reps(now.utc),
                    ));
                },
            }
            self.sync_current_set(now);
        }
    }

    /// Moves the weight under the cursor by `delta` thousandths, at `now`.
    pub fn bump_weight(&mut self, delta: i32, now: Now)
        ensures
            final(self)@ == old(self)@.bump_weight(delta as int, now),
            old(self)@.wf() ==> final(self)@.wf(),
    {
        if self.selected < self.exercises.len() {
            let ghost before = exercises_view(self.exercises@);
            let s = self.selected;
            self.exercises[s].bump_weight(delta, now);
            assert(exercises_view(self.exercises@) =~= before.update(
                s as int,
                before[s as int].bump_weight(delta as int, now.tick),
            ));
            self.sync_current_set(now);
        }
    }

    /// Deletes the set under the cursor.
    pub fn delete_current_set(&mut self)
        ensures
            final(self)@ == old(self)@.delete_current_set(),
            old(self)@.wf() ==> final(self)@.wf(),
    {
        if self.selected >= self.exercises.len() {
            return ;
        }
        let ghost before = exercises_view(self.exercises@);
        let s = self.selected;
        let exercise_id = self.exercises[s].id;
        let request = self.exercises[s].delete_current();
        assert(exercises_view(self.exercises@) =~= before.update(
            s as int,
            before[s as int].delete_current(),
        ));
        match (request, exercise_id) {
            (Some(set_number), Some(id)) => {
                let mut status = String::from_str("Deleting set ");
                status.append(count_text(set_number).as_str());
                status.append("...");
                self.status = status;
                self.send(Request::DeleteSet { day: self.day, exercise_id: id, set_number });
            },
            _ => {},
        }
    }
}

} // verus!
