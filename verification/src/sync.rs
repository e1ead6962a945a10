//! The exchange with the service: which requests the controller queues, and
//! how it takes what comes back. Responses may arrive late and in any order,
//! so each one is matched to the state as it is when it arrives: by day, by
//! exercise and by set number, never by position.

use vstd::prelude::*;
use vstd::string::*;
use crate::api::{Request, RequestModel, Response};
use crate::app::{exercises_view, App, AppModel};
use crate::exercise::{ExerciseModel, ExerciseState};
use crate::manage::ManageMode;
use crate::models::{
    Activity, ActivityQuery, DaySets, Exercise, Graph, Session, Template, User, WorkoutSet,
};
use crate::screen;
use crate::seqs::{any, first_index, kept, lemma_first_index_is, lemma_kept};
use crate::text::{count_text, signed_decimal};
use crate::time::{short_date_text, Day, Now, Timestamp};

verus! {

/// How many days of activity are asked for, today included.
pub const ACTIVITY_DAYS: i64 = 21;

/// The exercise that the service knows as `id`.
pub open spec fn has_id(id: i64) -> spec_fn(ExerciseModel) -> bool {
    |e: ExerciseModel| e.id == Some(id)
}

/// The chart of exercise `id`.
pub open spec fn charts(id: i64) -> spec_fn(Graph) -> bool {
    |g: Graph| g.exercise_id == id
}

/// The exercise of the catalogue that the service knows as `id`.
pub open spec fn listed_as(id: i64) -> spec_fn(Exercise) -> bool {
    |e: Exercise| e.id == id
}

/// The plan of weekday `weekday`, Monday being 0.
pub open spec fn planned_on(weekday: i32) -> spec_fn(Template) -> bool {
    |p: Template| p.day_of_week == Some(weekday)
}

/// The chart of one of `exercises`.
pub open spec fn charts_one_of(exercises: Seq<ExerciseModel>) -> spec_fn(Graph) -> bool {
    |g: Graph| any(exercises, has_id(g.exercise_id))
}

/// The identity of one of `exercises`.
pub open spec fn names_one_of(exercises: Seq<ExerciseModel>) -> spec_fn(i64) -> bool {
    |id: i64| any(exercises, has_id(id))
}

/// Another key than `key`.
pub open spec fn other_than(key: (Day, i64)) -> spec_fn((Day, i64)) -> bool {
    |k: (Day, i64)| k != key
}

/// Another identity than `id`.
pub open spec fn not_id(id: i64) -> spec_fn(i64) -> bool {
    |k: i64| k != id
}

/// The plan that a weekday shows: the first plan of that weekday, else the
/// first plan there is.
pub open spec fn chosen_plan(plans: Seq<Template>, weekday: i32) -> Option<Template> {
    let k = first_index(plans, planned_on(weekday));
    if k < plans.len() {
        Some(plans[k])
    } else if plans.len() > 0 {
        Some(plans[0])
    } else {
        None
    }
}

/// The exercises of a plan as they start a day at `utc`.
pub open spec fn exercises_from(plan: Template, utc: Timestamp) -> Seq<ExerciseModel> {
    Seq::new(
        plan.exercises@.len(),
        |i: int| ExerciseModel::from_template(plan.exercises@[i], utc),
    )
}

/// The span of activity asked for at `utc`: the 21 days that end then.
pub open spec fn activity_query(utc: Timestamp) -> ActivityQuery {
    let span = (ACTIVITY_DAYS - 1) * 86_400;
    ActivityQuery {
        start: Some(
            Timestamp {
                secs: if utc.secs - span < i64::MIN {
                    i64::MIN
                } else {
                    (utc.secs - span) as i64
                },
                nanos: utc.nanos,
            },
        ),
        end: Some(utc),
    }
}

/// `graph` in place of the first chart of its exercise, or at the end if
/// there is none.
pub open spec fn with_graph(graphs: Seq<Graph>, id: i64, graph: Graph) -> Seq<Graph> {
    let k = first_index(graphs, charts(id));
    if k < graphs.len() {
        graphs.update(k, graph)
    } else {
        graphs.push(graph)
    }
}

/// `exercise` in place of the first exercise of the catalogue with its
/// identity; the catalogue as it is if there is none.
pub open spec fn with_listed(all: Seq<Exercise>, exercise: Exercise) -> Seq<Exercise> {
    let k = first_index(all, listed_as(exercise.id));
    if k < all.len() {
        all.update(k, exercise)
    } else {
        all
    }
}

impl AppModel {
    /// The state with the status line set.
    pub open spec fn say(self, status: Seq<char>) -> AppModel {
        AppModel { status, ..self }
    }

    /// The state after the sets of exercise `exercise_id` on the day shown
    /// were asked for: nothing changes while a request for them is under
    /// way; else the request is queued and marked as under way.
    pub open spec fn request_sets_for(self, exercise_id: i64) -> AppModel {
        let key = (self.day, exercise_id);
        if self.loading_sets.contains(key) {
            self
        } else {
            AppModel { loading_sets: self.loading_sets.push(key), ..self }.send(
                RequestModel::LoadSets { day: self.day, exercise_id },
            )
        }
    }

    /// The state after the chart of exercise `id` was asked for: nothing
    /// changes if it is there or a request for it is under way; else the
    /// request is queued and marked as under way.
    pub open spec fn request_graph(self, id: i64) -> AppModel {
        if self.pending_graphs.contains(id) || any(self.graphs, charts(id)) {
            self
        } else {
            AppModel { pending_graphs: self.pending_graphs.push(id), ..self }.send(
                RequestModel::LoadGraph(id),
            )
        }
    }

    /// The state after the sets of the selected exercise were asked for.
    pub open spec fn request_current_sets(self) -> AppModel {
        if self.on_exercise() && self.current().id is Some {
            self.request_sets_for(self.current().id->0)
        } else {
            self
        }
    }

    /// The state after the sets of the first `n` exercises were asked for,
    /// in their order.
    pub open spec fn request_sets_upto(self, n: nat) -> AppModel
        decreases n,
    {
        if n == 0 || n > self.exercises.len() {
            self
        } else {
            let before = self.request_sets_upto((n - 1) as nat);
            match self.exercises[n - 1].id {
                Some(id) => before.request_sets_for(id),
                None => before,
            }
        }
    }

    /// The state after the charts of the first `n` exercises were asked
    /// for, in their order.
    pub open spec fn request_graphs_upto(self, n: nat) -> AppModel
        decreases n,
    {
        if n == 0 || n > self.exercises.len() {
            self
        } else {
            let before = self.request_graphs_upto((n - 1) as nat);
            match self.exercises[n - 1].id {
                Some(id) => before.request_graph(id),
                None => before,
            }
        }
    }

    /// The state after the sets of every exercise were asked for.
    pub open spec fn request_all_sets(self) -> AppModel {
        self.request_sets_upto(self.exercises.len())
    }

    /// The state after the chart of every exercise was asked for.
    pub open spec fn request_all_graphs(self) -> AppModel {
        self.request_graphs_upto(self.exercises.len())
    }

    /// The state after the activity of the days up to `utc` was asked for.
    pub open spec fn request_activity(self, utc: Timestamp) -> AppModel {
        self.send(RequestModel::LoadActivity(activity_query(utc)))
    }

    /// The state after `day` was put on screen at `utc`. The plan of its
    /// weekday gives the exercises, each starting afresh; the first exercise
    /// is selected; no request for sets counts as under way any more; charts
    /// and chart requests of exercises that are not shown are dropped; then
    /// the charts and the sets of all exercises are asked for.
    pub open spec fn apply_day(self, day: Day, utc: Timestamp) -> AppModel {
        let plan = chosen_plan(self.plans, Day::weekday_of(day@) as i32);
        let exercises = match plan {
            Some(p) => exercises_from(p, utc),
            None => Seq::empty(),
        };
        AppModel {
            day,
            selected: 0,
            loading_sets: Seq::empty(),
            status: match plan {
                Some(p) => p.name@ + " • "@ + short_date_text(day@),
                None => "No plans available"@,
            },
            exercises,
            graphs: kept(self.graphs, charts_one_of(exercises)),
            pending_graphs: kept(self.pending_graphs, names_one_of(exercises)),
            ..self
        }.request_all_graphs().request_all_sets()
    }

    /// The state after the day `delta` days on was put on screen at `utc`;
    /// unchanged if the calendar does not reach that far.
    pub open spec fn move_day(self, delta: int, utc: Timestamp) -> AppModel {
        if Day::reaches(self.day@ + delta) {
            self.apply_day(Day::at(self.day@ + delta), utc)
        } else {
            self
        }
    }

    /// The state after `today` was put on screen at `utc`; unchanged if it
    /// is on screen.
    pub open spec fn jump_to_today(self, today: Day, utc: Timestamp) -> AppModel {
        if self.day == today {
            self
        } else {
            self.apply_day(today, utc)
        }
    }

    /// The state after the user signed in as `username` at `utc`: the
    /// workout is on screen, and plans, catalogue and activity are asked for.
    pub open spec fn on_logged_in(self, username: Seq<char>, utc: Timestamp) -> AppModel {
        AppModel {
            view: screen::View::Workout,
            auth: crate::auth::AuthModel { submitting: false, ..self.auth },
            status: "Signed in as "@ + username,
            ..self
        }.send(RequestModel::LoadPlans).send(RequestModel::LoadExercises).request_activity(utc)
    }

    /// The state after the exercise known as `exercise_id` took what `f`
    /// makes of it; unchanged if no exercise is known as that.
    pub open spec fn update_exercise(
        self,
        exercise_id: i64,
        f: spec_fn(ExerciseModel) -> ExerciseModel,
    ) -> AppModel {
        let k = first_index(self.exercises, has_id(exercise_id));
        if k < self.exercises.len() {
            AppModel { exercises: self.exercises.update(k, f(self.exercises[k])), ..self }
        } else {
            self
        }
    }

    /// The state after the sets of an exercise on a day arrived. The request
    /// no longer counts as under way. If the day is no longer on screen the
    /// response is dropped. Else the listed sets replace those of the
    /// exercise, or the status tells the error.
    pub open spec fn on_sets_loaded(
        self,
        exercise_id: i64,
        day: Day,
        result: Result<DaySets, String>,
    ) -> AppModel {
        let cleared = AppModel {
            loading_sets: kept(self.loading_sets, other_than((day, exercise_id))),
            ..self
        };
        if day != self.day {
            cleared
        } else {
            match result {
                Ok(data) => cleared.update_exercise(
                    exercise_id,
                    |e: ExerciseModel| e.apply_server_sets(data.sets@),
                ),
                Err(e) => cleared.say("Load sets error: "@ + e@),
            }
        }
    }

    /// The state after the answer to a save arrived at `now`. If the day is
    /// no longer on screen the response is dropped. On success the exercise
    /// takes the confirmation, the status says so, and the activity is asked
    /// for again. On failure the status tells the error and the sets of the
    /// exercise are asked for, so that the service's list replaces what is
    /// held here.
    pub open spec fn on_set_saved(
        self,
        exercise_id: i64,
        day: Day,
        set_number: i32,
        result: Result<WorkoutSet, String>,
        now: Now,
    ) -> AppModel {
        if day != self.day {
            self
        } else {
            match result {
                Ok(saved) => {
                    let applied = if any(self.exercises, has_id(exercise_id)) {
                        self.update_exercise(
                            exercise_id,
                            |e: ExerciseModel| e.apply_saved_set(saved, now.tick),
                        ).say("Saved set "@ + signed_decimal(set_number as int))
                    } else {
                        self
                    };
                    applied.request_activity(now.utc)
                },
                Err(e) => self.say("Save error: "@ + e@).request_sets_for(exercise_id),
            }
        }
    }

    /// The state after the answer to a delete arrived at `now`. If the day
    /// is no longer on screen the response is dropped. On success the status
    /// says so and the sets of the exercise and the activity are asked for.
    /// On failure the status tells the error and the sets of the exercise
    /// are asked for, so that the service's list replaces what is held here.
    pub open spec fn on_set_deleted(
        self,
        exercise_id: i64,
        day: Day,
        set_number: i32,
        result: Result<(), String>,
        now: Now,
    ) -> AppModel {
        if day != self.day {
            self
        } else {
            match result {
                Ok(_) => self.say(
                    "Deleted set "@ + signed_decimal(set_number as int),
                ).request_sets_for(exercise_id).request_activity(now.utc),
                Err(e) => self.say("Delete error: "@ + e@).request_sets_for(exercise_id),
            }
        }
    }

    /// The state after a chart arrived: the request no longer counts as
    /// under way; the chart replaces the one of its exercise or is added; an
    /// error goes to the status.
    pub open spec fn on_graph(self, id: i64, result: Result<Graph, String>) -> AppModel {
        let cleared = AppModel { pending_graphs: kept(self.pending_graphs, not_id(id)), ..self };
        match result {
            Ok(graph) => AppModel { graphs: with_graph(self.graphs, id, graph), ..cleared },
            Err(e) => cleared.say("Graph error: "@ + e@),
        }
    }

    /// The state after the plans arrived at `now`: they replace the plans
    /// held and the day is put on screen anew. On failure the status tells
    /// the error and no exercises are shown.
    pub open spec fn on_plans(self, result: Result<Vec<Template>, String>, now: Now) -> AppModel {
        match result {
            Ok(plans) => AppModel { plans: plans@, ..self }.apply_day(self.day, now.utc),
            Err(e) => AppModel { exercises: Seq::empty(), ..self.say("Load error: "@ + e@) },
        }
    }

    /// The state after the activity arrived.
    pub open spec fn on_activity(self, result: Result<Activity, String>) -> AppModel {
        match result {
            Ok(activity) => AppModel { activity: activity.days@, ..self },
            Err(e) => self.say("Activity error: "@ + e@),
        }
    }

    /// The state with the side views brought up to the catalogue as it is:
    /// the search where it is open, the list where it is on screen.
    pub open spec fn refresh_catalogue_views(self) -> AppModel {
        AppModel {
            manage: if self.manage.mode == ManageMode::AddExercise {
                self.manage.update_search(self.all_exercises)
            } else {
                self.manage
            },
            exercise_edit: if self.view == screen::View::Exercises {
                self.exercise_edit.update_filtered(self.all_exercises)
            } else {
                self.exercise_edit
            },
            ..self
        }
    }

    /// The state after the catalogue arrived.
    pub open spec fn on_exercises(self, result: Result<Vec<Exercise>, String>) -> AppModel {
        match result {
            Ok(exercises) => AppModel {
                all_exercises: exercises@,
                ..self
            }.refresh_catalogue_views(),
            Err(e) => self.say("Load exercises error: "@ + e@),
        }
    }

    /// The state after the answer to the creation of a plan arrived. On
    /// success the exercise that waited for the plan is added to it, and
    /// the plans are asked for. On failure nothing waits any more.
    pub open spec fn on_plan_created(self, result: Result<Template, String>) -> AppModel {
        let settled = AppModel {
            manage: crate::manage::ManageModel { pending_exercise_id: None, ..self.manage },
            ..self
        };
        match result {
            Ok(plan) => {
                let said = settled.say("Created plan: "@ + plan.name@);
                (match self.manage.pending_exercise_id {
                    Some(exercise_id) => said.send(
                        RequestModel::AddExerciseToPlan { template_id: plan.id, exercise_id },
                    ),
                    None => said,
                }).send(RequestModel::LoadPlans)
            },
            Err(e) => settled.say("Create plan error: "@ + e@),
        }
    }

    /// The state after the answer to a change of a plan arrived.
    pub open spec fn on_plan_updated(self, result: Result<(), String>) -> AppModel {
        match result {
            Ok(_) => self.say("Plan updated"@).send(RequestModel::LoadPlans),
            Err(e) => self.say("Update plan error: "@ + e@),
        }
    }

    /// The state after the catalogue view took the catalogue as it is and
    /// closed its entry.
    pub open spec fn catalogue_settled(self) -> AppModel {
        AppModel {
            exercise_edit: self.exercise_edit.update_filtered(self.all_exercises).cancel(),
            ..self
        }
    }

    /// The state after the answer to the creation of an exercise arrived.
    pub open spec fn on_exercise_created(self, result: Result<Exercise, String>) -> AppModel {
        match result {
            Ok(exercise) => AppModel {
                all_exercises: self.all_exercises.push(exercise),
                ..self.say("Created exercise: "@ + exercise.name@)
            }.catalogue_settled(),
            Err(e) => self.say("Create exercise error: "@ + e@),
        }
    }

    /// The state after the answer to a change of an exercise arrived.
    pub open spec fn on_exercise_updated(self, result: Result<Exercise, String>) -> AppModel {
        match result {
            Ok(exercise) => AppModel {
                all_exercises: with_listed(self.all_exercises, exercise),
                ..self.say("Updated exercise: "@ + exercise.name@)
            }.catalogue_settled(),
            Err(e) => self.say("Update exercise error: "@ + e@),
        }
    }

    /// The state after the answer to signing in or registering arrived at
    /// `utc`.
    pub open spec fn on_session(self, result: Result<Session, String>, utc: Timestamp) -> AppModel {
        let idle = AppModel {
            auth: crate::auth::AuthModel { submitting: false, ..self.auth },
            ..self
        };
        match result {
            Ok(session) => idle.on_logged_in(session.username@, utc),
            Err(e) => AppModel {
                auth: crate::auth::AuthModel { status: e@, ..idle.auth },
                ..idle
            },
        }
    }

    /// The state after the answer to the check of a kept session arrived
    /// at `utc`.
    pub open spec fn on_session_checked(
        self,
        result: Result<User, String>,
        utc: Timestamp,
    ) -> AppModel {
        match result {
            Ok(user) => self.on_logged_in(user.username@, utc),
            Err(e) => AppModel {
                auth: crate::auth::AuthModel { status: e@, ..self.auth },
                ..self
            },
        }
    }

    /// The state after `response` arrived at `now`.
    pub open spec fn handle_response(self, response: Response, now: Now) -> AppModel {
        match response {
            Response::LoggedIn(result) => self.on_session(result, now.utc),
            Response::Registered(result) => self.on_session(result, now.utc),
            Response::SessionChecked(result) => self.on_session_checked(result, now.utc),
            Response::Plans(result) => self.on_plans(result, now),
            Response::Graph(id, result) => self.on_graph(id, result),
            Response::Activity(result) => self.on_activity(result),
            Response::SetsLoaded { exercise_id, day, result } => self.on_sets_loaded(
                exercise_id,
                day,
                result,
            ),
            Response::SetSaved { exercise_id, day, set_number, result } => self.on_set_saved(
                exercise_id,
                day,
                set_number,
                result,
                now,
            ),
            Response::SetDeleted { exercise_id, day, set_number, result } => self.on_set_deleted(
                exercise_id,
                day,
                set_number,
                result,
                now,
            ),
            Response::Exercises(result) => self.on_exercises(result),
            Response::PlanCreated(result) => self.on_plan_created(result),
            Response::PlanUpdated(result) => self.on_plan_updated(result),
            Response::ExerciseCreated(result) => self.on_exercise_created(result),
            Response::ExerciseUpdated(result) => self.on_exercise_updated(result),
        }
    }
}

/// Two texts joined.
pub fn joined(a: &str, b: &str) -> (out: String)
    ensures
        out@ == a@ + b@,
{
    let mut out = String::from_str(a);
    out.append(b);
    out
}

/// Whether the plan is that of weekday `weekday`.
pub(crate) fn is_planned_on(plan: &Template, weekday: i32) -> (r: bool)
    ensures
        r == planned_on(weekday)(*plan),
{
    match plan.day_of_week {
        Some(d) => d == weekday,
        None => false,
    }
}

/// Whether `loading` holds `key`.
fn holds_key(loading: &Vec<(Day, i64)>, key: (Day, i64)) -> (r: bool)
    ensures
        r == loading@.contains(key),
{
    let n = loading.len();
    let mut i: usize = 0;
    while i < n
        invariant
            i <= n,
            n == loading.len(),
            forall|j: int| 0 <= j < i ==> loading[j] != key,
        decreases n - i,
    {
        if loading[i].0.same_as(key.0) && loading[i].1 == key.1 {
            return true;
        }
        i = i + 1;
    }
    false
}

/// Whether `ids` holds `id`.
fn holds_id(ids: &Vec<i64>, id: i64) -> (r: bool)
    ensures
        r == ids@.contains(id),
{
    let n = ids.len();
    let mut i: usize = 0;
    while i < n
        invariant
            i <= n,
            n == ids.len(),
            forall|j: int| 0 <= j < i ==> ids[j] != id,
        decreases n - i,
    {
        if ids[i] == id {
            return true;
        }
        i = i + 1;
    }
    false
}

/// The index of the first chart of exercise `id`, or the count of charts.
fn find_graph(graphs: &Vec<Graph>, id: i64) -> (k: usize)
    ensures
        k == first_index(graphs@, charts(id)),
        k <= graphs.len(),
{
    let n = graphs.len();
    let mut k: usize = 0;
    while k < n && graphs[k].exercise_id != id
        invariant
            k <= n,
            n == graphs.len(),
            forall|j: int| 0 <= j < k ==> !charts(id)(#[trigger] graphs@[j]),
        decreases n - k,
    {
        k = k + 1;
    }
    proof {
        lemma_first_index_is(graphs@, charts(id), k as int);
    }
    k
}

/// The index of the first exercise known as `id`, or the count of
/// exercises.
fn find_exercise(exercises: &Vec<ExerciseState>, id: i64) -> (k: usize)
    ensures
        k == first_index(exercises_view(exercises@), has_id(id)),
        k <= exercises.len(),
{
    let n = exercises.len();
    let ghost models = exercises_view(exercises@);
    let mut k: usize = 0;
    while k < n && !is_known_as(&exercises[k], id)
        invariant
            k <= n,
            n == exercises.len(),
            models == exercises_view(exercises@),
            forall|j: int| 0 <= j < k ==> !has_id(id)(#[trigger] models[j]),
        decreases n - k,
    {
        k = k + 1;
    }
    proof {
        lemma_first_index_is(models, has_id(id), k as int);
    }
    k
}

/// Whether the service knows the exercise as `id`.
fn is_known_as(exercise: &ExerciseState, id: i64) -> (r: bool)
    ensures
        r == has_id(id)(exercise@),
{
    match exercise.id {
        Some(own) => own == id,
        None => false,
    }
}

/// The keys of `loading` other than `key`, in their order.
fn without_key(loading: &Vec<(Day, i64)>, key: (Day, i64)) -> (out: Vec<(Day, i64)>)
    ensures
        out@ == kept(loading@, other_than(key)),
{
    let n = loading.len();
    let mut out: Vec<(Day, i64)> = Vec::new();
    let mut i: usize = 0;
    while i < n
        invariant
            i <= n,
            n == loading.len(),
            out@ == kept(loading@.take(i as int), other_than(key)),
        decreases n - i,
    {
        assert(loading@.take(i + 1).drop_last() =~= loading@.take(i as int));
        let k = loading[i];
        if !(k.0.same_as(key.0) && k.1 == key.1) {
            out.push(k);
        }
        i = i + 1;
    }
    assert(loading@.take(n as int) =~= loading@);
    out
}

/// The identities of `ids` other than `id`, in their order.
fn without_id(ids: &Vec<i64>, id: i64) -> (out: Vec<i64>)
    ensures
        out@ == kept(ids@, not_id(id)),
{
    let n = ids.len();
    let mut out: Vec<i64> = Vec::new();
    let mut i: usize = 0;
    while i < n
        invariant
            i <= n,
            n == ids.len(),
            out@ == kept(ids@.take(i as int), not_id(id)),
        decreases n - i,
    {
        assert(ids@.take(i + 1).drop_last() =~= ids@.take(i as int));
        let k = ids[i];
        if k != id {
            out.push(k);
        }
        i = i + 1;
    }
    assert(ids@.take(n as int) =~= ids@);
    out
}

impl App {
    /// Asks for the sets of exercise `exercise_id` on the day shown, unless
    /// a request for them is under way.
    pub fn request_sets_for(&mut self, exercise_id: i64)
        ensures
            final(self)@ == old(self)@.request_sets_for(exercise_id),
            old(self)@.wf() ==> final(self)@.wf(),
    {
        let key = (self.day, exercise_id);
        if !holds_key(&self.loading_sets, key) {
            self.loading_sets.push(key);
            self.send(Request::LoadSets { day: self.day, exercise_id });
        }
    }

    /// Asks for the chart of exercise `id`, unless it is there or a request
    /// for it is under way.
    pub fn request_graph(&mut self, id: i64)
        ensures
            final(self)@ == old(self)@.request_graph(id),
            old(self)@.wf() ==> final(self)@.wf(),
    {
        if !holds_id(&self.pending_graphs, id) && find_graph(&self.graphs, id)
            >= self.graphs.len() {
            self.pending_graphs.push(id);
            self.send(Request::LoadGraph(id));
        }
    }

    /// Asks for the sets of the selected exercise.
    pub fn request_current_sets(&mut self)
        ensures
            final(self)@ == old(self)@.request_current_sets(),
            old(self)@.wf() ==> final(self)@.wf(),
    {
        if self.selected < self.exercises.len() {
            match self.exercises[self.selected].id {
                Some(id) => self.request_sets_for(id),
                None => {},
            }
        }
    }

    /// Asks for the sets of every exercise.
    pub fn request_all_sets(&mut self)
        ensures
            final(self)@ == old(self)@.request_all_sets(),
            final(self)@.exercises == old(self)@.exercises,
            old(self)@.wf() ==> final(self)@.wf(),
    {
        let n = self.exercises.len();
        let mut i: usize = 0;
        while i < n
            invariant
                i <= n,
                n == self.exercises.len(),
                self@.exercises == old(self)@.exercises,
                self@ == old(self)@.request_sets_upto(i as nat),
                old(self)@.wf() ==> self@.wf(),
            decreases n - i,
        {
            match self.exercises[i].id {
                Some(id) => self.request_sets_for(id),
                None => {},
            }
            i = i + 1;
        }
    }

    /// Asks for the chart of every exercise.
    pub fn request_all_graphs(&mut self)
        ensures
            final(self)@ == old(self)@.request_all_graphs(),
            final(self)@.exercises == old(self)@.exercises,
            old(self)@.wf() ==> final(self)@.wf(),
    {
        let n = self.exercises.len();
        let mut i: usize = 0;
        while i < n
            invariant
                i <= n,
                n == self.exercises.len(),
                self@.exercises == old(self)@.exercises,
                self@ == old(self)@.request_graphs_upto(i as nat),
                old(self)@.wf() ==> self@.wf(),
            decreases n - i,
        {
            match self.exercises[i].id {
                Some(id) => self.request_graph(id),
                None => {},
            }
            i = i + 1;
        }
    }

    /// Asks for the activity of the 21 days that end at `now`.
    pub fn request_activity(&mut self, now: Now)
        ensures
            final(self)@ == old(self)@.request_activity(now.utc),
            old(self)@.wf() ==> final(self)@.wf(),
    {
        let span: i64 = (ACTIVITY_DAYS - 1) * 86_400;
        let secs = if now.utc.secs < i64::MIN + span {
            i64::MIN
        } else {
            now.utc.secs - span
        };
        self.send(
            Request::LoadActivity(
                ActivityQuery {
                    start: Some(Timestamp { secs, nanos: now.utc.nanos }),
                    end: Some(now.utc),
                },
            ),
        );
    }

    /// Whether one of the exercises is known to the service as `id`.
    pub fn knows_exercise(&self, id: i64) -> (r: bool)
        ensures
            r == any(self@.exercises, has_id(id)),
    {
        find_exercise(&self.exercises, id) < self.exercises.len()
    }

    /// Drops the charts of exercises that are not shown.
    fn drop_stale_graphs(&mut self)
        ensures
            final(self)@ == (AppModel {
                graphs: kept(old(self)@.graphs, charts_one_of(old(self)@.exercises)),
                ..old(self)@
            }),
            old(self)@.wf() ==> final(self)@.wf(),
    {
        let ghost all = self.graphs@;
        let ghost shown = charts_one_of(self@.exercises);
        let mut i: usize = 0;
        let ghost mut k: int = 0;
        while i < self.graphs.len()
            invariant
                0 <= k <= all.len(),
                i == kept(all.take(k), shown).len(),
                self.graphs@ == kept(all.take(k), shown) + all.skip(k),
                shown == charts_one_of(self@.exercises),
                self@ == (AppModel { graphs: self.graphs@, ..old(self)@ }),
            decreases all.len() - k,
        {
            assert(all.take(k + 1).drop_last() =~= all.take(k));
            let keep = self.knows_exercise(self.graphs[i].exercise_id);
            if keep {
                i = i + 1;
            } else {
                let _ = self.graphs.remove(i);
            }
            proof {
                k = k + 1;
            }
        }
        assert(all.take(k) =~= all);
    }

    /// Forgets the chart requests of exercises that are not shown.
    fn drop_stale_graph_requests(&mut self)
        ensures
            final(self)@ == (AppModel {
                pending_graphs: kept(
                    old(self)@.pending_graphs,
                    names_one_of(old(self)@.exercises),
                ),
                ..old(self)@
            }),
            old(self)@.wf() ==> final(self)@.wf(),
    {
        let ghost all = self.pending_graphs@;
        let ghost shown = names_one_of(self@.exercises);
        let n = self.pending_graphs.len();
        let mut out: Vec<i64> = Vec::new();
        let mut i: usize = 0;
        while i < n
            invariant
                i <= n,
                n == self.pending_graphs.len(),
                all == self.pending_graphs@,
                shown == names_one_of(self@.exercises),
                out@ == kept(all.take(i as int), shown),
                *self == *old(self),
            decreases n - i,
        {
            assert(all.take(i + 1).drop_last() =~= all.take(i as int));
            let id = self.pending_graphs[i];
            if self.knows_exercise(id) {
                out.push(id);
            }
            i = i + 1;
        }
        assert(all.take(n as int) =~= all);
        proof {
            lemma_kept(all, shown);
        }
        self.pending_graphs = out;
    }

    /// Puts `day` on screen at `now`.
    pub fn apply_day(&mut self, day: Day, now: Now)
        ensures
            final(self)@ == old(self)@.apply_day(day, now.utc),
            final(self)@.grid_wf(),
            old(self)@.wf() ==> final(self)@.wf(),
    {
        self.day = day;
        self.selected = 0;
        self.loading_sets = Vec::new();
        let weekday = day.weekday_from_monday() as i32;
        let n = self.plans.len();
        let mut k: usize = 0;
        while k < n && !is_planned_on(&self.plans[k], weekday)
            invariant
                k <= n,
                n == self.plans.len(),
                self.plans == old(self).plans,
                forall|j: int| 0 <= j < k ==> !planned_on(weekday)(#[trigger] self.plans@[j]),
            decreases n - k,
        {
            k = k + 1;
        }
        proof {
            lemma_first_index_is(self.plans@, planned_on(weekday), k as int);
        }
        if k >= n {
            k = 0;
        }
        let mut exercises: Vec<ExerciseState> = Vec::new();
        if k < n {
            let plan = &self.plans[k];
            let mut status = joined(plan.name.as_str(), " • ");
            status.append(day.short_text().as_str());
            let m = plan.exercises.len();
            let mut i: usize = 0;
            while i < m
                invariant
                    i <= m,
                    m == plan.exercises.len(),
                    exercises.len() == i,
                    forall|j: int|
                        0 <= j < i ==> (#[trigger] exercises[j])@ == ExerciseModel::from_template(
                            plan.exercises@[j],
                            now.utc,
                        ),
                    forall|j: int| 0 <= j < i ==> (#[trigger] exercises[j])@.wf(),
                decreases m - i,
            {
                exercises.push(ExerciseState::from_template(&plan.exercises[i], now.utc));
                i = i + 1;
            }
            assert(exercises_view(exercises@) =~= exercises_from(*plan, now.utc));
            self.status = status;
        } else {
            self.status = String::from_str("No plans available");
            assert(exercises_view(exercises@) =~= Seq::<ExerciseModel>::empty());
        }
        self.exercises = exercises;
        self.drop_stale_graphs();
        self.drop_stale_graph_requests();
        self.request_all_graphs();
        self.request_all_sets();
    }

    /// Puts the day `delta` days on on screen, if the calendar reaches that
    /// far.
    pub fn move_day(&mut self, delta: i64, now: Now)
        ensures
            final(self)@ == old(self)@.move_day(delta as int, now.utc),
            old(self)@.wf() ==> final(self)@.wf(),
    {
        match self.day.checked_add_days(delta) {
            Some(next) => {
                self.apply_day(next, now);
            },
            None => {},
        }
    }

    /// Puts `today` on screen, unless it is.
    pub fn jump_to_today(&mut self, today: Day, now: Now)
        ensures
            final(self)@ == old(self)@.jump_to_today(today, now.utc),
            old(self)@.wf() ==> final(self)@.wf(),
    {
        if !self.day.same_as(today) {
            self.apply_day(today, now);
        }
    }

    /// Shows the workout after the user signed in as `username`, and asks
    /// for plans, catalogue and activity.
    pub fn on_logged_in(&mut self, username: &str, now: Now)
        ensures
            final(self)@ == old(self)@.on_logged_in(username@, now.utc),
            old(self)@.wf() ==> final(self)@.wf(),
    {
        self.view = screen::View::Workout;
        self.auth.submitting = false;
        self.status = joined("Signed in as ", username);
        self.send(Request::LoadPlans);
        self.send(Request::LoadExercises);
        self.request_activity(now);
    }

    /// Takes the answer to signing in or registering.
    fn on_session(&mut self, result: Result<Session, String>, now: Now)
        ensures
            final(self)@ == old(self)@.on_session(result, now.utc),
            old(self)@.wf() ==> final(self)@.wf(),
    {
        self.auth.submitting = false;
        match result {
            Ok(session) => self.on_logged_in(session.username.as_str(), now),
            Err(e) => {
                self.auth.status = e;
            },
        }
    }

    /// Takes the answer to the check of a kept session.
    fn on_session_checked(&mut self, result: Result<User, String>, now: Now)
        ensures
            final(self)@ == old(self)@.on_session_checked(result, now.utc),
            old(self)@.wf() ==> final(self)@.wf(),
    {
        match result {
            Ok(user) => self.on_logged_in(user.username.as_str(), now),
            Err(e) => {
                self.auth.status = e;
            },
        }
    }

    /// Takes the plans.
    fn on_plans(&mut self, result: Result<Vec<Template>, String>, now: Now)
        ensures
            final(self)@ == old(self)@.on_plans(result, now),
            final(self)@.grid_wf(),
            old(self)@.wf() ==> final(self)@.wf(),
    {
        match result {
            Ok(plans) => {
                self.plans = plans;
                let day = self.day;
                self.apply_day(day, now);
            },
            Err(e) => {
                self.status = joined("Load error: ", e.as_str());
                self.exercises = Vec::new();
                assert(exercises_view(self.exercises@) =~= Seq::<ExerciseModel>::empty());
            },
        }
    }

    /// Takes a chart.
    fn on_graph(&mut self, id: i64, result: Result<Graph, String>)
        ensures
            final(self)@ == old(self)@.on_graph(id, result),
            old(self)@.wf() ==> final(self)@.wf(),
    {
        let k = find_graph(&self.graphs, id);
        proof {
            lemma_kept(self.pending_graphs@, not_id(id));
        }
        self.pending_graphs = without_id(&self.pending_graphs, id);
        match result {
            Ok(graph) => {
                if k < self.graphs.len() {
                    self.graphs[k] = graph;
                } else {
                    self.graphs.push(graph);
                }
            },
            Err(e) => {
                self.status = joined("Graph error: ", e.as_str());
            },
        }
    }

    /// Takes the activity.
    fn on_activity(&mut self, result: Result<Activity, String>)
        ensures
            final(self)@ == old(self)@.on_activity(result),
            old(self)@.wf() ==> final(self)@.wf(),
    {
        match result {
            Ok(activity) => {
                self.activity = activity.days;
            },
            Err(e) => {
                self.status = joined("Activity error: ", e.as_str());
            },
        }
    }

    /// Takes the sets of an exercise on a day.
    fn on_sets_loaded(&mut self, exercise_id: i64, day: Day, result: Result<DaySets, String>)
        ensures
            final(self)@ == old(self)@.on_sets_loaded(exercise_id, day, result),
            old(self)@.wf() ==> final(self)@.wf(),
    {
        proof {
            lemma_kept(self.loading_sets@, other_than((day, exercise_id)));
        }
        self.loading_sets = without_key(&self.loading_sets, (day, exercise_id));
        if !day.same_as(self.day) {
            return ;
        }
        match result {
            Ok(data) => {
                let ghost before = exercises_view(self.exercises@);
                let ghost records = data.sets@;
                let k = find_exercise(&self.exercises, exercise_id);
                if k < self.exercises.len() {
                    self.exercises[k].apply_server_sets(data);
                    assert(exercises_view(self.exercises@) =~= before.update(
                        k as int,
                        before[k as int].apply_server_sets(records),
                    ));
                }
            },
            Err(e) => {
                self.status = joined("Load sets error: ", e.as_str());
            },
        }
    }

    /// Takes the answer to a save.
    fn on_set_saved(
        &mut self,
        exercise_id: i64,
        day: Day,
        set_number: i32,
        result: Result<WorkoutSet, String>,
        now: Now,
    )
        ensures
            final(self)@ == old(self)@.on_set_saved(exercise_id, day, set_number, result, now),
            old(self)@.wf() ==> final(self)@.wf(),
    {
        if !day.same_as(self.day) {
            return ;
        }
        match result {
            Ok(saved) => {
                let ghost before = exercises_view(self.exercises@);
                let k = find_exercise(&self.exercises, exercise_id);
                if k < self.exercises.len() {
                    self.exercises[k].apply_saved_set(&saved, now);
                    assert(exercises_view(self.exercises@) =~= before.update(
                        k as int,
                        before[k as int].apply_saved_set(saved, now.tick),
                    ));
                    self.status = joined("Saved set ", count_text(set_number).as_str());
                }
                self.request_activity(now);
            },
            Err(e) => {
                self.status = joined("Save error: ", e.as_str());
                self.request_sets_for(exercise_id);
            },
        }
    }

    /// Takes the answer to a delete.
    fn on_set_deleted(
        &mut self,
        exercise_id: i64,
        day: Day,
        set_number: i32,
        result: Result<(), String>,
        now: Now,
    )
        ensures
            final(self)@ == old(self)@.on_set_deleted(exercise_id, day, set_number, result, now),
            old(self)@.wf() ==> final(self)@.wf(),
    {
        if !day.same_as(self.day) {
            return ;
        }
        match result {
            Ok(_) => {
                self.status = joined("Deleted set ", count_text(set_number).as_str());
                self.request_sets_for(exercise_id);
                self.request_activity(now);
            },
            Err(e) => {
                self.status = joined("Delete error: ", e.as_str());
                self.request_sets_for(exercise_id);
            },
        }
    }

    /// Brings the side views up to the catalogue as it is.
    fn refresh_catalogue_views(&mut self)
        ensures
            final(self)@ == old(self)@.refresh_catalogue_views(),
            old(self)@.wf() ==> final(self)@.wf(),
    {
        if self.manage.mode == ManageMode::AddExercise {
            self.manage.update_search(self.all_exercises.as_slice());
        }
        if self.view == screen::View::Exercises {
            self.exercise_edit.update_filtered(self.all_exercises.as_slice());
        }
    }

    /// Takes the catalogue.
    fn on_exercises(&mut self, result: Result<Vec<Exercise>, String>)
        ensures
            final(self)@ == old(self)@.on_exercises(result),
            old(self)@.wf() ==> final(self)@.wf(),
    {
        match result {
            Ok(exercises) => {
                self.all_exercises = exercises;
                self.refresh_catalogue_views();
            },
            Err(e) => {
                self.status = joined("Load exercises error: ", e.as_str());
            },
        }
    }

    /// Takes the answer to the creation of a plan.
    fn on_plan_created(&mut self, result: Result<Template, String>)
        ensures
            final(self)@ == old(self)@.on_plan_created(result),
            old(self)@.wf() ==> final(self)@.wf(),
    {
        let waiting = self.manage.pending_exercise_id;
        self.manage.pending_exercise_id = None;
        match result {
            Ok(plan) => {
                self.status = joined("Created plan: ", plan.name.as_str());
                match waiting {
                    Some(exercise_id) => {
                        self.send(
                            Request::AddExerciseToPlan { template_id: plan.id, exercise_id },
                        );
                    },
                    None => {},
                }
                self.send(Request::LoadPlans);
            },
            Err(e) => {
                self.status = joined("Create plan error: ", e.as_str());
            },
        }
    }

    /// Takes the answer to a change of a plan.
    fn on_plan_updated(&mut self, result: Result<(), String>)
        ensures
            final(self)@ == old(self)@.on_plan_updated(result),
            old(self)@.wf() ==> final(self)@.wf(),
    {
        match result {
            Ok(_) => {
                self.status = String::from_str("Plan updated");
                self.send(Request::LoadPlans);
            },
            Err(e) => {
                self.status = joined("Update plan error: ", e.as_str());
            },
        }
    }

    /// Lets the catalogue view take the catalogue as it is and closes its
    /// entry.
    fn settle_catalogue(&mut self)
        ensures
            final(self)@ == old(self)@.catalogue_settled(),
            old(self)@.wf() ==> final(self)@.wf(),
    {
        self.exercise_edit.update_filtered(self.all_exercises.as_slice());
        self.exercise_edit.cancel();
    }

    /// Takes the answer to the creation of an exercise.
    fn on_exercise_created(&mut self, result: Result<Exercise, String>)
        ensures
            final(self)@ == old(self)@.on_exercise_created(result),
            old(self)@.wf() ==> final(self)@.wf(),
    {
        match result {
            Ok(exercise) => {
                self.status = joined("Created exercise: ", exercise.name.as_str());
                self.all_exercises.push(exercise);
                self.settle_catalogue();
            },
            Err(e) => {
                self.status = joined("Create exercise error: ", e.as_str());
            },
        }
    }

    /// Takes the answer to a change of an exercise.
    fn on_exercise_updated(&mut self, result: Result<Exercise, String>)
        ensures
            final(self)@ == old(self)@.on_exercise_updated(result),
            old(self)@.wf() ==> final(self)@.wf(),
    {
        match result {
            Ok(exercise) => {
                self.status = joined("Updated exercise: ", exercise.name.as_str());
                let n = self.all_exercises.len();
                let mut k: usize = 0;
                while k < n && self.all_exercises[k].id != exercise.id
                    invariant
                        k <= n,
                        n == self.all_exercises.len(),
                        self.all_exercises == old(self).all_exercises,
                        forall|j: int|
                            0 <= j < k ==> !listed_as(exercise.id)(
                                #[trigger] self.all_exercises@[j],
                            ),
                    decreases n - k,
                {
                    k = k + 1;
                }
                proof {
                    lemma_first_index_is(self.all_exercises@, listed_as(exercise.id), k as int);
                }
                if k < n {
                    self.all_exercises[k] = exercise;
                }
                self.settle_catalogue();
            },
            Err(e) => {
                self.status = joined("Update exercise error: ", e.as_str());
            },
        }
    }

    /// Takes what came back from the service, at `now`.
    pub fn handle_response(&mut self, response: Response, now: Now)
        ensures
            final(self)@ == old(self)@.handle_response(response, now),
            old(self)@.wf() ==> final(self)@.wf(),
    {
        match response {
            Response::LoggedIn(result) => self.on_session(result, now),
            Response::Registered(result) => self.on_session(result, now),
            Response::SessionChecked(result) => self.on_session_checked(result, now),
            Response::Plans(result) => self.on_plans(result, now),
            Response::Graph(id, result) => self.on_graph(id, result),
            Response::Activity(result) => self.on_activity(result),
            Response::SetsLoaded { exercise_id, day, result } => self.on_sets_loaded(
                exercise_id,
                day,
                result,
            ),
            Response::SetSaved { exercise_id, day, set_number, result } => self.on_set_saved(
                exercise_id,
                day,
                set_number,
                result,
                now,
            ),
            Response::SetDeleted { exercise_id, day, set_number, result } => self.on_set_deleted(
                exercise_id,
                day,
                set_number,
                result,
                now,
            ),
            Response::Exercises(result) => self.on_exercises(result),
            Response::PlanCreated(result) => self.on_plan_created(result),
            Response::PlanUpdated(result) => self.on_plan_updated(result),
            Response::ExerciseCreated(result) => self.on_exercise_created(result),
            Response::ExerciseUpdated(result) => self.on_exercise_updated(result),
        }
    }
}

} // verus!
