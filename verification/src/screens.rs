//! The controller's part in the sign-in form and the two side views: what
//! their keys do to the state and which requests they queue.

use vstd::prelude::*;
use vstd::string::*;
use crate::api::{Request, RequestModel};
use crate::app::{step_index, stepped, App, AppModel};
use crate::auth::{is_secret, AuthModel, AuthState};
use crate::manage::{
    EditModel, ExerciseEditMode, ExerciseEditState, ManageMode, ManageModel, ManageState,
};
use crate::models::Template;
use crate::screen;
use crate::seqs::{first_index, lemma_first_index_is};
use crate::sync::{chosen_plan, joined, planned_on};
use crate::text::{pop_char, push_char, trim_text, trimmed_text, without_last};
use crate::time::Day;

verus! {

/// The plan of weekday `weekday`, Monday being 0.
pub open spec fn planned_on_day(weekday: nat) -> spec_fn(Template) -> bool {
    |p: Template| p.day_of_week is Some && p.day_of_week->0 == weekday
}

/// The name of a weekday, Monday being 0.
pub open spec fn weekday_name(weekday: nat) -> Seq<char>
    recommends
        weekday < 7,
{
    if weekday == 0 {
        "Monday"@
    } else if weekday == 1 {
        "Tuesday"@
    } else if weekday == 2 {
        "Wednesday"@
    } else if weekday == 3 {
        "Thursday"@
    } else if weekday == 4 {
        "Friday"@
    } else if weekday == 5 {
        "Saturday"@
    } else {
        "Sunday"@
    }
}

/// The name of a weekday, Monday being 0.
pub fn name_of_weekday(weekday: usize) -> (name: &'static str)
    requires
        weekday < 7,
    ensures
        name@ == weekday_name(weekday as nat),
{
    if weekday == 0 {
        "Monday"
    } else if weekday == 1 {
        "Tuesday"
    } else if weekday == 2 {
        "Wednesday"
    } else if weekday == 3 {
        "Thursday"
    } else if weekday == 4 {
        "Friday"
    } else if weekday == 5 {
        "Saturday"
    } else {
        "Sunday"
    }
}

impl AppModel {
    /// The state as the program starts on day `today`: the sign-in form on
    /// screen, nothing loaded, nothing queued.
    pub open spec fn fresh(today: Day, auth: AuthModel) -> AppModel {
        AppModel {
            running: true,
            view: screen::View::Auth,
            auth,
            day: today,
            exercises: Seq::empty(),
            graphs: Seq::empty(),
            activity: Seq::empty(),
            selected: 0,
            status: Seq::empty(),
            manage: ManageModel::fresh(),
            exercise_edit: EditModel::fresh(),
            plans: Seq::empty(),
            all_exercises: Seq::empty(),
            pending_graphs: Seq::empty(),
            loading_sets: Seq::empty(),
            outbox: Seq::empty(),
        }
    }

    /// The state with the sign-in form telling `status`.
    pub open spec fn auth_says(self, status: Seq<char>) -> AppModel {
        AppModel { auth: AuthModel { status, ..self.auth }, ..self }
    }

    /// The state after the sign-in form was submitted. Nothing happens while
    /// an answer is awaited. A missing username, password or code is told in
    /// the form. Else the form waits for the answer and the request to
    /// register or to sign in is queued.
    pub open spec fn submit_auth(self) -> AppModel {
        let auth = self.auth;
        if auth.submitting {
            self
        } else if trimmed_text(auth.username).len() == 0 {
            self.auth_says("Username required"@)
        } else if auth.password.len() == 0 {
            self.auth_says("Password required"@)
        } else if auth.totp_code.len() == 0 {
            self.auth_says("TOTP code required"@)
        } else if auth.register_mode {
            AppModel {
                auth: AuthModel { submitting: true, status: "Registering..."@, ..auth },
                ..self
            }.send(
                RequestModel::Register {
                    username: auth.username,
                    password: auth.password,
                    totp_secret: auth.totp_secret,
                    totp_code: auth.totp_code,
                },
            )
        } else {
            AppModel {
                auth: AuthModel { submitting: true, status: "Signing in..."@, ..auth },
                ..self
            }.send(
                RequestModel::Login {
                    username: auth.username,
                    password: auth.password,
                    totp: auth.totp_code,
                },
            )
        }
    }

    /// The state with the workout on screen and the side views closed.
    pub open spec fn switch_to_workout(self) -> AppModel {
        AppModel {
            view: screen::View::Workout,
            manage: self.manage.cancel_add(),
            exercise_edit: self.exercise_edit.cancel(),
            ..self
        }
    }

    /// The state with the plans on screen; plans and catalogue are asked
    /// for.
    pub open spec fn switch_to_manage(self) -> AppModel {
        AppModel {
            view: screen::View::Manage,
            manage: ManageModel { mode: ManageMode::Browse, ..self.manage },
            exercise_edit: self.exercise_edit.cancel(),
            ..self
        }.send(RequestModel::LoadPlans).send(RequestModel::LoadExercises)
    }

    /// The state with the catalogue on screen, showing the catalogue as it
    /// is held; the catalogue is asked for.
    pub open spec fn switch_to_exercises(self) -> AppModel {
        AppModel {
            view: screen::View::Exercises,
            manage: self.manage.cancel_add(),
            exercise_edit: (EditModel {
                mode: ExerciseEditMode::Browse,
                ..self.exercise_edit
            }).update_filtered(self.all_exercises),
            ..self
        }.send(RequestModel::LoadExercises)
    }

    /// The state with the catalogue view replaced.
    pub open spec fn with_edit(self, edit: EditModel) -> AppModel {
        AppModel { exercise_edit: edit, ..self }
    }

    /// The state with the plans view replaced.
    pub open spec fn with_manage(self, manage: ManageModel) -> AppModel {
        AppModel { manage, ..self }
    }

    /// The state after the selection in the catalogue moved by `delta`.
    pub open spec fn exercise_select(self, delta: int) -> AppModel {
        let edit = self.exercise_edit;
        if edit.mode != ExerciseEditMode::Browse || edit.filtered.len() == 0 {
            self
        } else {
            self.with_edit(
                EditModel { selected: stepped(edit.selected, delta, edit.filtered.len()), ..edit },
            )
        }
    }

    /// The state after archived exercises were switched between shown and
    /// hidden.
    pub open spec fn exercise_toggle_archived(self) -> AppModel {
        let edit = self.exercise_edit;
        if edit.mode != ExerciseEditMode::Browse {
            self
        } else {
            self.with_edit(
                (EditModel { show_archived: !edit.show_archived, ..edit }).update_filtered(
                    self.all_exercises,
                ),
            ).say(
                if !edit.show_archived {
                    "Showing archived exercises"@
                } else {
                    "Hiding archived exercises"@
                },
            )
        }
    }

    /// The state after the keystroke `ch` in the name entry of the
    /// catalogue.
    pub open spec fn exercise_input(self, ch: char) -> AppModel {
        let edit = self.exercise_edit;
        if edit.mode == ExerciseEditMode::Browse {
            self
        } else {
            self.with_edit(EditModel { input: edit.input.push(ch), ..edit })
        }
    }

    /// The state after a backspace in the name entry of the catalogue.
    pub open spec fn exercise_backspace(self) -> AppModel {
        let edit = self.exercise_edit;
        if edit.mode == ExerciseEditMode::Browse {
            self
        } else {
            self.with_edit(EditModel { input: without_last(edit.input), ..edit })
        }
    }

    /// The state after the name entry of the catalogue was confirmed. An
    /// empty name is refused. Else adding queues the creation of an exercise
    /// of that name, and renaming queues the change of the selected
    /// exercise.
    pub open spec fn exercise_confirm(self) -> AppModel {
        let edit = self.exercise_edit;
        let name = trimmed_text(edit.input);
        if name.len() == 0 {
            self.say("Name cannot be empty"@)
        } else if edit.mode == ExerciseEditMode::Add {
            self.send(RequestModel::CreateExercise { name }).say(
                "Creating exercise: "@ + name + "..."@,
            )
        } else if edit.mode == ExerciseEditMode::Rename && edit.selected_exercise() is Some {
            self.send(
                RequestModel::UpdateExercise {
                    id: edit.selected_exercise()->0.id,
                    name: Some(name),
                    archived: None,
                },
            ).say("Renaming to: "@ + name + "..."@)
        } else {
            self
        }
    }

    /// The state after the selected exercise of the catalogue was archived,
    /// or taken out of the archive if it was in it.
    pub open spec fn exercise_archive(self) -> AppModel {
        let edit = self.exercise_edit;
        if edit.mode == ExerciseEditMode::Browse && edit.selected_exercise() is Some {
            let ex = edit.selected_exercise()->0;
            self.send(
                RequestModel::UpdateExercise { id: ex.id, name: None, archived: Some(!ex.archived) },
            ).say(
                (if !ex.archived {
                    "Archiving"@
                } else {
                    "Unarchiving"@
                }) + " exercise: "@ + ex.name@ + "..."@,
            )
        } else {
            self
        }
    }

    /// The state after the weekday selected in the plans moved by `delta`,
    /// going round the week; its first exercise is selected.
    pub open spec fn manage_select_day(self, delta: int) -> AppModel {
        let manage = self.manage;
        if manage.mode != ManageMode::Browse {
            self
        } else {
            self.with_manage(
                ManageModel {
                    selected_day: ((manage.selected_day + delta) % 7) as nat,
                    selected_exercise: 0,
                    ..manage
                },
            )
        }
    }

    /// The plan of weekday `weekday`, if there is one.
    pub open spec fn plan_for_weekday(self, weekday: nat) -> Option<Template> {
        let k = first_index(self.plans, planned_on_day(weekday));
        if k < self.plans.len() {
            Some(self.plans[k])
        } else {
            None
        }
    }

    /// The state after the exercise selected in the plan of the selected
    /// weekday moved by `delta`.
    pub open spec fn manage_select_exercise(self, delta: int) -> AppModel {
        let manage = self.manage;
        if manage.mode != ManageMode::Browse {
            self
        } else {
            let len = match self.plan_for_weekday(manage.selected_day) {
                Some(p) => p.exercises@.len(),
                None => 0,
            };
            self.with_manage(
                ManageModel {
                    selected_exercise: stepped(manage.selected_exercise, delta, len),
                    ..manage
                },
            )
        }
    }

    /// The state after the search for an exercise was opened.
    pub open spec fn manage_start_add(self) -> AppModel {
        self.with_manage(self.manage.start_add().update_search(self.all_exercises))
    }

    /// The state after the keystroke `ch` in the search.
    pub open spec fn manage_search_input(self, ch: char) -> AppModel {
        let manage = self.manage;
        if manage.mode != ManageMode::AddExercise {
            self
        } else {
            self.with_manage(
                (ManageModel {
                    search_query: manage.search_query.push(ch),
                    ..manage
                }).update_search(self.all_exercises),
            )
        }
    }

    /// The state after a backspace in the search.
    pub open spec fn manage_search_backspace(self) -> AppModel {
        let manage = self.manage;
        if manage.mode != ManageMode::AddExercise {
            self
        } else {
            self.with_manage(
                (ManageModel {
                    search_query: without_last(manage.search_query),
                    ..manage
                }).update_search(self.all_exercises),
            )
        }
    }

    /// The state after the cursor in the search results moved by `delta`.
    pub open spec fn manage_search_move(self, delta: int) -> AppModel {
        let manage = self.manage;
        if manage.mode != ManageMode::AddExercise || manage.search_results.len() == 0 {
            self
        } else {
            self.with_manage(
                ManageModel {
                    search_cursor: stepped(
                        manage.search_cursor,
                        delta,
                        manage.search_results.len(),
                    ),
                    ..manage
                },
            )
        }
    }

    /// The state after the exercise under the cursor of the search was
    /// chosen for the selected weekday. If that weekday has a plan, the
    /// exercise is added to it. Else a plan named after the weekday is
    /// created, and the exercise waits to be added once the plan is there. A
    /// weekday past Sunday has no name: then nothing happens.
    pub open spec fn manage_confirm_add(self) -> AppModel {
        let manage = self.manage;
        if manage.mode != ManageMode::AddExercise {
            self
        } else if manage.search_cursor >= manage.search_results.len() {
            self.say("No exercise selected"@)
        } else {
            let exercise = manage.search_results[manage.search_cursor as int];
            match self.plan_for_weekday(manage.selected_day) {
                Some(plan) => self.send(
                    RequestModel::AddExerciseToPlan {
                        template_id: plan.id,
                        exercise_id: exercise.id,
                    },
                ).with_manage(manage.cancel_add()).say(
                    "Adding "@ + exercise.name@ + " to "@ + plan.name@ + "..."@,
                ),
                None => if manage.selected_day < 7 {
                    let name = weekday_name(manage.selected_day);
                    self.send(
                        RequestModel::CreatePlan {
                            name,
                            day_of_week: manage.selected_day as i32,
                        },
                    ).with_manage(
                        (ManageModel {
                            pending_exercise_id: Some(exercise.id),
                            ..manage
                        }).cancel_add(),
                    ).say(
                        "Creating "@ + name + " plan and adding "@ + exercise.name@ + "..."@,
                    )
                } else {
                    self
                },
            }
        }
    }

    /// The state after the exercise selected in the plan of the selected
    /// weekday was taken out of the plan.
    pub open spec fn manage_delete_exercise(self) -> AppModel {
        let manage = self.manage;
        if manage.mode != ManageMode::Browse {
            self
        } else {
            match self.plan_for_weekday(manage.selected_day) {
                Some(plan) => if manage.selected_exercise < plan.exercises@.len() {
                    let exercise = plan.exercises@[manage.selected_exercise as int];
                    self.send(
                        RequestModel::RemoveExerciseFromPlan {
                            template_id: plan.id,
                            exercise_id: exercise.exercise_id,
                        },
                    ).say("Removing "@ + exercise.name@ + " from plan..."@)
                } else {
                    self
                },
                None => self,
            }
        }
    }

    /// The name of the plan that the day on screen shows, if there is one.
    pub open spec fn current_plan_name(self) -> Option<Seq<char>> {
        match chosen_plan(self.plans, Day::weekday_of(self.day@) as i32) {
            Some(p) => Some(p.name@),
            None => None,
        }
    }
}

/// Whether the plan is that of weekday `weekday`.
fn is_planned_on_day(plan: &Template, weekday: usize) -> (r: bool)
    ensures
        r == planned_on_day(weekday as nat)(*plan),
{
    match plan.day_of_week {
        Some(d) => d >= 0 && d as u64 == weekday as u64,
        None => false,
    }
}

impl App {
    /// The state as the program starts on day `today`, with a sign-in form
    /// that holds a fresh secret.
    pub fn new(today: Day) -> (r: App)
        ensures
            r@ == AppModel::fresh(today, r@.auth),
            r@.auth == AuthModel::fresh(r@.auth.totp_secret),
            r@.wf(),
    {
        App::with_auth(today, AuthState::new())
    }

    /// The state as the program starts on day `today`, with the sign-in
    /// form given.
    pub fn with_auth(today: Day, auth: AuthState) -> (r: App)
        ensures
            r@ == AppModel::fresh(today, auth@),
            r@.wf(),
    {
        let r = App {
            running: true,
            view: screen::View::Auth,
            auth,
            day: today,
            exercises: Vec::new(),
            graphs: Vec::new(),
            activity: Vec::new(),
            selected: 0,
            status: String::new(),
            manage: ManageState::new(),
            exercise_edit: ExerciseEditState::new(),
            plans: Vec::new(),
            all_exercises: Vec::new(),
            pending_graphs: Vec::new(),
            loading_sets: Vec::new(),
            outbox: Vec::new(),
        };
        assert(r@.exercises =~= Seq::empty());
        assert(r@.outbox =~= Seq::empty());
        r
    }

    /// Asks the service whether the session kept from last time still
    /// holds.
    pub fn try_resume_session(&mut self)
        ensures
            final(self)@ == old(self)@.send(RequestModel::CheckSession),
            old(self)@.wf() ==> final(self)@.wf(),
    {
        self.send(Request::CheckSession);
    }

    /// Switches the sign-in form between registering and signing in, and
    /// tells whether the switch was made in full: it was not only where a
    /// secret was to be drawn and the system gave no randomness.
    pub fn set_auth_mode(&mut self, register: bool) -> (served: bool)
        ensures
            final(self)@ == (AppModel {
                auth: old(self)@.auth.set_mode(register, final(self)@.auth.totp_secret),
                ..old(self)@
            }),
            served || old(self)@.auth.draws_secret_for(register),
            served && old(self)@.auth.draws_secret_for(register) ==> is_secret(
                final(self)@.auth.totp_secret,
            ),
            !served ==> final(self)@.auth.totp_secret == old(self)@.auth.totp_secret,
            old(self)@.wf() ==> final(self)@.wf(),
    {
        self.auth.set_mode(register)
    }

    /// Submits the sign-in form.
    pub fn submit_auth(&mut self)
        ensures
            final(self)@ == old(self)@.submit_auth(),
            old(self)@.wf() ==> final(self)@.wf(),
    {
        if self.auth.submitting {
            return ;
        }
        if trim_text(self.auth.username.as_str()).as_str().unicode_len() == 0 {
            self.auth.status = String::from_str("Username required");
            return ;
        }
        if self.auth.password.as_str().unicode_len() == 0 {
            self.auth.status = String::from_str("Password required");
            return ;
        }
        if self.auth.totp_code.as_str().unicode_len() == 0 {
            self.auth.status = String::from_str("TOTP code required");
            return ;
        }
        self.auth.submitting = true;
        if self.auth.register_mode {
            self.auth.status = String::from_str("Registering...");
            let request = Request::Register {
                username: self.auth.username.clone(),
                password: self.auth.password.clone(),
                totp_secret: self.auth.totp_secret.clone(),
                totp_code: self.auth.totp_code.clone(),
            };
            self.send(request);
        } else {
            self.auth.status = String::from_str("Signing in...");
            let request = Request::Login {
                username: self.auth.username.clone(),
                password: self.auth.password.clone(),
                totp: self.auth.totp_code.clone(),
            };
            self.send(request);
        }
    }

    /// Puts the workout on screen.
    pub fn switch_to_workout(&mut self)
        ensures
            final(self)@ == old(self)@.switch_to_workout(),
            old(self)@.wf() ==> final(self)@.wf(),
    {
        self.view = screen::View::Workout;
        self.manage.cancel_add();
        self.exercise_edit.cancel();
    }

    /// Puts the plans on screen.
    pub fn switch_to_manage(&mut self)
        ensures
            final(self)@ == old(self)@.switch_to_manage(),
            old(self)@.wf() ==> final(self)@.wf(),
    {
        self.view = screen::View::Manage;
        self.manage.mode = ManageMode::Browse;
        self.exercise_edit.cancel();
        self.send(Request::LoadPlans);
        self.send(Request::LoadExercises);
    }

    /// Puts the catalogue on screen.
    pub fn switch_to_exercises(&mut self)
        ensures
            final(self)@ == old(self)@.switch_to_exercises(),
            old(self)@.wf() ==> final(self)@.wf(),
    {
        self.view = screen::View::Exercises;
        self.manage.cancel_add();
        self.exercise_edit.mode = ExerciseEditMode::Browse;
        self.exercise_edit.update_filtered(self.all_exercises.as_slice());
        self.send(Request::LoadExercises);
    }

    /// Moves the selection in the catalogue by `delta`.
    pub fn exercise_select(&mut self, delta: i32)
        ensures
            final(self)@ == old(self)@.exercise_select(delta as int),
            old(self)@.wf() ==> final(self)@.wf(),
    {
        if self.exercise_edit.mode != ExerciseEditMode::Browse {
            return ;
        }
        let len = self.exercise_edit.filtered.len();
        if len == 0 {
            return ;
        }
        self.exercise_edit.selected = step_index(self.exercise_edit.selected, delta, len);
    }

    /// Switches archived exercises between shown and hidden.
    pub fn exercise_toggle_archived(&mut self)
        ensures
            final(self)@ == old(self)@.exercise_toggle_archived(),
            old(self)@.wf() ==> final(self)@.wf(),
    {
        if self.exercise_edit.mode != ExerciseEditMode::Browse {
            return ;
        }
        self.exercise_edit.show_archived = !self.exercise_edit.show_archived;
        self.exercise_edit.update_filtered(self.all_exercises.as_slice());
        self.status = if self.exercise_edit.show_archived {
            String::from_str("Showing archived exercises")
        } else {
            String::from_str("Hiding archived exercises")
        };
    }

    /// Opens the entry of a new name in the catalogue.
    pub fn exercise_start_add(&mut self)
        ensures
            final(self)@ == old(self)@.with_edit(old(self)@.exercise_edit.start_add()),
            old(self)@.wf() ==> final(self)@.wf(),
    {
        self.exercise_edit.start_add();
    }

    /// Opens the renaming of the selected exercise of the catalogue.
    pub fn exercise_start_rename(&mut self)
        ensures
            final(self)@ == old(self)@.with_edit(old(self)@.exercise_edit.start_rename()),
            old(self)@.wf() ==> final(self)@.wf(),
    {
        self.exercise_edit.start_rename();
    }

    /// Closes the entry of the catalogue.
    pub fn exercise_cancel(&mut self)
        ensures
            final(self)@ == old(self)@.with_edit(old(self)@.exercise_edit.cancel()),
            old(self)@.wf() ==> final(self)@.wf(),
    {
        self.exercise_edit.cancel();
    }

    /// Takes the keystroke `ch` in the name entry of the catalogue.
    pub fn exercise_input(&mut self, ch: char)
        ensures
            final(self)@ == old(self)@.exercise_input(ch),
            old(self)@.wf() ==> final(self)@.wf(),
    {
        if self.exercise_edit.mode == ExerciseEditMode::Browse {
            return ;
        }
        push_char(&mut self.exercise_edit.input, ch);
    }

    /// Takes a backspace in the name entry of the catalogue.
    pub fn exercise_backspace(&mut self)
        ensures
            final(self)@ == old(self)@.exercise_backspace(),
            old(self)@.wf() ==> final(self)@.wf(),
    {
        if self.exercise_edit.mode == ExerciseEditMode::Browse {
            return ;
        }
        let _ = pop_char(&mut self.exercise_edit.input);
    }

    /// Confirms the name entry of the catalogue.
    pub fn exercise_confirm(&mut self)
        ensures
            final(self)@ == old(self)@.exercise_confirm(),
            old(self)@.wf() ==> final(self)@.wf(),
    {
        let name = trim_text(self.exercise_edit.input.as_str());
        if name.as_str().unicode_len() == 0 {
            self.status = String::from_str("Name cannot be empty");
            return ;
        }
        match self.exercise_edit.mode {
            ExerciseEditMode::Add => {
                let mut status = joined("Creating exercise: ", name.as_str());
                status.append("...");
                self.send(Request::CreateExercise { name });
                self.status = status;
            },
            ExerciseEditMode::Rename => {
                if self.exercise_edit.selected < self.exercise_edit.filtered.len() {
                    let id = self.exercise_edit.filtered[self.exercise_edit.selected].id;
                    let mut status = joined("Renaming to: ", name.as_str());
                    status.append("...");
                    self.send(Request::UpdateExercise { id, name: Some(name), archived: None });
                    self.status = status;
                }
            },
            ExerciseEditMode::Browse => {},
        }
    }

    /// Archives the selected exercise of the catalogue, or takes it out of
    /// the archive.
    pub fn exercise_archive(&mut self)
        ensures
            final(self)@ == old(self)@.exercise_archive(),
            old(self)@.wf() ==> final(self)@.wf(),
    {
        if self.exercise_edit.mode != ExerciseEditMode::Browse {
            return ;
        }
        if self.exercise_edit.selected < self.exercise_edit.filtered.len() {
            let ex = &self.exercise_edit.filtered[self.exercise_edit.selected];
            let id = ex.id;
            let archive = !ex.archived;
            let mut status = String::from_str(
                if archive {
                    "Archiving"
                } else {
                    "Unarchiving"
                },
            );
            status.append(" exercise: ");
            status.append(ex.name.as_str());
            status.append("...");
            self.send(Request::UpdateExercise { id, name: None, archived: Some(archive) });
            self.status = status;
        }
    }

    /// Moves the weekday selected in the plans by `delta`, going round the
    /// week.
    pub fn manage_select_day(&mut self, delta: i32)
        ensures
            final(self)@ == old(self)@.manage_select_day(delta as int),
            old(self)@.wf() ==> final(self)@.wf(),
    {
        if self.manage.mode != ManageMode::Browse {
            return ;
        }
        let sum: i128 = self.manage.selected_day as i128 + delta as i128;
        let r: i128 = sum % 7;
        self.manage.selected_day = if r < 0 {
            (r + 7) as usize
        } else {
            r as usize
        };
        self.manage.selected_exercise = 0;
    }

    /// The index of the plan of weekday `weekday`, or the count of plans.
    fn find_plan(&self, weekday: usize) -> (k: usize)
        ensures
            k == first_index(self@.plans, planned_on_day(weekday as nat)),
            k <= self.plans.len(),
    {
        let n = self.plans.len();
        let mut k: usize = 0;
        while k < n && !is_planned_on_day(&self.plans[k], weekday)
            invariant
                k <= n,
                n == self.plans.len(),
                forall|j: int|
                    0 <= j < k ==> !planned_on_day(weekday as nat)(#[trigger] self.plans@[j]),
            decreases n - k,
        {
            k = k + 1;
        }
        proof {
            lemma_first_index_is(self.plans@, planned_on_day(weekday as nat), k as int);
        }
        k
    }

    /// The plan of weekday `weekday`, if there is one.
    pub fn plan_for_weekday(&self, weekday: usize) -> (r: Option<&Template>)
        ensures
            r is Some <==> self@.plan_for_weekday(weekday as nat) is Some,
            r is Some ==> *r->0 == self@.plan_for_weekday(weekday as nat)->0,
    {
        let k = self.find_plan(weekday);
        if k < self.plans.len() {
            Some(&self.plans[k])
        } else {
            None
        }
    }

    /// Moves the exercise selected in the plan of the selected weekday by
    /// `delta`.
    pub fn manage_select_exercise(&mut self, delta: i32)
        ensures
            final(self)@ == old(self)@.manage_select_exercise(delta as int),
            old(self)@.wf() ==> final(self)@.wf(),
    {
        if self.manage.mode != ManageMode::Browse {
            return ;
        }
        let len = match self.plan_for_weekday(self.manage.selected_day) {
            Some(p) => p.exercises.len(),
            None => 0,
        };
        self.manage.selected_exercise = step_index(self.manage.selected_exercise, delta, len);
    }

    /// Opens the search for an exercise to add to the plan.
    pub fn manage_start_add(&mut self)
        ensures
            final(self)@ == old(self)@.manage_start_add(),
            old(self)@.wf() ==> final(self)@.wf(),
    {
        self.manage.start_add();
        self.manage.update_search(self.all_exercises.as_slice());
    }

    /// Closes the search.
    pub fn manage_cancel_add(&mut self)
        ensures
            final(self)@ == old(self)@.with_manage(old(self)@.manage.cancel_add()),
            old(self)@.wf() ==> final(self)@.wf(),
    {
        self.manage.cancel_add();
    }

    /// Takes the keystroke `ch` in the search.
    pub fn manage_search_input(&mut self, ch: char)
        ensures
            final(self)@ == old(self)@.manage_search_input(ch),
            old(self)@.wf() ==> final(self)@.wf(),
    {
        if self.manage.mode != ManageMode::AddExercise {
            return ;
        }
        push_char(&mut self.manage.search_query, ch);
        self.manage.update_search(self.all_exercises.as_slice());
    }

    /// Takes a backspace in the search.
    pub fn manage_search_backspace(&mut self)
        ensures
            final(self)@ == old(self)@.manage_search_backspace(),
            old(self)@.wf() ==> final(self)@.wf(),
    {
        if self.manage.mode != ManageMode::AddExercise {
            return ;
        }
        let _ = pop_char(&mut self.manage.search_query);
        self.manage.update_search(self.all_exercises.as_slice());
    }

    /// Moves the cursor in the search results by `delta`.
    pub fn manage_search_move(&mut self, delta: i32)
        ensures
            final(self)@ == old(self)@.manage_search_move(delta as int),
            old(self)@.wf() ==> final(self)@.wf(),
    {
        if self.manage.mode != ManageMode::AddExercise {
            return ;
        }
        let len = self.manage.search_results.len();
        if len == 0 {
            return ;
        }
        self.manage.search_cursor = step_index(self.manage.search_cursor, delta, len);
    }

    /// Chooses the exercise under the cursor of the search for the selected
    /// weekday.
    pub fn manage_confirm_add(&mut self)
        ensures
            final(self)@ == old(self)@.manage_confirm_add(),
            old(self)@.wf() ==> final(self)@.wf(),
    {
        if self.manage.mode != ManageMode::AddExercise {
            return ;
        }
        if self.manage.search_cursor >= self.manage.search_results.len() {
            self.status = String::from_str("No exercise selected");
            return ;
        }
        let weekday = self.manage.selected_day;
        let exercise_id = self.manage.search_results[self.manage.search_cursor].id;
        let k = self.find_plan(weekday);
        if k < self.plans.len() {
            let template_id = self.plans[k].id;
            let mut status = joined(
                "Adding ",
                self.manage.search_results[self.manage.search_cursor].name.as_str(),
            );
            status.append(" to ");
            status.append(self.plans[k].name.as_str());
            status.append("...");
            self.send(Request::AddExerciseToPlan { template_id, exercise_id });
            self.manage.cancel_add();
            self.status = status;
        } else if weekday < 7 {
            let name = name_of_weekday(weekday);
            let mut status = joined("Creating ", name);
            status.append(" plan and adding ");
            status.append(self.manage.search_results[self.manage.search_cursor].name.as_str());
            status.append("...");
            self.manage.pending_exercise_id = Some(exercise_id);
            self.send(
                Request::CreatePlan { name: String::from_str(name), day_of_week: weekday as i32 },
            );
            self.manage.cancel_add();
            self.status = status;
        }
    }

    /// Takes the exercise selected in the plan of the selected weekday out
    /// of the plan.
    pub fn manage_delete_exercise(&mut self)
        ensures
            final(self)@ == old(self)@.manage_delete_exercise(),
            old(self)@.wf() ==> final(self)@.wf(),
    {
        if self.manage.mode != ManageMode::Browse {
            return ;
        }
        let k = self.find_plan(self.manage.selected_day);
        if k >= self.plans.len() {
            return ;
        }
        let at = self.manage.selected_exercise;
        if at >= self.plans[k].exercises.len() {
            return ;
        }
        let template_id = self.plans[k].id;
        let exercise_id = self.plans[k].exercises[at].exercise_id;
        let mut status = joined("Removing ", self.plans[k].exercises[at].name.as_str());
        status.append(" from plan...");
        self.send(Request::RemoveExerciseFromPlan { template_id, exercise_id });
        self.status = status;
    }

    /// The name of the plan that the day on screen shows, if there is one.
    pub fn current_plan_name(&self) -> (r: Option<&str>)
        ensures
            r is Some <==> self@.current_plan_name() is Some,
            r is Some ==> r->0@ == self@.current_plan_name()->0,
    {
        let weekday = self.day.weekday_from_monday() as i32;
        let n = self.plans.len();
        let mut k: usize = 0;
        while k < n && !crate::sync::is_planned_on(&self.plans[k], weekday)
            invariant
                k <= n,
                n == self.plans.len(),
                forall|j: int| 0 <= j < k ==> !planned_on(weekday)(#[trigger] self.plans@[j]),
            decreases n - k,
        {
            k = k + 1;
        }
        proof {
            lemma_first_index_is(self.plans@, planned_on(weekday), k as int);
        }
        if k < n {
            Some(self.plans[k].name.as_str())
        } else if n > 0 {
            Some(self.plans[0].name.as_str())
        } else {
            None
        }
    }
}

} // verus!
