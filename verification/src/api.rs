//! What the controller asks of the persistence service, and what comes
//! back. The controller only queues requests; sending them, and turning
//! what arrives into responses, is the caller's part.

use vstd::prelude::*;
use crate::models::{
    Activity, ActivityQuery, DaySets, Exercise, Graph, Session, SetInput, Template, User,
    WorkoutSet,
};
use crate::time::Day;

verus! {

/// A request to the service.
#[derive(Debug)]
pub enum Request {
    Login { username: String, password: String, totp: String },
    Register { username: String, password: String, totp_secret: String, totp_code: String },
    CheckSession,
    LoadPlans,
    LoadExercises,
    LoadGraph(i64),
    LoadActivity(ActivityQuery),
    LoadSets { day: Day, exercise_id: i64 },
    SaveSet { day: Day, exercise_id: i64, set_number: i32, input: SetInput },
    DeleteSet { day: Day, exercise_id: i64, set_number: i32 },
    CreatePlan { name: String, day_of_week: i32 },
    AddExerciseToPlan { template_id: i64, exercise_id: i64 },
    RemoveExerciseFromPlan { template_id: i64, exercise_id: i64 },
    CreateExercise { name: String },
    UpdateExercise { id: i64, name: Option<String>, archived: Option<bool> },
}

/// What a [`Request`] holds, as mathematics.
pub ghost enum RequestModel {
    Login { username: Seq<char>, password: Seq<char>, totp: Seq<char> },
    Register {
        username: Seq<char>,
        password: Seq<char>,
        totp_secret: Seq<char>,
        totp_code: Seq<char>,
    },
    CheckSession,
    LoadPlans,
    LoadExercises,
    LoadGraph(i64),
    LoadActivity(ActivityQuery),
    LoadSets { day: Day, exercise_id: i64 },
    SaveSet { day: Day, exercise_id: i64, set_number: i32, input: SetInput },
    DeleteSet { day: Day, exercise_id: i64, set_number: i32 },
    CreatePlan { name: Seq<char>, day_of_week: i32 },
    AddExerciseToPlan { template_id: i64, exercise_id: i64 },
    RemoveExerciseFromPlan { template_id: i64, exercise_id: i64 },
    CreateExercise { name: Seq<char> },
    UpdateExercise { id: i64, name: Option<Seq<char>>, archived: Option<bool> },
}

impl View for Request {
    type V = RequestModel;

    open spec fn view(&self) -> RequestModel {
        match *self {
            Request::Login { username, password, totp } => RequestModel::Login {
                username: username@,
                password: password@,
                totp: totp@,
            },
            Request::Register {
                username,
                password,
                totp_secret,
                totp_code,
            } => RequestModel::Register {
                username: username@,
                password: password@,
                totp_secret: totp_secret@,
                totp_code: totp_code@,
            },
            Request::CheckSession => RequestModel::CheckSession,
            Request::LoadPlans => RequestModel::LoadPlans,
            Request::LoadExercises => RequestModel::LoadExercises,
            Request::LoadGraph(id) => RequestModel::LoadGraph(id),
            Request::LoadActivity(q) => RequestModel::LoadActivity(q),
            Request::LoadSets { day, exercise_id } => RequestModel::LoadSets { day, exercise_id },
            Request::SaveSet { day, exercise_id, set_number, input } => RequestModel::SaveSet {
                day,
                exercise_id,
                set_number,
                input,
            },
            Request::DeleteSet { day, exercise_id, set_number } => RequestModel::DeleteSet {
                day,
                exercise_id,
                set_number,
            },
            Request::CreatePlan { name, day_of_week } => RequestModel::CreatePlan {
                name: name@,
                day_of_week,
            },
            Request::AddExerciseToPlan {
                template_id,
                exercise_id,
            } => RequestModel::AddExerciseToPlan { template_id, exercise_id },
            Request::RemoveExerciseFromPlan {
                template_id,
                exercise_id,
            } => RequestModel::RemoveExerciseFromPlan { template_id, exercise_id },
            Request::CreateExercise { name } => RequestModel::CreateExercise { name: name@ },
            Request::UpdateExercise { id, name, archived } => RequestModel::UpdateExercise {
                id,
                name: match name {
                    Some(n) => Some(n@),
                    None => None,
                },
                archived,
            },
        }
    }
}

/// The models of a run of requests, in order.
pub open spec fn requests_view(requests: Seq<Request>) -> Seq<RequestModel> {
    Seq::new(requests.len(), |i: int| requests[i]@)
}

/// What came back for a request; an error is the text that describes it.
#[derive(Debug)]
pub enum Response {
    LoggedIn(Result<Session, String>),
    Registered(Result<Session, String>),
    SessionChecked(Result<User, String>),
    Plans(Result<Vec<Template>, String>),
    Graph(i64, Result<Graph, String>),
    Activity(Result<Activity, String>),
    SetsLoaded { exercise_id: i64, day: Day, result: Result<DaySets, String> },
    SetSaved { exercise_id: i64, day: Day, set_number: i32, result: Result<WorkoutSet, String> },
    SetDeleted { exercise_id: i64, day: Day, set_number: i32, result: Result<(), String> },
    Exercises(Result<Vec<Exercise>, String>),
    PlanCreated(Result<Template, String>),
    PlanUpdated(Result<(), String>),
    ExerciseCreated(Result<Exercise, String>),
    ExerciseUpdated(Result<Exercise, String>),
}

} // verus!
