//! The records exchanged with the persistence service.

use vstd::prelude::*;
use crate::time::{Day, Timestamp};
use crate::weight::Weight;

verus! {

/// Who defined an exercise.
#[derive(Debug, Clone, Copy, PartialEq, Eq, Structural)]
pub enum Owner {
    User,
    Admin,
}

/// An exercise of the catalogue.
#[derive(Debug, Clone)]
pub struct Exercise {
    pub id: i64,
    pub name: String,
    pub description: Option<String>,
    pub archived: bool,
    pub owner: Owner,
}

/// A copy of an optional text.
pub fn duplicate_text(s: &Option<String>) -> (r: Option<String>)
    ensures
        r == *s,
{
    match s {
        Some(t) => Some(t.clone()),
        None => None,
    }
}

impl Exercise {
    /// A copy with the same contents.
    pub fn duplicate(&self) -> (r: Exercise)
        ensures
            r == *self,
    {
        Exercise {
            id: self.id,
            name: self.name.clone(),
            description: duplicate_text(&self.description),
            archived: self.archived,
            owner: self.owner,
        }
    }
}

/// The fields of a new exercise.
#[derive(Debug, Clone)]
pub struct CreateExercise {
    pub name: String,
    pub description: Option<String>,
}

/// The fields of an exercise to change; `None` leaves a field as it is.
#[derive(Debug, Clone)]
pub struct UpdateExercise {
    pub name: Option<String>,
    pub description: Option<String>,
    pub archived: Option<bool>,
}

/// A set as the service stores it.
#[derive(Debug, Clone)]
pub struct WorkoutSet {
    pub id: i64,
    pub exercise_id: i64,
    pub day: String,
    pub set_number: i32,
    pub weight: Weight,
    pub reps: i32,
    pub completed_at: Timestamp,
}

/// What is sent to store a set.
#[derive(Debug, Clone, Copy, PartialEq, Eq, Structural)]
pub struct SetInput {
    pub weight: Weight,
    pub reps: i32,
    pub completed_at: Option<Timestamp>,
}

/// The sets of one exercise on one day, as the service lists them.
#[derive(Debug, Clone)]
pub struct DaySets {
    pub sets: Vec<WorkoutSet>,
}

/// Weight and reps of one set of an earlier session.
#[derive(Debug, Clone, Copy, PartialEq, Eq, Structural)]
pub struct CompactSet {
    pub weight: Weight,
    pub reps: i32,
}

/// The last session of an exercise.
#[derive(Debug, Clone)]
pub struct LastSession {
    pub date: Timestamp,
    pub sets: Vec<CompactSet>,
}

/// One exercise of a plan.
#[derive(Debug, Clone)]
pub struct TemplateExercise {
    pub exercise_id: i64,
    pub name: String,
    pub target_sets: Option<i32>,
    pub last_session: Option<LastSession>,
}

/// A plan: the exercises of one weekday, Monday being 0.
#[derive(Debug, Clone)]
pub struct Template {
    pub id: i64,
    pub name: String,
    pub day_of_week: Option<i32>,
    pub exercises: Vec<TemplateExercise>,
}

/// The span of an activity request.
#[derive(Debug, Clone, Copy, PartialEq, Eq, Structural)]
pub struct ActivityQuery {
    pub start: Option<Timestamp>,
    pub end: Option<Timestamp>,
}

/// How many sets were completed on a day.
#[derive(Debug, Clone)]
pub struct ActivityDay {
    pub date: String,
    pub sets_completed: i64,
}

/// The activity of a span of days.
#[derive(Debug, Clone)]
pub struct Activity {
    pub days: Vec<ActivityDay>,
}

/// What a chart measures.
#[derive(Debug, Clone, Copy, PartialEq, Eq, Structural)]
pub enum Metric {
    MaxWeight,
    SessionTotalVolume,
    BestSetVolume,
    Est1Rm,
}

/// The span and metric of a chart request.
#[derive(Debug, Clone, Copy, PartialEq, Eq, Structural)]
pub struct GraphQuery {
    pub start: Option<Timestamp>,
    pub end: Option<Timestamp>,
    pub metric: Option<Metric>,
}

/// One point of a chart: a day as `YYYY-MM-DD` and a value in thousandths.
#[derive(Debug, Clone)]
pub struct GraphPoint {
    pub date: String,
    pub value: u64,
}

/// The chart of one exercise.
#[derive(Debug, Clone)]
pub struct Graph {
    pub exercise_id: i64,
    pub exercise_name: String,
    pub points: Vec<GraphPoint>,
}

/// What is sent to register.
#[derive(Debug, Clone)]
pub struct RegisterInput {
    pub username: String,
    pub password: String,
    pub totp_secret: String,
    pub totp_code: String,
}

/// What is sent to sign in.
#[derive(Debug, Clone)]
pub struct LoginInput {
    pub username: String,
    pub password: String,
    pub totp: Option<String>,
}

/// A session the service opened.
#[derive(Debug, Clone)]
pub struct Session {
    pub user_id: i64,
    pub username: String,
    pub expires_at: Timestamp,
}

/// The signed-in user.
#[derive(Debug, Clone)]
pub struct User {
    pub user_id: i64,
    pub username: String,
    pub totp_enabled: bool,
}

/// A one-time-password secret and the URL that carries it.
#[derive(Debug, Clone)]
pub struct TotpSetup {
    pub secret: String,
    pub otpauth_url: String,
}

/// A one-time-password code to check.
#[derive(Debug, Clone)]
pub struct TotpVerify {
    pub code: String,
}

/// One observation for the metric engine: a set done on a day.
#[derive(Debug, Clone, Copy, PartialEq, Eq, Structural)]
pub struct SetData {
    pub date: Day,
    pub weight: Weight,
    pub reps: i32,
}

} // verus!
