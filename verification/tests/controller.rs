use chrono::{Datelike, NaiveDate};
use ekman::api::{Request, Response};
use ekman::app::App;
use ekman::auth::AuthState;
use ekman::focus::Focus;
use ekman::models::{
    Activity, ActivityDay, DaySets, Graph, GraphPoint, Session, SetInput, Template,
    TemplateExercise, User, WorkoutSet,
};
use ekman::screen::View;
use ekman::time::{Day, Now, Timestamp};
use ekman::weight::Weight;

const SECOND: u64 = 1_000_000_000;

fn day(y: i32, m: u32, d: u32) -> Day {
    Day::from_number(NaiveDate::from_ymd_opt(y, m, d).unwrap().num_days_from_ce()).unwrap()
}

fn at(tick: u64) -> Now {
    Now { tick, utc: Timestamp { secs: 1_717_240_000 + (tick / SECOND) as i64, nanos: 7 }, offset: 0 }
}

fn kg(units: u32) -> Weight {
    Weight { milli: units * 1000 }
}

fn entry(id: i64, name: &str) -> TemplateExercise {
    TemplateExercise { exercise_id: id, name: name.to_string(), target_sets: None, last_session: None }
}

fn plan(id: i64, name: &str, weekday: Option<i32>, exercises: Vec<TemplateExercise>) -> Template {
    Template { id, name: name.to_string(), day_of_week: weekday, exercises }
}

fn record(id: i64, number: i32, weight: Weight, reps: i32) -> WorkoutSet {
    WorkoutSet {
        id,
        exercise_id: 7,
        day: "2024-06-01".to_string(),
        set_number: number,
        weight,
        reps,
        completed_at: Timestamp { secs: 1_717_243_200 + number as i64, nanos: 0 },
    }
}

/// Saturday, June 1, 2024, with a plan of two exercises for Saturdays.
fn workout() -> App {
    let mut app = App::with_auth(day(2024, 6, 1), AuthState::with_secret("S".to_string()));
    app.handle_response(
        Response::SessionChecked(Ok(User { user_id: 1, username: "bob".to_string(), totp_enabled: true })),
        at(0),
    );
    app.handle_response(
        Response::Plans(Ok(vec![
            plan(1, "Push", Some(0), vec![entry(3, "Bench")]),
            plan(2, "Legs", Some(5), vec![entry(7, "Squat"), entry(8, "Lunge")]),
        ])),
        at(0),
    );
    app.take_requests();
    app
}

fn kinds(requests: &[Request]) -> Vec<String> {
    requests
        .iter()
        .map(|r| match r {
            Request::Login { .. } => "login".to_string(),
            Request::Register { .. } => "register".to_string(),
            Request::CheckSession => "check".to_string(),
            Request::LoadPlans => "plans".to_string(),
            Request::LoadExercises => "exercises".to_string(),
            Request::LoadGraph(id) => format!("graph {}", id),
            Request::LoadActivity(_) => "activity".to_string(),
            Request::LoadSets { exercise_id, .. } => format!("sets {}", exercise_id),
            Request::SaveSet { exercise_id, set_number, .. } => format!("save {} {}", exercise_id, set_number),
            Request::DeleteSet { exercise_id, set_number, .. } => format!("delete {} {}", exercise_id, set_number),
            Request::CreatePlan { name, day_of_week } => format!("create plan {} {}", name, day_of_week),
            Request::AddExerciseToPlan { template_id, exercise_id } => format!("add {} {}", template_id, exercise_id),
            Request::RemoveExerciseFromPlan { template_id, exercise_id } => format!("remove {} {}", template_id, exercise_id),
            Request::CreateExercise { name } => format!("create exercise {}", name),
            Request::UpdateExercise { id, name, archived } => format!("update {} {:?} {:?}", id, name, archived),
        })
        .collect()
}

#[test]
fn the_program_starts_on_the_sign_in_form() {
    let mut app = App::new(day(2024, 6, 1));
    assert!(app.running);
    assert_eq!(app.view, View::Auth);
    assert_eq!(app.day, day(2024, 6, 1));
    assert!(app.exercises.is_empty());
    assert_eq!(app.status, "");
    assert_eq!(app.auth.totp_secret.len(), 32);
    assert!(app.outbox.is_empty());
    app.try_resume_session();
    assert_eq!(kinds(&app.take_requests()), vec!["check"]);
    assert!(app.outbox.is_empty());
}

#[test]
fn signing_in_shows_the_workout_and_asks_for_everything() {
    let mut app = App::with_auth(day(2024, 6, 1), AuthState::with_secret("S".to_string()));
    app.auth.submitting = true;
    let session = Session {
        user_id: 1,
        username: "bob".to_string(),
        expires_at: Timestamp { secs: 0, nanos: 0 },
    };
    let now = at(3 * SECOND);
    app.handle_response(Response::LoggedIn(Ok(session)), now);
    assert_eq!(app.view, View::Workout);
    assert!(!app.auth.submitting);
    assert_eq!(app.status, "Signed in as bob");
    let requests = app.take_requests();
    assert_eq!(kinds(&requests), vec!["plans", "exercises", "activity"]);
    match &requests[2] {
        Request::LoadActivity(q) => {
            assert_eq!(q.end, Some(now.utc));
            assert_eq!(q.start, Some(Timestamp { secs: now.utc.secs - 20 * 86_400, nanos: 7 }));
        }
        other => panic!("{:?}", other),
    }
}

#[test]
fn a_refused_sign_in_is_told_in_the_form() {
    let mut app = App::with_auth(day(2024, 6, 1), AuthState::with_secret("S".to_string()));
    app.auth.submitting = true;
    app.handle_response(Response::Registered(Err("taken".to_string())), at(0));
    assert_eq!(app.view, View::Auth);
    assert!(!app.auth.submitting);
    assert_eq!(app.auth.status, "taken");
    app.auth.submitting = true;
    app.handle_response(Response::SessionChecked(Err("expired".to_string())), at(0));
    assert!(app.auth.submitting);
    assert_eq!(app.auth.status, "expired");
    assert!(app.outbox.is_empty());
}

#[test]
fn the_plan_of_the_weekday_gives_the_exercises() {
    let mut app = App::with_auth(day(2024, 6, 1), AuthState::with_secret("S".to_string()));
    app.selected = 4;
    app.handle_response(
        Response::Plans(Ok(vec![
            plan(1, "Push", Some(0), vec![entry(3, "Bench")]),
            plan(2, "Legs", Some(5), vec![entry(7, "Squat"), entry(8, "Lunge")]),
        ])),
        at(0),
    );
    assert_eq!(app.status, "Legs • Sat Jun  1");
    assert_eq!(app.selected, 0);
    let names: Vec<&str> = app.exercises.iter().map(|e| e.name.as_str()).collect();
    assert_eq!(names, vec!["Squat", "Lunge"]);
    assert_eq!(kinds(&app.take_requests()), vec!["graph 7", "graph 8", "sets 7", "sets 8"]);
    assert_eq!(app.pending_graphs, vec![7, 8]);
    assert_eq!(app.loading_sets, vec![(day(2024, 6, 1), 7), (day(2024, 6, 1), 8)]);
    assert_eq!(app.current_plan_name(), Some("Legs"));
}

#[test]
fn a_weekday_without_a_plan_shows_the_first_plan() {
    let mut app = workout();
    app.move_day(1, at(0));
    assert_eq!(app.day, day(2024, 6, 2));
    assert_eq!(app.status, "Push • Sun Jun  2");
    assert_eq!(app.exercises.len(), 1);
    assert_eq!(app.exercises[0].id, Some(3));
    assert_eq!(app.pending_graphs, vec![3]);
    assert_eq!(kinds(&app.take_requests()), vec!["graph 3", "sets 3"]);
    assert_eq!(app.current_plan_name(), Some("Push"));
}

#[test]
fn without_plans_nothing_is_shown() {
    let mut app = App::with_auth(day(2024, 6, 1), AuthState::with_secret("S".to_string()));
    app.handle_response(Response::Plans(Ok(Vec::new())), at(0));
    assert_eq!(app.status, "No plans available");
    assert!(app.exercises.is_empty());
    assert!(app.take_requests().is_empty());
    assert_eq!(app.current_plan_name(), None);
    let mut app = workout();
    app.handle_response(Response::Plans(Err("down".to_string())), at(0));
    assert_eq!(app.status, "Load error: down");
    assert!(app.exercises.is_empty());
    app.tab_next();
    app.input_char('5', at(SECOND));
    app.delete_current_set();
    assert!(app.take_requests().is_empty());
}

#[test]
fn charts_of_exercises_no_longer_shown_are_dropped() {
    let mut app = workout();
    let chart = |id: i64| Graph { exercise_id: id, exercise_name: "x".to_string(), points: Vec::new() };
    app.handle_response(Response::Graph(7, Ok(chart(7))), at(0));
    assert_eq!(app.pending_graphs, vec![8]);
    assert_eq!(app.graphs.len(), 1);
    app.graphs.push(chart(99));
    app.pending_graphs.push(98);
    app.jump_to_today(day(2024, 6, 1), at(0));
    assert_eq!(app.graphs.len(), 2);
    app.jump_to_today(day(2024, 6, 8), at(0));
    assert_eq!(app.day, day(2024, 6, 8));
    let ids: Vec<i64> = app.graphs.iter().map(|g| g.exercise_id).collect();
    assert_eq!(ids, vec![7]);
    assert_eq!(app.pending_graphs, vec![8]);
    assert_eq!(kinds(&app.take_requests()), vec!["sets 7", "sets 8"]);
}

#[test]
fn a_chart_replaces_the_one_of_its_exercise() {
    let mut app = workout();
    let chart = |id: i64, n: usize| Graph {
        exercise_id: id,
        exercise_name: "x".to_string(),
        points: (0..n).map(|i| GraphPoint { date: "d".to_string(), value: i as u64 }).collect(),
    };
    app.handle_response(Response::Graph(7, Ok(chart(7, 1))), at(0));
    app.handle_response(Response::Graph(8, Ok(chart(8, 2))), at(0));
    app.handle_response(Response::Graph(7, Ok(chart(7, 3))), at(0));
    let sizes: Vec<(i64, usize)> = app.graphs.iter().map(|g| (g.exercise_id, g.points.len())).collect();
    assert_eq!(sizes, vec![(7, 3), (8, 2)]);
    assert!(app.pending_graphs.is_empty());
    app.handle_response(Response::Graph(8, Err("no".to_string())), at(0));
    assert_eq!(app.status, "Graph error: no");
    assert_eq!(app.graphs.len(), 2);
}

#[test]
fn sets_are_not_asked_for_twice() {
    let mut app = workout();
    app.request_sets_for(7);
    app.request_current_sets();
    app.request_all_sets();
    assert!(app.take_requests().is_empty());
    app.handle_response(
        Response::SetsLoaded { exercise_id: 7, day: day(2024, 6, 1), result: Ok(DaySets { sets: Vec::new() }) },
        at(0),
    );
    assert_eq!(app.loading_sets, vec![(day(2024, 6, 1), 8)]);
    app.request_all_sets();
    assert_eq!(kinds(&app.take_requests()), vec!["sets 7"]);
    app.request_graph(7);
    assert!(app.take_requests().is_empty());
}

#[test]
fn typing_reps_saves_the_set_and_moves_on() {
    let mut app = workout();
    app.input_char('6', at(SECOND));
    app.input_char('0', at(SECOND + 1));
    assert!(app.take_requests().is_empty());
    app.tab_next();
    assert_eq!(app.exercises[0].focus, Focus::Reps);
    let typed = at(2 * SECOND);
    app.input_char('5', typed);
    let requests = app.take_requests();
    assert_eq!(kinds(&requests), vec!["save 7 1"]);
    match &requests[0] {
        Request::SaveSet { day: d, input, .. } => {
            assert_eq!(*d, day(2024, 6, 1));
            assert_eq!(*input, SetInput { weight: kg(60), reps: 5, completed_at: Some(typed.utc) });
        }
        other => panic!("{:?}", other),
    }
    let ex = &app.exercises[0];
    assert!(ex.sets[0].pending);
    assert_eq!(ex.sets.len(), 2);
    assert_eq!((ex.cursor, ex.focus), (1, Focus::Reps));
    assert_eq!(ex.sets[1].weight.buffer, "60.0");
    assert_eq!(ex.last_input, None);
}

#[test]
fn a_low_digit_waits_and_a_tick_moves_on_after_the_pause() {
    let mut app = workout();
    app.tab_next();
    app.input_char('1', at(5 * SECOND));
    assert_eq!(kinds(&app.take_requests()), vec!["save 7 1"]);
    assert_eq!(app.exercises[0].cursor, 0);
    app.tick(at(6 * SECOND));
    assert_eq!(app.exercises[0].cursor, 0);
    app.input_char('0', at(6 * SECOND));
    assert_eq!(app.exercises[0].sets[0].reps, Some(10));
    assert_eq!(kinds(&app.take_requests()), vec!["save 7 1"]);
    app.tick(at(7 * SECOND));
    assert_eq!(app.exercises[0].cursor, 0);
    app.tick(at(7 * SECOND + 1));
    assert_eq!(app.exercises[0].cursor, 1);
    assert_eq!(app.exercises[0].sets.len(), 2);
    app.tick(at(60 * SECOND));
    assert_eq!(app.exercises[0].cursor, 1);
    assert_eq!(app.exercises[0].sets.len(), 2);
}

#[test]
fn a_digit_after_a_pause_goes_to_the_next_set() {
    let mut app = workout();
    app.tab_next();
    app.input_char('1', at(5 * SECOND));
    app.take_requests();
    app.input_char('2', at(7 * SECOND));
    let ex = &app.exercises[0];
    assert_eq!(ex.sets[0].reps, Some(1));
    assert_eq!(ex.sets[1].reps, Some(2));
    assert_eq!(ex.cursor, 1);
    assert_eq!(kinds(&app.take_requests()), vec!["save 7 2"]);
}

#[test]
fn ticks_act_in_the_workout_only() {
    let mut app = workout();
    app.tab_next();
    app.input_char('1', at(5 * SECOND));
    app.switch_to_manage();
    app.tick(at(60 * SECOND));
    assert_eq!(app.exercises[0].cursor, 0);
    app.switch_to_workout();
    app.toggle_focus();
    app.exercises[0].last_input = Some(5 * SECOND);
    app.tick(at(60 * SECOND));
    assert_eq!(app.exercises[0].cursor, 0);
}

#[test]
fn a_save_without_a_stamp_is_stamped_noon_of_the_day() {
    let mut app = workout();
    app.handle_response(
        Response::SetsLoaded {
            exercise_id: 7,
            day: day(2024, 6, 1),
            result: Ok(DaySets { sets: vec![record(31, 1, kg(60), 5)] }),
        },
        at(0),
    );
    app.exercises[0].sets[0].completed_at = None;
    app.bump_weight(2_500, at(0));
    let requests = app.take_requests();
    match &requests[0] {
        Request::SaveSet { input, set_number, exercise_id, .. } => {
            assert_eq!((*exercise_id, *set_number), (7, 1));
            assert_eq!(input.weight.milli, 62_500);
            assert_eq!(input.reps, 5);
            assert_eq!(input.completed_at, Some(Timestamp { secs: 1_717_243_200, nanos: 0 }));
        }
        other => panic!("{:?}", other),
    }
    assert_eq!(
        NaiveDate::from_ymd_opt(2024, 6, 1).unwrap().and_hms_opt(12, 0, 0).unwrap().and_utc().timestamp(),
        1_717_243_200
    );
}

#[test]
fn weights_without_reps_are_not_saved() {
    let mut app = workout();
    app.input_char('6', at(SECOND));
    app.bump_weight(2_500, at(SECOND));
    app.backspace(at(SECOND));
    assert!(app.take_requests().is_empty());
    assert!(!app.exercises[0].sets[0].pending);
}

#[test]
fn a_confirmation_is_matched_by_exercise_and_set_number() {
    let mut app = workout();
    app.tab_next();
    app.input_char('5', at(SECOND));
    app.take_requests();
    app.select_exercise(1);
    app.take_requests();
    let now = at(10 * SECOND);
    app.handle_response(
        Response::SetSaved { exercise_id: 7, day: day(2024, 6, 1), set_number: 1, result: Ok(record(31, 1, kg(60), 5)) },
        now,
    );
    assert_eq!(app.status, "Saved set 1");
    assert_eq!(app.selected, 1);
    let squat = &app.exercises[0];
    assert_eq!(squat.sets[0].id, Some(31));
    assert!(!squat.sets[0].pending);
    assert_eq!(squat.sets[0].weight.buffer, "60.0");
    assert_eq!(app.exercises[1].sets[0].id, None);
    assert_eq!(kinds(&app.take_requests()), vec!["activity"]);
}

#[test]
fn a_confirmation_for_another_day_is_dropped() {
    let mut app = workout();
    app.tab_next();
    app.input_char('5', at(SECOND));
    app.take_requests();
    app.handle_response(
        Response::SetSaved { exercise_id: 7, day: day(2024, 5, 31), set_number: 1, result: Ok(record(31, 1, kg(60), 5)) },
        at(10 * SECOND),
    );
    assert_eq!(app.exercises[0].sets[0].id, None);
    assert!(app.exercises[0].sets[0].pending);
    assert_eq!(app.status, "Legs • Sat Jun  1");
    assert!(app.take_requests().is_empty());
    app.handle_response(
        Response::SetDeleted { exercise_id: 7, day: day(2024, 5, 31), set_number: 1, result: Ok(()) },
        at(10 * SECOND),
    );
    app.handle_response(
        Response::SetSaved { exercise_id: 7, day: day(2024, 5, 31), set_number: 1, result: Err("x".to_string()) },
        at(10 * SECOND),
    );
    assert_eq!(app.status, "Legs • Sat Jun  1");
    assert!(app.take_requests().is_empty());
}

#[test]
fn sets_for_another_day_are_dropped_but_the_request_is_cleared() {
    let mut app = workout();
    app.loading_sets.push((day(2024, 5, 31), 7));
    app.handle_response(
        Response::SetsLoaded {
            exercise_id: 7,
            day: day(2024, 5, 31),
            result: Ok(DaySets { sets: vec![record(31, 1, kg(60), 5)] }),
        },
        at(0),
    );
    assert_eq!(app.loading_sets, vec![(day(2024, 6, 1), 7), (day(2024, 6, 1), 8)]);
    assert_eq!(app.exercises[0].sets[0].id, None);
    app.handle_response(
        Response::SetsLoaded { exercise_id: 8, day: day(2024, 6, 1), result: Err("gone".to_string()) },
        at(0),
    );
    assert_eq!(app.status, "Load sets error: gone");
    assert_eq!(app.loading_sets, vec![(day(2024, 6, 1), 7)]);
}

#[test]
fn a_confirmation_for_an_exercise_not_shown_changes_no_set() {
    let mut app = workout();
    app.handle_response(
        Response::SetSaved { exercise_id: 99, day: day(2024, 6, 1), set_number: 1, result: Ok(record(31, 1, kg(60), 5)) },
        at(0),
    );
    assert_eq!(app.status, "Legs • Sat Jun  1");
    assert_eq!(app.exercises[0].sets[0].id, None);
    assert_eq!(kinds(&app.take_requests()), vec!["activity"]);
}

#[test]
fn a_failed_save_asks_for_the_sets_of_the_service() {
    let mut app = workout();
    app.handle_response(
        Response::SetsLoaded { exercise_id: 7, day: day(2024, 6, 1), result: Ok(DaySets { sets: Vec::new() }) },
        at(0),
    );
    app.handle_response(
        Response::SetSaved { exercise_id: 7, day: day(2024, 6, 1), set_number: 1, result: Err("timeout".to_string()) },
        at(0),
    );
    assert_eq!(app.status, "Save error: timeout");
    assert_eq!(kinds(&app.take_requests()), vec!["sets 7"]);
    app.handle_response(
        Response::SetSaved { exercise_id: 7, day: day(2024, 6, 1), set_number: 1, result: Err("timeout".to_string()) },
        at(0),
    );
    assert!(app.take_requests().is_empty());
}

#[test]
fn only_sets_known_to_the_service_are_deleted_there() {
    let mut app = workout();
    app.delete_current_set();
    assert!(app.take_requests().is_empty());
    assert_eq!(app.status, "Legs • Sat Jun  1");
    assert_eq!(app.exercises[0].sets.len(), 1);
    app.handle_response(
        Response::SetsLoaded {
            exercise_id: 7,
            day: day(2024, 6, 1),
            result: Ok(DaySets { sets: vec![record(31, 1, kg(60), 5), record(32, 2, kg(60), 5)] }),
        },
        at(0),
    );
    app.move_set_cursor(1);
    app.delete_current_set();
    assert_eq!(app.status, "Deleting set 2...");
    let requests = app.take_requests();
    assert_eq!(kinds(&requests), vec!["delete 7 2"]);
    match &requests[0] {
        Request::DeleteSet { day: d, .. } => assert_eq!(*d, day(2024, 6, 1)),
        other => panic!("{:?}", other),
    }
    assert_eq!(app.exercises[0].sets.len(), 1);
    assert_eq!(app.exercises[0].cursor, 0);
    app.delete_current_set();
    assert_eq!(kinds(&app.take_requests()), vec!["delete 7 1"]);
    assert_eq!(app.exercises[0].sets.len(), 1);
    assert!(app.exercises[0].sets[0].is_empty());
}

#[test]
fn a_delete_that_went_through_asks_for_sets_and_activity() {
    let mut app = workout();
    app.loading_sets.clear();
    app.handle_response(
        Response::SetDeleted { exercise_id: 7, day: day(2024, 6, 1), set_number: 2, result: Ok(()) },
        at(0),
    );
    assert_eq!(app.status, "Deleted set 2");
    assert_eq!(kinds(&app.take_requests()), vec!["sets 7", "activity"]);
    app.handle_response(
        Response::SetDeleted { exercise_id: 7, day: day(2024, 6, 1), set_number: 2, result: Err("404".to_string()) },
        at(0),
    );
    assert_eq!(app.status, "Delete error: 404");
    assert!(app.take_requests().is_empty());
}

#[test]
fn a_failed_delete_asks_for_the_sets_of_the_service() {
    let mut app = workout();
    app.loading_sets.clear();
    app.handle_response(
        Response::SetDeleted { exercise_id: 7, day: day(2024, 6, 1), set_number: 2, result: Err("not found".to_string()) },
        at(0),
    );
    assert_eq!(app.status, "Delete error: not found");
    let requests = app.take_requests();
    assert_eq!(kinds(&requests), vec!["sets 7"]);
    match &requests[0] {
        Request::LoadSets { day: d, exercise_id } => assert_eq!((*d, *exercise_id), (day(2024, 6, 1), 7)),
        other => panic!("{:?}", other),
    }
    assert_eq!(app.loading_sets, vec![(day(2024, 6, 1), 7)]);
    app.handle_response(
        Response::SetDeleted { exercise_id: 7, day: day(2024, 6, 1), set_number: 2, result: Err("not found".to_string()) },
        at(0),
    );
    assert!(app.take_requests().is_empty());
    assert_eq!(app.loading_sets, vec![(day(2024, 6, 1), 7)]);
}

#[test]
fn a_missing_stamp_is_local_noon_of_the_day() {
    let mut app = workout();
    app.handle_response(
        Response::SetsLoaded {
            exercise_id: 7,
            day: day(2024, 6, 1),
            result: Ok(DaySets { sets: vec![record(31, 1, kg(60), 5)] }),
        },
        at(0),
    );
    for (offset, secs) in [(7_200, 1_717_243_200 - 7_200), (-18_000, 1_717_243_200 + 18_000), (0, 1_717_243_200)] {
        app.exercises[0].sets[0].completed_at = None;
        app.bump_weight(2_500, Now { offset, ..at(0) });
        match &app.take_requests()[..] {
            [Request::SaveSet { input, .. }] => {
                assert_eq!(input.completed_at, Some(Timestamp { secs, nanos: 0 }));
            }
            other => panic!("{:?}", other),
        }
    }
}

#[test]
fn a_bumped_weight_survives_a_late_answer() {
    let mut app = workout();
    app.handle_response(
        Response::SetsLoaded {
            exercise_id: 7,
            day: day(2024, 6, 1),
            result: Ok(DaySets { sets: vec![record(31, 1, kg(60), 5)] }),
        },
        at(0),
    );
    app.bump_weight(2_500, at(10 * SECOND));
    assert_eq!(kinds(&app.take_requests()), vec!["save 7 1"]);
    app.handle_response(
        Response::SetSaved { exercise_id: 7, day: day(2024, 6, 1), set_number: 1, result: Ok(record(31, 1, kg(60), 5)) },
        at(10 * SECOND + SECOND / 2),
    );
    assert_eq!(app.exercises[0].sets[0].weight.buffer, "62.5");
    assert_eq!(app.exercises[0].default_weight.milli, 62_500);
    assert!(!app.exercises[0].sets[0].pending);
    app.backspace(at(20 * SECOND));
    assert_eq!(app.exercises[0].sets[0].weight.buffer, "62.");
    app.take_requests();
    app.handle_response(
        Response::SetSaved { exercise_id: 7, day: day(2024, 6, 1), set_number: 1, result: Ok(record(31, 1, kg(60), 5)) },
        at(21 * SECOND),
    );
    assert_eq!(app.exercises[0].sets[0].weight.buffer, "62.");
    assert_eq!(app.exercises[0].default_weight.milli, 62_000);
    app.handle_response(
        Response::SetSaved { exercise_id: 7, day: day(2024, 6, 1), set_number: 1, result: Ok(record(31, 1, kg(60), 5)) },
        at(21 * SECOND + 1),
    );
    assert_eq!(app.exercises[0].sets[0].weight.buffer, "60.0");
}

#[test]
fn no_request_is_marked_as_under_way_twice() {
    let mut app = workout();
    for _ in 0..3 {
        app.request_all_sets();
        app.request_all_graphs();
        app.request_current_sets();
        app.select_exercise(1);
        app.select_exercise(-1);
    }
    assert_eq!(app.loading_sets, vec![(day(2024, 6, 1), 7), (day(2024, 6, 1), 8)]);
    assert_eq!(app.pending_graphs, vec![7, 8]);
    app.jump_to_today(day(2024, 6, 8), at(0));
    assert_eq!(app.loading_sets, vec![(day(2024, 6, 8), 7), (day(2024, 6, 8), 8)]);
    assert_eq!(app.pending_graphs, vec![7, 8]);
}

#[test]
fn tab_goes_through_fields_sets_and_exercises() {
    let mut app = workout();
    app.handle_response(
        Response::SetsLoaded {
            exercise_id: 7,
            day: day(2024, 6, 1),
            result: Ok(DaySets { sets: vec![record(31, 1, kg(60), 5), record(32, 2, kg(60), 5)] }),
        },
        at(0),
    );
    app.exercises[0].cursor = 0;
    app.exercises[0].last_input = Some(1);
    let mut seen = Vec::new();
    for _ in 0..7 {
        seen.push((app.selected, app.exercises[app.selected].cursor, app.exercises[app.selected].focus));
        app.tab_next();
    }
    assert_eq!(
        seen,
        vec![
            (0, 0, Focus::Weight),
            (0, 0, Focus::Reps),
            (0, 1, Focus::Weight),
            (0, 1, Focus::Reps),
            (1, 0, Focus::Weight),
            (1, 0, Focus::Reps),
            (1, 0, Focus::Reps),
        ]
    );
    assert_eq!(app.exercises[0].last_input, None);
    let mut back = Vec::new();
    for _ in 0..7 {
        app.tab_prev();
        back.push((app.selected, app.exercises[app.selected].cursor, app.exercises[app.selected].focus));
    }
    assert_eq!(
        back,
        vec![
            (1, 0, Focus::Weight),
            (0, 1, Focus::Reps),
            (0, 1, Focus::Weight),
            (0, 0, Focus::Reps),
            (0, 0, Focus::Weight),
            (0, 0, Focus::Weight),
            (0, 0, Focus::Weight),
        ]
    );
}

#[test]
fn stepping_past_the_last_set_of_the_last_exercise_moves_nothing() {
    let mut app = workout();
    app.select_exercise(1);
    app.tab_next();
    app.take_requests();
    let before = (app.selected, app.exercises[1].cursor, app.exercises[1].focus, app.exercises[1].sets.len());
    assert_eq!(before, (1, 0, Focus::Reps, 1));
    app.tab_next();
    app.tab_next();
    let after = (app.selected, app.exercises[1].cursor, app.exercises[1].focus, app.exercises[1].sets.len());
    assert_eq!(before, after);
    assert!(app.take_requests().is_empty());
    assert_eq!(app.status, "Legs • Sat Jun  1");
}

#[test]
fn leaving_an_exercise_drops_its_blank_sets() {
    let mut app = workout();
    app.tab_next();
    app.input_char('5', at(SECOND));
    assert_eq!(app.exercises[0].sets.len(), 2);
    app.take_requests();
    app.loading_sets.clear();
    app.tab_next();
    assert_eq!(app.selected, 1);
    assert_eq!(app.exercises[0].sets.len(), 1);
    assert_eq!(app.exercises[0].cursor, 0);
    assert_eq!(kinds(&app.take_requests()), vec!["sets 8"]);
    app.advance_set();
    app.advance_set();
    assert_eq!(app.exercises[1].sets.len(), 3);
    app.loading_sets.clear();
    app.select_exercise(-5);
    assert_eq!(app.selected, 0);
    assert_eq!(app.exercises[1].sets.len(), 1);
    assert_eq!(kinds(&app.take_requests()), vec!["sets 7"]);
    app.select_exercise(5);
    assert_eq!(app.selected, 1);
}

#[test]
fn the_queue_hands_out_requests_in_order_once() {
    let mut app = workout();
    app.loading_sets.clear();
    app.request_sets_for(8);
    app.request_activity(at(0));
    app.request_sets_for(7);
    assert_eq!(kinds(&app.take_requests()), vec!["sets 8", "activity", "sets 7"]);
    assert!(app.take_requests().is_empty());
}

#[test]
fn the_activity_replaces_the_days_held() {
    let mut app = workout();
    let days = vec![ActivityDay { date: "2024-06-01".to_string(), sets_completed: 4 }];
    app.handle_response(Response::Activity(Ok(Activity { days })), at(0));
    assert_eq!(app.activity.len(), 1);
    assert_eq!(app.activity[0].sets_completed, 4);
    app.handle_response(Response::Activity(Err("x".to_string())), at(0));
    assert_eq!(app.status, "Activity error: x");
    assert_eq!(app.activity.len(), 1);
}

#[test]
fn the_day_does_not_move_past_the_calendar() {
    let mut app = workout();
    app.move_day(i64::MAX, at(0));
    assert_eq!(app.day, day(2024, 6, 1));
    assert!(app.take_requests().is_empty());
    app.move_day(-1, at(0));
    assert_eq!(app.day, day(2024, 5, 31));
    assert_eq!(app.status, "Push • Fri May 31");
}
