use chrono::{Datelike, NaiveDate};
use ekman::api::{Request, Response};
use ekman::app::App;
use ekman::auth::AuthState;
use ekman::manage::{ExerciseEditMode, ExerciseEditState, ManageMode, ManageState};
use ekman::models::{Exercise, Owner, Template, TemplateExercise};
use ekman::screen::View;
use ekman::screens::name_of_weekday;
use ekman::time::{Day, Now, Timestamp};

fn today() -> Day {
    Day::from_number(NaiveDate::from_ymd_opt(2024, 6, 1).unwrap().num_days_from_ce()).unwrap()
}

fn now() -> Now {
    Now { tick: 0, utc: Timestamp { secs: 1_717_240_000, nanos: 0 }, offset: 0 }
}

fn exercise(id: i64, name: &str, archived: bool) -> Exercise {
    Exercise { id, name: name.to_string(), description: None, archived, owner: Owner::User }
}

fn catalogue() -> Vec<Exercise> {
    vec![
        exercise(1, "Bench Press", false),
        exercise(2, "Old Curl", true),
        exercise(3, "Overhead PRESS", false),
        exercise(4, "Squat", false),
    ]
}

fn app() -> App {
    let mut app = App::with_auth(today(), AuthState::with_secret("S".to_string()));
    app.handle_response(Response::Exercises(Ok(catalogue())), now());
    app.handle_response(
        Response::Plans(Ok(vec![Template {
            id: 10,
            name: "Legs".to_string(),
            day_of_week: Some(2),
            exercises: vec![
                TemplateExercise { exercise_id: 4, name: "Squat".to_string(), target_sets: None, last_session: None },
                TemplateExercise { exercise_id: 1, name: "Bench Press".to_string(), target_sets: None, last_session: None },
            ],
        }])),
        now(),
    );
    app.take_requests();
    app
}

fn names(list: &[Exercise]) -> Vec<&str> {
    list.iter().map(|e| e.name.as_str()).collect()
}

#[test]
fn the_search_finds_by_name_whatever_the_case() {
    let mut manage = ManageState::new();
    manage.start_add();
    manage.update_search(&catalogue());
    assert_eq!(names(&manage.search_results), vec!["Bench Press", "Overhead PRESS", "Squat"]);
    manage.search_query = "pReSs".to_string();
    manage.search_cursor = 2;
    manage.update_search(&catalogue());
    assert_eq!(names(&manage.search_results), vec!["Bench Press", "Overhead PRESS"]);
    assert_eq!(manage.search_cursor, 1);
    manage.search_query = "curl".to_string();
    manage.update_search(&catalogue());
    assert!(manage.search_results.is_empty());
    assert_eq!(manage.search_cursor, 0);
    manage.cancel_add();
    assert_eq!(manage.mode, ManageMode::Browse);
    assert_eq!(manage.search_query, "");
}

#[test]
fn the_catalogue_hides_archived_exercises_unless_asked() {
    let mut edit = ExerciseEditState::new();
    edit.selected = 9;
    edit.update_filtered(&catalogue());
    assert_eq!(names(&edit.filtered), vec!["Bench Press", "Overhead PRESS", "Squat"]);
    assert_eq!(edit.selected, 2);
    assert_eq!(edit.selected_exercise().map(|e| e.id), Some(4));
    edit.show_archived = true;
    edit.update_filtered(&catalogue());
    assert_eq!(edit.filtered.len(), 4);
    edit.update_filtered(&[]);
    assert_eq!(edit.selected, 0);
    assert!(edit.selected_exercise().is_none());
    edit.start_rename();
    assert_eq!(edit.mode, ExerciseEditMode::Browse);
}

#[test]
fn renaming_starts_from_the_name_of_the_selected_exercise() {
    let mut edit = ExerciseEditState::new();
    edit.update_filtered(&catalogue());
    edit.selected = 1;
    edit.start_rename();
    assert_eq!(edit.mode, ExerciseEditMode::Rename);
    assert_eq!(edit.input, "Overhead PRESS");
    edit.cancel();
    assert_eq!((edit.mode, edit.input.as_str()), (ExerciseEditMode::Browse, ""));
    edit.start_add();
    assert_eq!((edit.mode, edit.input.as_str()), (ExerciseEditMode::Add, ""));
}

#[test]
fn submitting_the_form_needs_all_three_fields() {
    let mut app = App::with_auth(today(), AuthState::with_secret("SECRET".to_string()));
    app.submit_auth();
    assert_eq!(app.auth.status, "Username required");
    for ch in "  ".chars() {
        app.auth.push_char(ch);
    }
    app.submit_auth();
    assert_eq!(app.auth.status, "Username required");
    app.auth.push_char('b');
    app.submit_auth();
    assert_eq!(app.auth.status, "Password required");
    app.auth.next_field();
    app.auth.push_char('p');
    app.submit_auth();
    assert_eq!(app.auth.status, "TOTP code required");
    assert!(!app.auth.submitting);
    assert!(app.outbox.is_empty());
    app.auth.next_field();
    app.auth.push_char('1');
    app.submit_auth();
    assert!(app.auth.submitting);
    assert_eq!(app.auth.status, "Registering...");
    let requests = app.take_requests();
    match &requests[..] {
        [Request::Register { username, password, totp_secret, totp_code }] => {
            assert_eq!((username.as_str(), password.as_str()), ("  b", "p"));
            assert_eq!((totp_secret.as_str(), totp_code.as_str()), ("SECRET", "1"));
        }
        other => panic!("{:?}", other),
    }
    app.submit_auth();
    assert!(app.outbox.is_empty());
    app.auth.submitting = false;
    app.set_auth_mode(false);
    app.auth.next_field();
    app.auth.next_field();
    app.auth.push_char('2');
    app.submit_auth();
    assert_eq!(app.auth.status, "Signing in...");
    match &app.take_requests()[..] {
        [Request::Login { username, password, totp }] => {
            assert_eq!((username.as_str(), password.as_str(), totp.as_str()), ("  b", "p", "2"));
        }
        other => panic!("{:?}", other),
    }
}

#[test]
fn switching_views_asks_for_what_they_show() {
    let mut app = app();
    app.switch_to_manage();
    assert_eq!(app.view, View::Manage);
    assert!(matches!(app.take_requests()[..], [Request::LoadPlans, Request::LoadExercises]));
    app.manage_start_add();
    app.switch_to_exercises();
    assert_eq!(app.view, View::Exercises);
    assert_eq!(app.manage.mode, ManageMode::Browse);
    assert_eq!(names(&app.exercise_edit.filtered), vec!["Bench Press", "Overhead PRESS", "Squat"]);
    assert!(matches!(app.take_requests()[..], [Request::LoadExercises]));
    app.exercise_start_add();
    app.switch_to_workout();
    assert_eq!(app.view, View::Workout);
    assert_eq!(app.exercise_edit.mode, ExerciseEditMode::Browse);
    assert!(app.take_requests().is_empty());
}

#[test]
fn the_catalogue_view_selects_toggles_and_archives() {
    let mut app = app();
    app.switch_to_exercises();
    app.take_requests();
    app.exercise_select(1);
    app.exercise_select(5);
    assert_eq!(app.exercise_edit.selected, 2);
    app.exercise_select(-1);
    assert_eq!(app.exercise_edit.selected, 1);
    app.exercise_toggle_archived();
    assert_eq!(app.status, "Showing archived exercises");
    assert_eq!(app.exercise_edit.filtered.len(), 4);
    app.exercise_archive();
    assert_eq!(app.status, "Unarchiving exercise: Old Curl...");
    match &app.take_requests()[..] {
        [Request::UpdateExercise { id: 2, name: None, archived: Some(false) }] => {}
        other => panic!("{:?}", other),
    }
    app.exercise_toggle_archived();
    assert_eq!(app.status, "Hiding archived exercises");
    app.exercise_archive();
    assert_eq!(app.status, "Archiving exercise: Overhead PRESS...");
    match &app.take_requests()[..] {
        [Request::UpdateExercise { id: 3, name: None, archived: Some(true) }] => {}
        other => panic!("{:?}", other),
    }
    app.exercise_start_add();
    app.exercise_select(1);
    app.exercise_toggle_archived();
    app.exercise_archive();
    assert_eq!(app.exercise_edit.selected, 1);
    assert!(app.take_requests().is_empty());
}

#[test]
fn a_name_is_trimmed_and_must_not_be_empty() {
    let mut app = app();
    app.switch_to_exercises();
    app.take_requests();
    app.exercise_input('x');
    assert_eq!(app.exercise_edit.input, "");
    app.exercise_start_add();
    app.exercise_confirm();
    assert_eq!(app.status, "Name cannot be empty");
    for ch in "  Row ".chars() {
        app.exercise_input(ch);
    }
    app.exercise_input('s');
    app.exercise_backspace();
    app.exercise_confirm();
    assert_eq!(app.status, "Creating exercise: Row...");
    match &app.take_requests()[..] {
        [Request::CreateExercise { name }] => assert_eq!(name, "Row"),
        other => panic!("{:?}", other),
    }
    app.handle_response(Response::ExerciseCreated(Ok(exercise(5, "Row", false))), now());
    assert_eq!(app.status, "Created exercise: Row");
    assert_eq!(app.all_exercises.len(), 5);
    assert_eq!(app.exercise_edit.mode, ExerciseEditMode::Browse);
    assert_eq!(names(&app.exercise_edit.filtered), vec!["Bench Press", "Overhead PRESS", "Squat", "Row"]);
    app.exercise_select(3);
    app.exercise_start_rename();
    app.exercise_input('s');
    app.exercise_confirm();
    assert_eq!(app.status, "Renaming to: Rows...");
    match &app.take_requests()[..] {
        [Request::UpdateExercise { id: 5, name: Some(name), archived: None }] => assert_eq!(name, "Rows"),
        other => panic!("{:?}", other),
    }
    app.handle_response(Response::ExerciseUpdated(Ok(exercise(5, "Rows", false))), now());
    assert_eq!(app.status, "Updated exercise: Rows");
    assert_eq!(app.all_exercises[4].name, "Rows");
    assert_eq!(app.all_exercises.len(), 5);
    app.handle_response(Response::ExerciseUpdated(Ok(exercise(77, "Ghost", false))), now());
    assert_eq!(app.all_exercises.len(), 5);
    app.handle_response(Response::ExerciseUpdated(Err("no".to_string())), now());
    assert_eq!(app.status, "Update exercise error: no");
    app.handle_response(Response::ExerciseCreated(Err("no".to_string())), now());
    assert_eq!(app.status, "Create exercise error: no");
}

#[test]
fn the_weekdays_go_round() {
    let mut app = app();
    app.manage.selected_exercise = 1;
    app.manage_select_day(1);
    assert_eq!((app.manage.selected_day, app.manage.selected_exercise), (1, 0));
    app.manage_select_day(-2);
    assert_eq!(app.manage.selected_day, 6);
    app.manage_select_day(3);
    assert_eq!(app.manage.selected_day, 2);
    app.manage_select_day(i32::MIN);
    assert_eq!(app.manage.selected_day, (2_i64 + i32::MIN as i64).rem_euclid(7) as usize);
    app.manage.selected_day = 2;
    app.manage_select_exercise(1);
    assert_eq!(app.manage.selected_exercise, 1);
    app.manage_select_exercise(1);
    assert_eq!(app.manage.selected_exercise, 1);
    app.manage_select_day(1);
    app.manage.selected_exercise = 1;
    app.manage_select_exercise(1);
    assert_eq!(app.manage.selected_exercise, 0);
    assert_eq!(app.plan_for_weekday(2).map(|p| p.id), Some(10));
    assert!(app.plan_for_weekday(3).is_none());
    assert!(app.plan_for_weekday(usize::MAX).is_none());
}

#[test]
fn an_exercise_is_added_to_the_plan_of_the_weekday() {
    let mut app = app();
    app.manage.selected_day = 2;
    app.manage_confirm_add();
    assert!(app.take_requests().is_empty());
    app.manage_start_add();
    for ch in "press".chars() {
        app.manage_search_input(ch);
    }
    app.manage_search_input('x');
    assert!(app.manage.search_results.is_empty());
    app.manage_confirm_add();
    assert_eq!(app.status, "No exercise selected");
    app.manage_search_move(1);
    app.manage_search_backspace();
    app.manage_search_move(1);
    app.manage_search_move(1);
    assert_eq!(app.manage.search_cursor, 1);
    app.manage_confirm_add();
    assert_eq!(app.status, "Adding Overhead PRESS to Legs...");
    assert_eq!(app.manage.mode, ManageMode::Browse);
    match &app.take_requests()[..] {
        [Request::AddExerciseToPlan { template_id: 10, exercise_id: 3 }] => {}
        other => panic!("{:?}", other),
    }
    app.handle_response(Response::PlanUpdated(Ok(())), now());
    assert_eq!(app.status, "Plan updated");
    assert!(matches!(app.take_requests()[..], [Request::LoadPlans]));
    app.handle_response(Response::PlanUpdated(Err("no".to_string())), now());
    assert_eq!(app.status, "Update plan error: no");
}

#[test]
fn a_weekday_without_a_plan_gets_one_named_after_it() {
    let mut app = app();
    app.manage.selected_day = 6;
    app.manage_start_add();
    app.manage_confirm_add();
    assert_eq!(app.status, "Creating Sunday plan and adding Bench Press...");
    assert_eq!(app.manage.pending_exercise_id, Some(1));
    match &app.take_requests()[..] {
        [Request::CreatePlan { name, day_of_week: 6 }] => assert_eq!(name, "Sunday"),
        other => panic!("{:?}", other),
    }
    let created = Template { id: 11, name: "Sunday".to_string(), day_of_week: Some(6), exercises: Vec::new() };
    app.handle_response(Response::PlanCreated(Ok(created.clone())), now());
    assert_eq!(app.status, "Created plan: Sunday");
    assert_eq!(app.manage.pending_exercise_id, None);
    match &app.take_requests()[..] {
        [Request::AddExerciseToPlan { template_id: 11, exercise_id: 1 }, Request::LoadPlans] => {}
        other => panic!("{:?}", other),
    }
    app.handle_response(Response::PlanCreated(Ok(created)), now());
    assert!(matches!(app.take_requests()[..], [Request::LoadPlans]));
    app.manage.pending_exercise_id = Some(4);
    app.handle_response(Response::PlanCreated(Err("no".to_string())), now());
    assert_eq!(app.status, "Create plan error: no");
    assert_eq!(app.manage.pending_exercise_id, None);
    assert!(app.take_requests().is_empty());
}

#[test]
fn a_weekday_past_sunday_has_no_name() {
    let mut app = app();
    app.manage.selected_day = 7;
    app.manage_start_add();
    app.manage_confirm_add();
    assert_eq!(app.manage.mode, ManageMode::AddExercise);
    assert!(app.take_requests().is_empty());
    let names: Vec<&str> = (0..7).map(name_of_weekday).collect();
    assert_eq!(names, vec!["Monday", "Tuesday", "Wednesday", "Thursday", "Friday", "Saturday", "Sunday"]);
}

#[test]
fn an_exercise_is_taken_out_of_its_plan() {
    let mut app = app();
    app.manage.selected_day = 2;
    app.manage.selected_exercise = 1;
    app.manage_delete_exercise();
    assert_eq!(app.status, "Removing Bench Press from plan...");
    match &app.take_requests()[..] {
        [Request::RemoveExerciseFromPlan { template_id: 10, exercise_id: 1 }] => {}
        other => panic!("{:?}", other),
    }
    app.manage.selected_exercise = 2;
    app.manage_delete_exercise();
    app.manage.selected_day = 3;
    app.manage.selected_exercise = 0;
    app.manage_delete_exercise();
    app.manage.selected_day = 2;
    app.manage_start_add();
    app.manage_delete_exercise();
    assert!(app.take_requests().is_empty());
}

#[test]
fn a_new_catalogue_refreshes_the_open_views() {
    let mut app = app();
    app.manage_start_add();
    app.manage_search_input('s');
    assert_eq!(names(&app.manage.search_results), vec!["Bench Press", "Overhead PRESS", "Squat"]);
    app.handle_response(Response::Exercises(Ok(vec![exercise(9, "Snatch", false)])), now());
    assert_eq!(names(&app.manage.search_results), vec!["Snatch"]);
    assert!(app.exercise_edit.filtered.is_empty());
    app.manage_cancel_add();
    app.switch_to_exercises();
    app.handle_response(Response::Exercises(Ok(catalogue())), now());
    assert_eq!(app.exercise_edit.filtered.len(), 3);
    assert!(app.manage.search_results.is_empty());
    app.handle_response(Response::Exercises(Err("no".to_string())), now());
    assert_eq!(app.status, "Load exercises error: no");
    assert_eq!(app.all_exercises.len(), 4);
}
