use chrono::{Datelike, NaiveDate};
use ekman::api::{Request, Response};
use ekman::app::App;
use ekman::auth::{AuthField, AuthState};
use ekman::focus::Focus;
use ekman::keys::{Key, KeyPress, WEIGHT_STEP};
use ekman::manage::{ExerciseEditMode, ManageMode};
use ekman::models::{Exercise, Owner, Template, TemplateExercise};
use ekman::screen::View;
use ekman::time::{Day, Now, Timestamp};

const SECOND: u64 = 1_000_000_000;

fn day(y: i32, m: u32, d: u32) -> Day {
    Day::from_number(NaiveDate::from_ymd_opt(y, m, d).unwrap().num_days_from_ce()).unwrap()
}

fn at(tick: u64) -> Now {
    Now { tick, utc: Timestamp { secs: 1_717_240_000 + (tick / SECOND) as i64, nanos: 0 }, offset: 0 }
}

fn plain(key: Key) -> KeyPress {
    KeyPress { key, ctrl: false, alt: false, shift: false }
}

fn ctrl(ch: char) -> KeyPress {
    KeyPress { key: Key::Char(ch), ctrl: true, alt: false, shift: false }
}

fn app() -> App {
    let mut app = App::with_auth(day(2024, 6, 1), AuthState::with_secret("S".to_string()));
    let entry = |id: i64, name: &str| TemplateExercise {
        exercise_id: id,
        name: name.to_string(),
        target_sets: None,
        last_session: None,
    };
    app.handle_response(
        Response::Plans(Ok(vec![Template {
            id: 2,
            name: "Legs".to_string(),
            day_of_week: None,
            exercises: vec![entry(7, "Squat"), entry(8, "Lunge")],
        }])),
        at(0),
    );
    app.handle_response(
        Response::Exercises(Ok(vec![Exercise {
            id: 7,
            name: "Squat".to_string(),
            description: None,
            archived: false,
            owner: Owner::Admin,
        }])),
        at(0),
    );
    app.take_requests();
    app
}

fn press(app: &mut App, key: KeyPress, tick: u64) {
    assert!(app.handle_key(key, at(tick), day(2024, 6, 3)));
}

#[test]
fn the_form_takes_its_keys() {
    let mut app = app();
    assert_eq!(app.view, View::Auth);
    for ch in "bob".chars() {
        press(&mut app, plain(Key::Char(ch)), 0);
    }
    press(&mut app, plain(Key::Char('q')), 0);
    press(&mut app, plain(Key::Backspace), 0);
    assert_eq!(app.auth.username, "bob");
    press(&mut app, plain(Key::Tab), 0);
    assert_eq!(app.auth.field, AuthField::Password);
    press(&mut app, plain(Key::BackTab), 0);
    assert_eq!(app.auth.field, AuthField::Username);
    press(&mut app, plain(Key::Enter), 0);
    assert_eq!(app.auth.status, "Password required");
    press(&mut app, ctrl('l'), 0);
    assert!(!app.auth.register_mode);
    assert_eq!(app.auth.totp_secret, "S");
    press(&mut app, plain(Key::Char('l')), 0);
    assert_eq!(app.auth.username, "bobl");
    press(&mut app, ctrl('g'), 0);
    assert_ne!(app.auth.totp_secret, "S");
    let drawn = app.auth.totp_secret.clone();
    press(&mut app, ctrl('r'), 0);
    assert!(app.auth.register_mode);
    assert_ne!(app.auth.totp_secret, drawn);
    press(&mut app, plain(Key::F(2)), 0);
    press(&mut app, plain(Key::Up), 0);
    assert_eq!(app.view, View::Auth);
    assert!(app.running);
    press(&mut app, plain(Key::Esc), 0);
    assert!(!app.running);
}

#[test]
fn the_workout_takes_its_keys() {
    let mut app = app();
    app.switch_to_workout();
    press(&mut app, plain(Key::Char('6')), SECOND);
    press(&mut app, plain(Key::Char('0')), SECOND + 1);
    press(&mut app, plain(Key::Char('.')), SECOND + 2);
    press(&mut app, plain(Key::Char('5')), SECOND + 3);
    assert_eq!(app.exercises[0].sets[0].weight.buffer, "60.5");
    press(&mut app, plain(Key::Backspace), SECOND + 4);
    press(&mut app, plain(Key::Backspace), SECOND + 4);
    assert_eq!(app.exercises[0].sets[0].weight.buffer, "60");
    press(&mut app, plain(Key::Char('w')), 0);
    assert_eq!(app.exercises[0].sets[0].weight.buffer, "62.5");
    press(&mut app, plain(Key::Char('f')), 0);
    press(&mut app, plain(Key::Char('f')), 0);
    assert_eq!(app.exercises[0].sets[0].weight.buffer, "57.5");
    assert_eq!(WEIGHT_STEP, 2_500);
    press(&mut app, plain(Key::Down), 0);
    assert_eq!(app.exercises[0].focus, Focus::Reps);
    press(&mut app, plain(Key::Up), 0);
    assert_eq!(app.exercises[0].focus, Focus::Weight);
    press(&mut app, plain(Key::Tab), 0);
    press(&mut app, plain(Key::Char('.')), 5 * SECOND);
    press(&mut app, plain(Key::Char('8')), 5 * SECOND);
    assert_eq!(app.exercises[0].sets[0].reps, Some(8));
    assert_eq!(app.exercises[0].cursor, 1);
    press(&mut app, plain(Key::Left), 0);
    assert_eq!(app.exercises[0].cursor, 0);
    press(&mut app, plain(Key::Right), 0);
    press(&mut app, plain(Key::Right), 0);
    assert_eq!(app.exercises[0].cursor, 1);
    press(&mut app, plain(Key::BackTab), 0);
    assert_eq!((app.exercises[0].cursor, app.exercises[0].focus), (1, Focus::Weight));
    press(&mut app, plain(Key::Char('d')), 0);
    assert_eq!(app.exercises[0].sets.len(), 1);
    press(&mut app, plain(Key::Char('n')), 0);
    assert_eq!(app.selected, 1);
    press(&mut app, plain(Key::Char('e')), 0);
    assert_eq!(app.selected, 0);
    press(&mut app, plain(Key::Char('s')), 0);
    assert_eq!(app.day, day(2024, 6, 2));
    press(&mut app, plain(Key::Char('a')), 0);
    press(&mut app, plain(Key::Char('a')), 0);
    assert_eq!(app.day, day(2024, 5, 31));
    press(&mut app, plain(Key::Char('r')), 0);
    assert_eq!(app.day, day(2024, 6, 3));
    press(&mut app, plain(Key::Char('x')), 0);
    press(&mut app, plain(Key::Enter), 0);
    press(&mut app, plain(Key::F(1)), 0);
    press(&mut app, plain(Key::Other), 0);
    assert_eq!(app.view, View::Workout);
    press(&mut app, plain(Key::F(2)), 0);
    assert_eq!(app.view, View::Manage);
    app.switch_to_workout();
    press(&mut app, plain(Key::F(3)), 0);
    assert_eq!(app.view, View::Exercises);
    for quit in [plain(Key::Esc), plain(Key::Char('q')), ctrl('c'), ctrl('q')] {
        app.switch_to_workout();
        app.running = true;
        press(&mut app, quit, 0);
        assert!(!app.running);
    }
    app.running = true;
    press(&mut app, plain(Key::Char('c')), 0);
    assert!(app.running);
}

#[test]
fn the_plans_view_takes_its_keys() {
    let mut app = app();
    app.switch_to_manage();
    app.take_requests();
    press(&mut app, plain(Key::Char('n')), 0);
    assert_eq!(app.manage.selected_day, 1);
    press(&mut app, plain(Key::Char('e')), 0);
    press(&mut app, plain(Key::Char('e')), 0);
    assert_eq!(app.manage.selected_day, 6);
    press(&mut app, plain(Key::Down), 0);
    press(&mut app, plain(Key::Up), 0);
    press(&mut app, plain(Key::Char('d')), 0);
    press(&mut app, plain(Key::Enter), 0);
    assert!(app.take_requests().is_empty());
    press(&mut app, plain(Key::Char('a')), 0);
    assert_eq!(app.manage.mode, ManageMode::AddExercise);
    for ch in "sq\tq".chars() {
        press(&mut app, plain(Key::Char(ch)), 0);
    }
    assert_eq!(app.manage.search_query, "sqq");
    assert!(app.running);
    press(&mut app, plain(Key::Backspace), 0);
    assert_eq!(app.manage.search_results.len(), 1);
    press(&mut app, plain(Key::Down), 0);
    press(&mut app, plain(Key::Up), 0);
    press(&mut app, plain(Key::Enter), 0);
    assert_eq!(app.status, "Creating Sunday plan and adding Squat...");
    assert_eq!(app.manage.mode, ManageMode::Browse);
    assert!(matches!(app.take_requests()[..], [Request::CreatePlan { .. }]));
    press(&mut app, plain(Key::Char('a')), 0);
    press(&mut app, plain(Key::Backspace), 0);
    assert_eq!(app.manage.mode, ManageMode::Browse);
    press(&mut app, plain(Key::Char('a')), 0);
    press(&mut app, plain(Key::Esc), 0);
    assert_eq!(app.manage.mode, ManageMode::Browse);
    assert!(app.running);
    press(&mut app, plain(Key::F(2)), 0);
    assert_eq!(app.view, View::Manage);
    press(&mut app, plain(Key::F(3)), 0);
    assert_eq!(app.view, View::Exercises);
    app.switch_to_manage();
    press(&mut app, plain(Key::F(1)), 0);
    assert_eq!(app.view, View::Workout);
    for quit in [plain(Key::Esc), plain(Key::Char('q')), ctrl('c')] {
        app.switch_to_manage();
        app.running = true;
        press(&mut app, quit, 0);
        assert!(!app.running);
    }
    app.running = true;
    app.switch_to_manage();
    press(&mut app, plain(Key::Char('a')), 0);
    press(&mut app, ctrl('c'), 0);
    assert!(!app.running);
}

#[test]
fn the_catalogue_view_takes_its_keys() {
    let mut app = app();
    app.switch_to_exercises();
    app.take_requests();
    press(&mut app, plain(Key::Char('n')), 0);
    press(&mut app, plain(Key::Down), 0);
    press(&mut app, plain(Key::Char('e')), 0);
    press(&mut app, plain(Key::Up), 0);
    assert_eq!(app.exercise_edit.selected, 0);
    press(&mut app, plain(Key::Char('h')), 0);
    assert!(app.exercise_edit.show_archived);
    press(&mut app, plain(Key::Char('x')), 0);
    assert!(matches!(app.take_requests()[..], [Request::UpdateExercise { id: 7, .. }]));
    press(&mut app, plain(Key::Char('r')), 0);
    assert_eq!(app.exercise_edit.mode, ExerciseEditMode::Rename);
    assert_eq!(app.exercise_edit.input, "Squat");
    press(&mut app, plain(Key::Char('s')), 0);
    press(&mut app, plain(Key::Char('q')), 0);
    press(&mut app, plain(Key::Char('\u{7}')), 0);
    press(&mut app, plain(Key::Backspace), 0);
    assert_eq!(app.exercise_edit.input, "Squats");
    assert!(app.running);
    press(&mut app, plain(Key::Enter), 0);
    assert_eq!(app.status, "Renaming to: Squats...");
    press(&mut app, plain(Key::Esc), 0);
    assert_eq!(app.exercise_edit.mode, ExerciseEditMode::Browse);
    assert!(app.running);
    press(&mut app, plain(Key::Char('a')), 0);
    assert_eq!(app.exercise_edit.mode, ExerciseEditMode::Add);
    press(&mut app, plain(Key::Backspace), 0);
    assert_eq!(app.exercise_edit.mode, ExerciseEditMode::Browse);
    press(&mut app, plain(Key::F(3)), 0);
    assert_eq!(app.view, View::Exercises);
    press(&mut app, plain(Key::F(2)), 0);
    assert_eq!(app.view, View::Manage);
    app.switch_to_exercises();
    press(&mut app, plain(Key::F(1)), 0);
    assert_eq!(app.view, View::Workout);
    for quit in [plain(Key::Esc), plain(Key::Char('q')), ctrl('c')] {
        app.switch_to_exercises();
        app.running = true;
        press(&mut app, quit, 0);
        assert!(!app.running);
    }
}
