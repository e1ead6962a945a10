//! Which key does what in which view.

use vstd::prelude::*;
use crate::app::{App, AppModel};
use crate::auth::{char_is_control, is_control, is_secret, AuthModel};
use crate::manage::{ExerciseEditMode, ManageMode};
use crate::screen;
use crate::time::{Day, Now};
use crate::weight::{accepts_weight_char, is_weight_char};

verus! {

/// How far one press of a weight key moves the weight, in thousandths.
pub const WEIGHT_STEP: i32 = 2_500;

/// A key of the keyboard, as far as the views tell keys apart.
#[derive(Debug, Clone, Copy, PartialEq, Eq, Structural)]
pub enum Key {
    Esc,
    Tab,
    BackTab,
    Enter,
    Backspace,
    Up,
    Down,
    Left,
    Right,
    F(u8),
    Char(char),
    Other,
}

/// A key pressed, with the modifier keys held down with it.
#[derive(Debug, Clone, Copy, PartialEq, Eq, Structural)]
pub struct KeyPress {
    pub key: Key,
    pub ctrl: bool,
    pub alt: bool,
    pub shift: bool,
}

impl AppModel {
    /// The state with the program told to end.
    pub open spec fn quit(self) -> AppModel {
        AppModel { running: false, ..self }
    }

    /// The state with the sign-in form replaced.
    pub open spec fn with_auth(self, auth: AuthModel) -> AppModel {
        AppModel { auth, ..self }
    }

    /// Whether a key in the sign-in form asks for a fresh secret: control
    /// with `g` does, and control with `r` where the form is signing in.
    pub open spec fn auth_key_draws(self, press: KeyPress) -> bool {
        press.ctrl && (press.key == Key::Char('g') || (press.key == Key::Char('r')
            && !self.auth.register_mode))
    }

    /// Whether a key asks for a fresh secret in the view on screen.
    pub open spec fn key_draws(self, press: KeyPress) -> bool {
        self.view == screen::View::Auth && self.auth_key_draws(press)
    }

    /// The state after a key in the sign-in form. `secret` is the secret
    /// that is held after a key that asks for a fresh one.
    pub open spec fn handle_auth_key(self, press: KeyPress, secret: Seq<char>) -> AppModel {
        match press.key {
            Key::Esc => self.quit(),
            Key::Tab => self.with_auth(self.auth.next_field()),
            Key::BackTab => self.with_auth(self.auth.prev_field()),
            Key::Enter => self.submit_auth(),
            Key::Backspace => self.with_auth(self.auth.backspace()),
            Key::Char(ch) => if press.ctrl && ch == 'l' {
                self.with_auth(self.auth.set_mode(false, secret))
            } else if press.ctrl && ch == 'r' {
                self.with_auth(self.auth.set_mode(true, secret))
            } else if press.ctrl && ch == 'g' {
                self.with_auth(self.auth.with_secret(secret))
            } else {
                self.with_auth(self.auth.push_char(ch))
            },
            _ => self,
        }
    }

    /// The state after a key in the workout at `now`, `today` being the day
    /// it is.
    pub open spec fn handle_workout_key(self, press: KeyPress, now: Now, today: Day) -> AppModel {
        match press.key {
            Key::Esc => self.quit(),
            Key::F(n) => if n == 2 {
                self.switch_to_manage()
            } else if n == 3 {
                self.switch_to_exercises()
            } else {
                self
            },
            Key::Up => self.toggle_focus(),
            Key::Down => self.toggle_focus(),
            Key::Left => self.move_set_cursor(-1),
            Key::Right => self.move_set_cursor(1),
            Key::Tab => self.tab_next(),
            Key::BackTab => self.tab_prev(),
            Key::Backspace => self.backspace(now),
            Key::Char(ch) => if ch == 'q' || (ch == 'c' && press.ctrl) {
                self.quit()
            } else if ch == 'a' {
                self.move_day(-1, now.utc)
            } else if ch == 's' {
                self.move_day(1, now.utc)
            } else if ch == 'r' {
                self.jump_to_today(today, now.utc)
            } else if ch == 'n' {
                self.select_exercise(1)
            } else if ch == 'e' {
                self.select_exercise(-1)
            } else if ch == 'w' {
                self.bump_weight(WEIGHT_STEP as int, now)
            } else if ch == 'f' {
                self.bump_weight(-WEIGHT_STEP, now)
            } else if ch == 'd' {
                self.delete_current_set()
            } else if is_weight_char(ch) {
                self.input_char(ch, now)
            } else {
                self
            },
            _ => self,
        }
    }

    /// The state after a key in the plans view.
    pub open spec fn handle_manage_key(self, press: KeyPress) -> AppModel {
        let adding = self.manage.mode == ManageMode::AddExercise;
        if press.key == Key::Esc {
            if adding {
                self.with_manage(self.manage.cancel_add())
            } else {
                self.quit()
            }
        } else if press.key == Key::F(1) {
            self.switch_to_workout()
        } else if press.key == Key::F(3) {
            self.switch_to_exercises()
        } else if press.key == Key::Char('q') && !adding {
            self.quit()
        } else if press.key == Key::Char('c') && press.ctrl {
            self.quit()
        } else if !adding {
            match press.key {
                Key::Char(ch) => if ch == 'n' {
                    self.manage_select_day(1)
                } else if ch == 'e' {
                    self.manage_select_day(-1)
                } else if ch == 'a' {
                    self.manage_start_add()
                } else if ch == 'd' {
                    self.manage_delete_exercise()
                } else {
                    self
                },
                Key::Down => self.manage_select_exercise(1),
                Key::Up => self.manage_select_exercise(-1),
                _ => self,
            }
        } else {
            match press.key {
                Key::Down => self.manage_search_move(1),
                Key::Up => self.manage_search_move(-1),
                Key::Enter => self.manage_confirm_add(),
                Key::Backspace => if self.manage.search_query.len() == 0 {
                    self.with_manage(self.manage.cancel_add())
                } else {
                    self.manage_search_backspace()
                },
                Key::Char(ch) => if is_control(ch) {
                    self
                } else {
                    self.manage_search_input(ch)
                },
                _ => self,
            }
        }
    }

    /// The state after a key in the catalogue view.
    pub open spec fn handle_exercises_key(self, press: KeyPress) -> AppModel {
        let browsing = self.exercise_edit.mode == ExerciseEditMode::Browse;
        if press.key == Key::Esc {
            if browsing {
                self.quit()
            } else {
                self.with_edit(self.exercise_edit.cancel())
            }
        } else if press.key == Key::F(1) {
            self.switch_to_workout()
        } else if press.key == Key::F(2) {
            self.switch_to_manage()
        } else if press.key == Key::Char('q') && browsing {
            self.quit()
        } else if press.key == Key::Char('c') && press.ctrl {
            self.quit()
        } else if browsing {
            match press.key {
                Key::Down => self.exercise_select(1),
                Key::Up => self.exercise_select(-1),
                Key::Char(ch) => if ch == 'n' {
                    self.exercise_select(1)
                } else if ch == 'e' {
                    self.exercise_select(-1)
                } else if ch == 'a' {
                    self.with_edit(self.exercise_edit.start_add())
                } else if ch == 'r' {
                    self.with_edit(self.exercise_edit.start_rename())
                } else if ch == 'x' {
                    self.exercise_archive()
                } else if ch == 'h' {
                    self.exercise_toggle_archived()
                } else {
                    self
                },
                _ => self,
            }
        } else {
            match press.key {
                Key::Enter => self.exercise_confirm(),
                Key::Backspace => if self.exercise_edit.input.len() == 0 {
                    self.with_edit(self.exercise_edit.cancel())
                } else {
                    self.exercise_backspace()
                },
                Key::Char(ch) => if is_control(ch) {
                    self
                } else {
                    self.exercise_input(ch)
                },
                _ => self,
            }
        }
    }

    /// The state after a key at `now`, in whatever view is on screen.
    pub open spec fn handle_key(
        self,
        press: KeyPress,
        now: Now,
        today: Day,
        secret: Seq<char>,
    ) -> AppModel {
        match self.view {
            screen::View::Auth => self.handle_auth_key(press, secret),
            screen::View::Workout => self.handle_workout_key(press, now, today),
            screen::View::Manage => self.handle_manage_key(press),
            screen::View::Exercises => self.handle_exercises_key(press),
        }
    }
}

impl App {
    /// Tells the program to end.
    pub fn quit(&mut self)
        ensures
            final(self)@ == old(self)@.quit(),
            old(self)@.wf() ==> final(self)@.wf(),
    {
        self.running = false;
    }

    /// Takes a key in the sign-in form, and tells whether the key was
    /// served: it was not only where it asked for a fresh secret and the
    /// system gave no randomness.
    pub fn handle_auth_key(&mut self, press: KeyPress) -> (served: bool)
        ensures
            final(self)@ == old(self)@.handle_auth_key(press, final(self)@.auth.totp_secret),
            served || old(self)@.auth_key_draws(press),
            served && old(self)@.auth_key_draws(press) ==> is_secret(
                final(self)@.auth.totp_secret,
            ),
            !served ==> final(self)@.auth.totp_secret == old(self)@.auth.totp_secret,
            old(self)@.wf() ==> final(self)@.wf(),
    {
        match press.key {
            Key::Esc => {
                self.quit();
                true
            },
            Key::Tab => {
                self.auth.next_field();
                true
            },
            Key::BackTab => {
                self.auth.prev_field();
                true
            },
            Key::Enter => {
                self.submit_auth();
                true
            },
            Key::Backspace => {
                self.auth.backspace();
                true
            },
            Key::Char(ch) => {
                if press.ctrl && ch == 'l' {
                    self.set_auth_mode(false)
                } else if press.ctrl && ch == 'r' {
                    self.set_auth_mode(true)
                } else if press.ctrl && ch == 'g' {
                    self.auth.regenerate_secret()
                } else {
                    self.auth.push_char(ch);
                    true
                }
            },
            _ => true,
        }
    }

    /// Takes a key in the workout at `now`, `today` being the day it is.
    pub fn handle_workout_key(&mut self, press: KeyPress, now: Now, today: Day)
        ensures
            final(self)@ == old(self)@.handle_workout_key(press, now, today),
            old(self)@.wf() ==> final(self)@.wf(),
    {
        match press.key {
            Key::Esc => self.quit(),
            Key::F(n) => {
                if n == 2 {
                    self.switch_to_manage();
                } else if n == 3 {
                    self.switch_to_exercises();
                }
            },
            Key::Up => self.toggle_focus(),
            Key::Down => self.toggle_focus(),
            Key::Left => self.move_set_cursor(-1),
            Key::Right => self.move_set_cursor(1),
            Key::Tab => self.tab_next(),
            Key::BackTab => self.tab_prev(),
            Key::Backspace => self.backspace(now),
            Key::Char(ch) => {
                if ch == 'q' || (ch == 'c' && press.ctrl) {
                    self.quit();
                } else if ch == 'a' {
                    self.move_day(-1, now);
                } else if ch == 's' {
                    self.move_day(1, now);
                } else if ch == 'r' {
                    self.jump_to_today(today, now);
                } else if ch == 'n' {
                    self.select_exercise(1);
                } else if ch == 'e' {
                    self.select_exercise(-1);
                } else if ch == 'w' {
                    self.bump_weight(WEIGHT_STEP, now);
                } else if ch == 'f' {
                    self.bump_weight(-WEIGHT_STEP, now);
                } else if ch == 'd' {
                    self.delete_current_set();
                } else if accepts_weight_char(ch) {
                    self.input_char(ch, now);
                }
            },
            _ => {},
        }
    }

    /// Takes a key in the plans view.
    pub fn handle_manage_key(&mut self, press: KeyPress)
        ensures
            final(self)@ == old(self)@.handle_manage_key(press),
            old(self)@.wf() ==> final(self)@.wf(),
    {
        let adding = self.manage.mode == ManageMode::AddExercise;
        match press.key {
            Key::Esc => {
                if adding {
                    self.manage_cancel_add();
                } else {
                    self.quit();
                }
                return ;
            },
            Key::F(n) => {
                if n == 1 {
                    self.switch_to_workout();
                    return ;
                } else if n == 3 {
                    self.switch_to_exercises();
                    return ;
                }
            },
            Key::Char(ch) => {
                if (ch == 'q' && !adding) || (ch == 'c' && press.ctrl) {
                    self.quit();
                    return ;
                }
            },
            _ => {},
        }
        if !adding {
            match press.key {
                Key::Char(ch) => {
                    if ch == 'n' {
                        self.manage_select_day(1);
                    } else if ch == 'e' {
                        self.manage_select_day(-1);
                    } else if ch == 'a' {
                        self.manage_start_add();
                    } else if ch == 'd' {
                        self.manage_delete_exercise();
                    }
                },
                Key::Down => self.manage_select_exercise(1),
                Key::Up => self.manage_select_exercise(-1),
                _ => {},
            }
        } else {
            match press.key {
                Key::Down => self.manage_search_move(1),
                Key::Up => self.manage_search_move(-1),
                Key::Enter => self.manage_confirm_add(),
                Key::Backspace => {
                    if self.manage.search_query.as_str().unicode_len() == 0 {
                        self.manage_cancel_add();
                    } else {
                        self.manage_search_backspace();
                    }
                },
                Key::Char(ch) => {
                    if !char_is_control(ch) {
                        self.manage_search_input(ch);
                    }
                },
                _ => {},
            }
        }
    }

    /// Takes a key in the catalogue view.
    pub fn handle_exercises_key(&mut self, press: KeyPress)
        ensures
            final(self)@ == old(self)@.handle_exercises_key(press),
            old(self)@.wf() ==> final(self)@.wf(),
    {
        let browsing = self.exercise_edit.mode == ExerciseEditMode::Browse;
        match press.key {
            Key::Esc => {
                if browsing {
                    self.quit();
                } else {
                    self.exercise_cancel();
                }
                return ;
            },
            Key::F(n) => {
                if n == 1 {
                    self.switch_to_workout();
                    return ;
                } else if n == 2 {
                    self.switch_to_manage();
                    return ;
                }
            },
            Key::Char(ch) => {
                if (ch == 'q' && browsing) || (ch == 'c' && press.ctrl) {
                    self.quit();
                    return ;
                }
            },
            _ => {},
        }
        if browsing {
            match press.key {
                Key::Down => self.exercise_select(1),
                Key::Up => self.exercise_select(-1),
                Key::Char(ch) => {
                    if ch == 'n' {
                        self.exercise_select(1);
                    } else if ch == 'e' {
                        self.exercise_select(-1);
                    } else if ch == 'a' {
                        self.exercise_start_add();
                    } else if ch == 'r' {
                        self.exercise_start_rename();
                    } else if ch == 'x' {
                        self.exercise_archive();
                    } else if ch == 'h' {
                        self.exercise_toggle_archived();
                    }
                },
                _ => {},
            }
        } else {
            match press.key {
                Key::Enter => self.exercise_confirm(),
                Key::Backspace => {
                    if self.exercise_edit.input.as_str().unicode_len() == 0 {
                        self.exercise_cancel();
                    } else {
                        self.exercise_backspace();
                    }
                },
                Key::Char(ch) => {
                    if !char_is_control(ch) {
                        self.exercise_input(ch);
                    }
                },
                _ => {},
            }
        }
    }

    /// Takes a key at `now` in whatever view is on screen, `today` being the
    /// day it is, and tells whether the key was served: it was not only
    /// where it asked for a fresh secret and the system gave no randomness.
    pub fn handle_key(&mut self, press: KeyPress, now: Now, today: Day) -> (served: bool)
        ensures
            final(self)@ == old(self)@.handle_key(
                press,
                now,
                today,
                final(self)@.auth.totp_secret,
            ),
            served || old(self)@.key_draws(press),
            served && old(self)@.key_draws(press) ==> is_secret(final(self)@.auth.totp_secret),
            !served ==> final(self)@.auth.totp_secret == old(self)@.auth.totp_secret,
            old(self)@.wf() ==> final(self)@.wf(),
    {
        match self.view {
            screen::View::Auth => self.handle_auth_key(press),
            screen::View::Workout => {
                self.handle_workout_key(press, now, today);
                true
            },
            screen::View::Manage => {
                self.handle_manage_key(press);
                true
            },
            screen::View::Exercises => {
                self.handle_exercises_key(press);
                true
            },
        }
    }
}

} // verus!
