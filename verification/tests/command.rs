use ekman::command::{same_text, Command};
use std::str::FromStr;

fn named() -> Vec<(Command, &'static str)> {
    vec![
        (Command::Quit, "quit"),
        (Command::NextExercise, "next-exercise"),
        (Command::PrevExercise, "prev-exercise"),
        (Command::NextDay, "next-day"),
        (Command::PrevDay, "prev-day"),
        (Command::Today, "today"),
        (Command::NextField, "next-field"),
        (Command::PrevField, "prev-field"),
        (Command::MoveLeft, "move-left"),
        (Command::MoveRight, "move-right"),
        (Command::NextSet, "next-set"),
        (Command::PrevSet, "prev-set"),
        (Command::BumpWeightUp, "bump-weight-up"),
        (Command::BumpWeightDown, "bump-weight-down"),
        (Command::DeleteSet, "delete-set"),
        (Command::Backspace, "backspace"),
    ]
}

#[test]
fn every_command_has_its_name() {
    for (command, name) in named() {
        assert_eq!(command.name(), name);
    }
    assert_eq!(Command::Digit('7').name(), "digit");
    assert_eq!(Command::Digit('.').name(), "digit");
}

#[test]
fn a_name_gives_its_command_back() {
    for (command, name) in named() {
        assert_eq!(Command::from_name(name), Some(command));
        assert_eq!(Command::from_str(name), Ok(command));
        assert_eq!(Command::from_name(command.name()), Some(command));
    }
}

#[test]
fn what_is_no_name_gives_no_command() {
    for name in ["", "digit", "Quit", "quit ", "next", "delete_set", "7"] {
        assert_eq!(Command::from_name(name), None);
        assert_eq!(Command::from_str(name), Err(()));
    }
}

#[test]
fn texts_are_the_same_character_for_character() {
    assert!(same_text("", ""));
    assert!(same_text("quit", "quit"));
    assert!(!same_text("quit", "quiT"));
    assert!(!same_text("quit", "qui"));
}
