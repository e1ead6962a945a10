//! The commands a key can be bound to, and their names.

use vstd::prelude::*;
use vstd::string::*;

verus! {

/// What the application can be told to do.
#[derive(Debug, Clone, Copy, PartialEq, Eq, Hash, Structural)]
pub enum Command {
    Quit,
    NextExercise,
    PrevExercise,
    NextDay,
    PrevDay,
    Today,
    NextField,
    PrevField,
    MoveLeft,
    MoveRight,
    NextSet,
    PrevSet,
    BumpWeightUp,
    BumpWeightDown,
    DeleteSet,
    Digit(char),
    Backspace,
}

/// The name of a command. Every digit has the same name, `digit`.
pub open spec fn command_name(c: Command) -> Seq<char> {
    match c {
        Command::Quit => "quit"@,
        Command::NextExercise => "next-exercise"@,
        Command::PrevExercise => "prev-exercise"@,
        Command::NextDay => "next-day"@,
        Command::PrevDay => "prev-day"@,
        Command::Today => "today"@,
        Command::NextField => "next-field"@,
        Command::PrevField => "prev-field"@,
        Command::MoveLeft => "move-left"@,
        Command::MoveRight => "move-right"@,
        Command::NextSet => "next-set"@,
        Command::PrevSet => "prev-set"@,
        Command::BumpWeightUp => "bump-weight-up"@,
        Command::BumpWeightDown => "bump-weight-down"@,
        Command::DeleteSet => "delete-set"@,
        Command::Digit(_) => "digit"@,
        Command::Backspace => "backspace"@,
    }
}

/// The command that a name stands for. A digit carries its character and
/// has no name to be told by.
pub open spec fn command_named(s: Seq<char>) -> Option<Command> {
    if s == "quit"@ {
        Some(Command::Quit)
    } else if s == "next-exercise"@ {
        Some(Command::NextExercise)
    } else if s == "prev-exercise"@ {
        Some(Command::PrevExercise)
    } else if s == "next-day"@ {
        Some(Command::NextDay)
    } else if s == "prev-day"@ {
        Some(Command::PrevDay)
    } else if s == "today"@ {
        Some(Command::Today)
    } else if s == "next-field"@ {
        Some(Command::NextField)
    } else if s == "prev-field"@ {
        Some(Command::PrevField)
    } else if s == "move-left"@ {
        Some(Command::MoveLeft)
    } else if s == "move-right"@ {
        Some(Command::MoveRight)
    } else if s == "next-set"@ {
        Some(Command::NextSet)
    } else if s == "prev-set"@ {
        Some(Command::PrevSet)
    } else if s == "bump-weight-up"@ {
        Some(Command::BumpWeightUp)
    } else if s == "bump-weight-down"@ {
        Some(Command::BumpWeightDown)
    } else if s == "delete-set"@ {
        Some(Command::DeleteSet)
    } else if s == "backspace"@ {
        Some(Command::Backspace)
    } else {
        None
    }
}

/// Whether two texts are the same, character for character.
pub fn same_text(a: &str, b: &str) -> (r: bool)
    ensures
        r == (a@ == b@),
{
    let x = String::from_str(a);
    let y = String::from_str(b);
    x == y
}

impl Command {
    /// The name of the command.
    pub fn name(self) -> (r: &'static str)
        ensures
            r@ == command_name(self),
    {
        match self {
            Command::Quit => "quit",
            Command::NextExercise => "next-exercise",
            Command::PrevExercise => "prev-exercise",
            Command::NextDay => "next-day",
            Command::PrevDay => "prev-day",
            Command::Today => "today",
            Command::NextField => "next-field",
            Command::PrevField => "prev-field",
            Command::MoveLeft => "move-left",
            Command::MoveRight => "move-right",
            Command::NextSet => "next-set",
            Command::PrevSet => "prev-set",
            Command::BumpWeightUp => "bump-weight-up",
            Command::BumpWeightDown => "bump-weight-down",
            Command::DeleteSet => "delete-set",
            Command::Digit(_) => "digit",
            Command::Backspace => "backspace",
        }
    }

    /// The command that a name stands for.
    pub fn from_name(s: &str) -> (r: Option<Command>)
        ensures
            r == command_named(s@),
    {
        if same_text(s, "quit") {
            Some(Command::Quit)
        } else if same_text(s, "next-exercise") {
            Some(Command::NextExercise)
        } else if same_text(s, "prev-exercise") {
            Some(Command::PrevExercise)
        } else if same_text(s, "next-day") {
            Some(Command::NextDay)
        } else if same_text(s, "prev-day") {
            Some(Command::PrevDay)
        } else if same_text(s, "today") {
            Some(Command::Today)
        } else if same_text(s, "next-field") {
            Some(Command::NextField)
        } else if same_text(s, "prev-field") {
            Some(Command::PrevField)
        } else if same_text(s, "move-left") {
            Some(Command::MoveLeft)
        } else if same_text(s, "move-right") {
            Some(Command::MoveRight)
        } else if same_text(s, "next-set") {
            Some(Command::NextSet)
        } else if same_text(s, "prev-set") {
            Some(Command::PrevSet)
        } else if same_text(s, "bump-weight-up") {
            Some(Command::BumpWeightUp)
        } else if same_text(s, "bump-weight-down") {
            Some(Command::BumpWeightDown)
        } else if same_text(s, "delete-set") {
            Some(Command::DeleteSet)
        } else if same_text(s, "backspace") {
            Some(Command::Backspace)
        } else {
            None
        }
    }
}

impl core::str::FromStr for Command {
    type Err = ();

    fn from_str(s: &str) -> (r: Result<Command, ()>)
        ensures
            r == named_or_refused(s@),
    {
        match Command::from_name(s) {
            Some(c) => Ok(c),
            None => Err(()),
        }
    }
}

/// The command that a name stands for, or the refusal of a text that names
/// none.
pub open spec fn named_or_refused(s: Seq<char>) -> Result<Command, ()> {
    match command_named(s) {
        Some(c) => Ok(c),
        None => Err(()),
    }
}

} // verus!
