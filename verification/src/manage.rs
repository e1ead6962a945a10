//! The two side views: the weekly plans with their exercise search, and the
//! catalogue of exercises with its name entry.

use vstd::prelude::*;
use vstd::string::*;
use crate::exercise::clamp_cursor;
use crate::models::Exercise;
use crate::text::{contains_text, is_infix, lowercase_text, to_lowercase};

verus! {

/// What the plans view is doing.
#[derive(Debug, Clone, Copy, PartialEq, Eq, Structural)]
pub enum ManageMode {
    Browse,
    AddExercise,
}

/// What the catalogue view is doing.
#[derive(Debug, Clone, Copy, PartialEq, Eq, Structural)]
pub enum ExerciseEditMode {
    Browse,
    Add,
    Rename,
}

/// The plans view: the weekday and exercise selected, and the search for
/// an exercise to add.
pub struct ManageState {
    pub mode: ManageMode,
    pub selected_day: usize,
    pub selected_exercise: usize,
    pub search_query: String,
    pub search_results: Vec<Exercise>,
    pub search_cursor: usize,
    pub pending_exercise_id: Option<i64>,
}

/// What a [`ManageState`] holds, as mathematics.
pub ghost struct ManageModel {
    pub mode: ManageMode,
    pub selected_day: nat,
    pub selected_exercise: nat,
    pub search_query: Seq<char>,
    pub search_results: Seq<Exercise>,
    pub search_cursor: nat,
    pub pending_exercise_id: Option<i64>,
}

impl View for ManageState {
    type V = ManageModel;

    open spec fn view(&self) -> ManageModel {
        ManageModel {
            mode: self.mode,
            selected_day: self.selected_day as nat,
            selected_exercise: self.selected_exercise as nat,
            search_query: self.search_query@,
            search_results: self.search_results@,
            search_cursor: self.search_cursor as nat,
            pending_exercise_id: self.pending_exercise_id,
        }
    }
}

/// Whether the search for `query`, already in lower case, finds the
/// exercise: it is not archived, and its name in lower case holds the query.
pub open spec fn search_finds(query: Seq<char>, e: Exercise) -> bool {
    !e.archived && (query.len() == 0 || is_infix(query, lowercase_text(e.name@)))
}

impl ManageModel {
    /// The view as it starts.
    pub open spec fn fresh() -> ManageModel {
        ManageModel {
            mode: ManageMode::Browse,
            selected_day: 0,
            selected_exercise: 0,
            search_query: Seq::empty(),
            search_results: Seq::empty(),
            search_cursor: 0,
            pending_exercise_id: None,
        }
    }

    /// The view as the search for an exercise opens.
    pub open spec fn start_add(self) -> ManageModel {
        ManageModel {
            mode: ManageMode::AddExercise,
            search_query: Seq::empty(),
            search_results: Seq::empty(),
            search_cursor: 0,
            ..self
        }
    }

    /// The view as the search closes.
    pub open spec fn cancel_add(self) -> ManageModel {
        ManageModel {
            mode: ManageMode::Browse,
            search_query: Seq::empty(),
            search_results: Seq::empty(),
            ..self
        }
    }

    /// The view after the search ran over `exercises`: the results are the
    /// exercises found, in the order given, and the cursor is kept on them.
    pub open spec fn update_search(self, exercises: Seq<Exercise>) -> ManageModel {
        let query = lowercase_text(self.search_query);
        let results = exercises.filter(|e: Exercise| search_finds(query, e));
        ManageModel {
            search_results: results,
            search_cursor: clamp_cursor(self.search_cursor, results.len()),
            ..self
        }
    }
}

impl ManageState {
    /// The view as it starts.
    pub fn new() -> (r: ManageState)
        ensures
            r@ == ManageModel::fresh(),
    {
        ManageState {
            mode: ManageMode::Browse,
            selected_day: 0,
            selected_exercise: 0,
            search_query: String::new(),
            search_results: Vec::new(),
            search_cursor: 0,
            pending_exercise_id: None,
        }
    }

    /// Opens the search for an exercise to add.
    pub fn start_add(&mut self)
        ensures
            final(self)@ == old(self)@.start_add(),
    {
        self.mode = ManageMode::AddExercise;
        self.search_query = String::new();
        self.search_results = Vec::new();
        self.search_cursor = 0;
    }

    /// Closes the search.
    pub fn cancel_add(&mut self)
        ensures
            final(self)@ == old(self)@.cancel_add(),
    {
        self.mode = ManageMode::Browse;
        self.search_query = String::new();
        self.search_results = Vec::new();
    }

    /// Runs the search over `exercises`.
    pub fn update_search(&mut self, exercises: &[Exercise])
        ensures
            final(self)@ == old(self)@.update_search(exercises@),
    {
        let query = to_lowercase(self.search_query.as_str());
        let blank = query.as_str().unicode_len() == 0;
        let ghost finds = |e: Exercise| search_finds(query@, e);
        let mut results: Vec<Exercise> = Vec::new();
        let n = exercises.len();
        let mut i: usize = 0;
        while i < n
            invariant
                i <= n,
                n == exercises.len(),
                blank == (query@.len() == 0),
                finds == (|e: Exercise| search_finds(query@, e)),
                results@ == exercises@.take(i as int).filter(finds),
            decreases n - i,
        {
            let ghost next = exercises@.take(i + 1);
            assert(next.drop_last() =~= exercises@.take(i as int));
            let e = &exercises[i];
            assert(next.filter(finds) == if finds(*e) {
                next.drop_last().filter(finds).push(*e)
            } else {
                next.drop_last().filter(finds)
            }) by {
                reveal(Seq::filter);
            }
            if !e.archived && (blank || contains_text(
                to_lowercase(e.name.as_str()).as_str(),
                query.as_str(),
            )) {
                results.push(e.duplicate());
            }
            i = i + 1;
        }
        assert(exercises@.take(n as int) =~= exercises@);
        let len = results.len();
        self.search_results = results;
        if len == 0 {
            self.search_cursor = 0;
        } else if self.search_cursor >= len {
            self.search_cursor = len - 1;
        }
    }
}

/// The catalogue view: the exercise selected among those shown, and the
/// name being typed.
pub struct ExerciseEditState {
    pub mode: ExerciseEditMode,
    pub selected: usize,
    pub show_archived: bool,
    pub input: String,
    pub filtered: Vec<Exercise>,
}

/// What an [`ExerciseEditState`] holds, as mathematics.
pub ghost struct EditModel {
    pub mode: ExerciseEditMode,
    pub selected: nat,
    pub show_archived: bool,
    pub input: Seq<char>,
    pub filtered: Seq<Exercise>,
}

impl View for ExerciseEditState {
    type V = EditModel;

    open spec fn view(&self) -> EditModel {
        EditModel {
            mode: self.mode,
            selected: self.selected as nat,
            show_archived: self.show_archived,
            input: self.input@,
            filtered: self.filtered@,
        }
    }
}

impl EditModel {
    /// The view as it starts.
    pub open spec fn fresh() -> EditModel {
        EditModel {
            mode: ExerciseEditMode::Browse,
            selected: 0,
            show_archived: false,
            input: Seq::empty(),
            filtered: Seq::empty(),
        }
    }

    /// The view after the catalogue changed to `exercises`: those that are
    /// not archived are shown, or all of them where archived ones are shown
    /// too, and the selection is kept on them.
    pub open spec fn update_filtered(self, exercises: Seq<Exercise>) -> EditModel {
        let shown = exercises.filter(|e: Exercise| self.show_archived || !e.archived);
        EditModel { filtered: shown, selected: clamp_cursor(self.selected, shown.len()), ..self }
    }

    /// The view as the entry of a new name opens.
    pub open spec fn start_add(self) -> EditModel {
        EditModel { mode: ExerciseEditMode::Add, input: Seq::empty(), ..self }
    }

    /// The view as the renaming of the selected exercise opens, its name in
    /// the entry; unchanged if no exercise is selected.
    pub open spec fn start_rename(self) -> EditModel {
        if self.selected < self.filtered.len() {
            EditModel {
                mode: ExerciseEditMode::Rename,
                input: self.filtered[self.selected as int].name@,
                ..self
            }
        } else {
            self
        }
    }

    /// The view as the entry closes.
    pub open spec fn cancel(self) -> EditModel {
        EditModel { mode: ExerciseEditMode::Browse, input: Seq::empty(), ..self }
    }

    /// The exercise selected, if there is one.
    pub open spec fn selected_exercise(self) -> Option<Exercise> {
        if self.selected < self.filtered.len() {
            Some(self.filtered[self.selected as int])
        } else {
            None
        }
    }
}

impl ExerciseEditState {
    /// The view as it starts.
    pub fn new() -> (r: ExerciseEditState)
        ensures
            r@ == EditModel::fresh(),
    {
        ExerciseEditState {
            mode: ExerciseEditMode::Browse,
            selected: 0,
            show_archived: false,
            input: String::new(),
            filtered: Vec::new(),
        }
    }

    /// Takes the catalogue `exercises` and shows what is to be shown of it.
    pub fn update_filtered(&mut self, exercises: &[Exercise])
        ensures
            final(self)@ == old(self)@.update_filtered(exercises@),
    {
        let show = self.show_archived;
        let ghost keeps = |e: Exercise| show || !e.archived;
        let mut shown: Vec<Exercise> = Vec::new();
        let n = exercises.len();
        let mut i: usize = 0;
        while i < n
            invariant
                i <= n,
                n == exercises.len(),
                keeps == (|e: Exercise| show || !e.archived),
                shown@ == exercises@.take(i as int).filter(keeps),
            decreases n - i,
        {
            let ghost next = exercises@.take(i + 1);
            assert(next.drop_last() =~= exercises@.take(i as int));
            let e = &exercises[i];
            assert(next.filter(keeps) == if keeps(*e) {
                next.drop_last().filter(keeps).push(*e)
            } else {
                next.drop_last().filter(keeps)
            }) by {
                reveal(Seq::filter);
            }
            if show || !e.archived {
                shown.push(e.duplicate());
            }
            i = i + 1;
        }
        assert(exercises@.take(n as int) =~= exercises@);
        let len = shown.len();
        self.filtered = shown;
        if len == 0 {
            self.selected = 0;
        } else if self.selected >= len {
            self.selected = len - 1;
        }
    }

    /// Opens the entry of a new name.
    pub fn start_add(&mut self)
        ensures
            final(self)@ == old(self)@.start_add(),
    {
        self.mode = ExerciseEditMode::Add;
        self.input = String::new();
    }

    /// Opens the renaming of the selected exercise.
    pub fn start_rename(&mut self)
        ensures
            final(self)@ == old(self)@.start_rename(),
    {
        if self.selected < self.filtered.len() {
            self.mode = ExerciseEditMode::Rename;
            self.input = self.filtered[self.selected].name.clone();
        }
    }

    /// Closes the entry.
    pub fn cancel(&mut self)
        ensures
            final(self)@ == old(self)@.cancel(),
    {
        self.mode = ExerciseEditMode::Browse;
        self.input = String::new();
    }

    /// The exercise selected, if there is one.
    pub fn selected_exercise(&self) -> (r: Option<&Exercise>)
        ensures
            r is Some <==> self@.selected_exercise() is Some,
            r is Some ==> *r->0 == self@.selected_exercise()->0,
    {
        if self.selected < self.filtered.len() {
            Some(&self.filtered[self.selected])
        } else {
            None
        }
    }
}

} // verus!
