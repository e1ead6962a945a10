//! One set of an exercise: weight, reps, what the service knows of it.

use vstd::prelude::*;
use vstd::string::*;
use crate::models::WorkoutSet;
use crate::text::{count_text, parse_count, push_char, read_count, signed_decimal};
use crate::time::Timestamp;
use crate::weight::{placeholder, Weight, WeightField, WeightFieldModel};

verus! {

/// One set in the grid.
pub struct SetState {
    pub id: Option<i64>,
    pub number: i32,
    pub weight: WeightField,
    pub reps: Option<i32>,
    pub reps_buffer: String,
    pub completed_at: Option<Timestamp>,
    pub pending: bool,
}

/// What a [`SetState`] holds, as mathematics.
pub ghost struct SetModel {
    pub id: Option<i64>,
    pub number: i32,
    pub weight: WeightFieldModel,
    pub reps: Option<i32>,
    pub reps_buffer: Seq<char>,
    pub completed_at: Option<Timestamp>,
    pub pending: bool,
}

impl View for SetState {
    type V = SetModel;

    open spec fn view(&self) -> SetModel {
        SetModel {
            id: self.id,
            number: self.number,
            weight: self.weight@,
            reps: self.reps,
            reps_buffer: self.reps_buffer@,
            completed_at: self.completed_at,
            pending: self.pending,
        }
    }
}

impl SetModel {
    /// A set has a completion time exactly when its reps are committed, and
    /// its weight is what its buffer reads as.
    pub open spec fn wf(self) -> bool {
        &&& self.reps is Some <==> self.completed_at is Some
        &&& self.weight.wf()
    }

    /// A blank set numbered `number`, seeded with `milli`.
    pub open spec fn empty(number: i32, milli: nat) -> SetModel {
        SetModel {
            id: None,
            number,
            weight: WeightFieldModel::seeded(milli),
            reps: None,
            reps_buffer: Seq::empty(),
            completed_at: None,
            pending: false,
        }
    }

    /// The set that the service's record `s` describes.
    pub open spec fn from_server(s: WorkoutSet) -> SetModel {
        SetModel {
            id: Some(s.id),
            number: s.set_number,
            weight: WeightFieldModel::showing(s.weight.milli as nat),
            reps: Some(s.reps),
            reps_buffer: signed_decimal(s.reps as int),
            completed_at: Some(s.completed_at),
            pending: false,
        }
    }

    /// Nothing is known of the set but its number and seed weight: the
    /// service has not stored it, no reps are committed, no save is under way.
    pub open spec fn is_empty(self) -> bool {
        self.id is None && self.reps is None && self.completed_at is None && !self.pending
    }

    /// The set after its reps buffer was read at `utc`. A buffer that reads
    /// as a count commits it, and stamps the set unless it was stamped
    /// before. Any other buffer leaves the set without reps and stamp.
    pub open spec fn apply_reps_buffer(self, utc: Timestamp) -> SetModel {
        match parse_count(self.reps_buffer) {
            Some(r) => SetModel {
                reps: Some(r),
                completed_at: if self.completed_at is None {
                    Some(utc)
                } else {
                    self.completed_at
                },
                ..self
            },
            None => SetModel { reps: None, completed_at: None, ..self },
        }
    }

    /// The set with its reps and stamp cleared.
    pub open spec fn without_reps(self) -> SetModel {
        SetModel { reps: None, completed_at: None, ..self }
    }

    /// The set after the service confirmed `saved` for it: identity, reps and
    /// stamp are the service's, no save is under way; the weight is the
    /// service's only where `take_weight` says so.
    pub open spec fn confirmed(self, saved: WorkoutSet, take_weight: bool) -> SetModel {
        SetModel {
            id: Some(saved.id),
            number: self.number,
            weight: if take_weight {
                self.weight.set_to(saved.weight.milli as nat)
            } else {
                self.weight
            },
            reps: Some(saved.reps),
            reps_buffer: signed_decimal(saved.reps as int),
            completed_at: Some(saved.completed_at),
            pending: false,
        }
    }

    /// What the reps column shows: the count, or the placeholder.
    pub open spec fn reps_display(self) -> Seq<char> {
        match self.reps {
            Some(r) => signed_decimal(r as int),
            None => placeholder(),
        }
    }
}

impl SetState {
    /// A blank set numbered `number`, seeded with `weight`: a weight of 0
    /// leaves the weight unset.
    pub fn empty(number: i32, weight: Weight) -> (r: SetState)
        ensures
            r@ == SetModel::empty(number, weight.milli as nat),
            r@.wf(),
            r@.is_empty(),
    {
        SetState {
            id: None,
            number,
            weight: WeightField::seeded(weight),
            reps: None,
            reps_buffer: String::new(),
            completed_at: None,
            pending: false,
        }
    }

    /// The set that the service's record `s` describes.
    pub fn from_server(s: WorkoutSet) -> (r: SetState)
        ensures
            r@ == SetModel::from_server(s),
            r@.wf(),
            !r@.is_empty(),
    {
        SetState::from_record(&s)
    }

    /// The set that the service's record `s` describes, the record staying
    /// with the caller.
    pub fn from_record(s: &WorkoutSet) -> (r: SetState)
        ensures
            r@ == SetModel::from_server(*s),
            r@.wf(),
            !r@.is_empty(),
    {
        SetState {
            id: Some(s.id),
            number: s.set_number,
            weight: WeightField::showing(s.weight),
            reps: Some(s.reps),
            reps_buffer: count_text(s.reps),
            completed_at: Some(s.completed_at),
            pending: false,
        }
    }

    /// Whether nothing is known of the set but its number and seed weight.
    pub fn is_empty(&self) -> (r: bool)
        ensures
            r == self@.is_empty(),
    {
        self.id.is_none() && self.reps.is_none() && self.completed_at.is_none() && !self.pending
    }

    /// Reads the reps buffer at `utc` and commits or clears the reps.
    pub fn apply_reps_buffer(&mut self, utc: Timestamp)
        ensures
            final(self)@ == old(self)@.apply_reps_buffer(utc),
            old(self)@.weight.wf() ==> final(self)@.wf(),
    {
        match read_count(self.reps_buffer.as_str()) {
            Some(r) => {
                self.reps = Some(r);
                if self.completed_at.is_none() {
                    self.completed_at = Some(utc);
                }
            },
            None => {
                self.reps = None;
                self.completed_at = None;
            },
        }
    }

    /// Takes what the service confirmed in `saved`: identity, reps and stamp,
    /// and the weight where `take_weight` says so. No save is under way
    /// after it.
    pub fn confirm(&mut self, saved: &WorkoutSet, take_weight: bool)
        ensures
            final(self)@ == old(self)@.confirmed(*saved, take_weight),
            old(self)@.weight.wf() ==> final(self)@.wf(),
    {
        self.id = Some(saved.id);
        self.reps = Some(saved.reps);
        self.reps_buffer = count_text(saved.reps);
        self.completed_at = Some(saved.completed_at);
        self.pending = false;
        if take_weight {
            self.weight.set_to(saved.weight);
        }
    }

    /// What the weight column shows: the buffer, or `__` when unset.
    pub fn weight_display(&self) -> (out: String)
        ensures
            out@ == self@.weight.display(),
    {
        self.weight.display()
    }

    /// What the reps column shows: the count, or `__` when not committed.
    pub fn reps_display(&self) -> (out: String)
        ensures
            out@ == self@.reps_display(),
    {
        match self.reps {
            Some(r) => count_text(r),
            None => {
                let mut out = String::new();
                push_char(&mut out, '_');
                push_char(&mut out, '_');
                out
            },
        }
    }
}

/// The models of a run of sets, in order.
pub open spec fn sets_view(sets: Seq<SetState>) -> Seq<SetModel> {
    Seq::new(sets.len(), |i: int| sets[i]@)
}

/// Every set of the run is well formed.
pub open spec fn all_wf(sets: Seq<SetModel>) -> bool {
    forall|i: int| 0 <= i < sets.len() ==> (#[trigger] sets[i]).wf()
}

} // verus!
