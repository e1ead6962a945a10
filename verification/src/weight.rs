//! Weights as fixed-point numbers, their text form, and the buffered entry
//! field that edits one.

use vstd::prelude::*;
use vstd::string::*;
use crate::text::{
    all_digits, char_is_digit, decimal_digits, digit_char, digit_of, digits_only, digits_value,
    first_mark, is_digit, lemma_decimal_round_trip, lemma_digit_round_trip, lemma_digits_below,
    lemma_digits_value_one, lemma_digits_value_push, lemma_first_mark, lemma_first_mark_is,
    pop_char, push_char, push_decimal, read_digits,
};
use crate::time::{has_window_elapsed, window_elapsed};

verus! {

/// A weight in thousandths of the unit the user lifts in.
#[derive(Debug, Clone, Copy, PartialEq, Eq, Structural)]
pub struct Weight {
    pub milli: u32,
}

/// What stands before the first `.`.
pub open spec fn whole_part(s: Seq<char>) -> Seq<char> {
    s.take(first_mark(s, '.'))
}

/// What stands after the first `.`; empty if there is none.
pub open spec fn fraction_part(s: Seq<char>) -> Seq<char> {
    if first_mark(s, '.') < s.len() {
        s.skip(first_mark(s, '.') + 1)
    } else {
        Seq::empty()
    }
}

/// The first three decimals of a run of fraction digits, in thousandths.
/// Decimals past the third are dropped.
pub open spec fn fraction_milli(f: Seq<char>) -> nat {
    if f.len() == 0 {
        0
    } else if f.len() == 1 {
        digits_value(f) * 100
    } else if f.len() == 2 {
        digits_value(f) * 10
    } else {
        digits_value(f.take(3))
    }
}

/// Whether `s` is a decimal numeral: digits, at most one `.` among them, and
/// at least one digit. `5`, `5.`, `.5` and `82.5` are; the empty text, `.` and
/// `1.2.3` are not.
pub open spec fn is_numeral(s: Seq<char>) -> bool {
    &&& all_digits(whole_part(s))
    &&& all_digits(fraction_part(s))
    &&& whole_part(s).len() + fraction_part(s).len() > 0
}

/// The value of a numeral in thousandths.
pub open spec fn numeral_milli(s: Seq<char>) -> nat {
    digits_value(whole_part(s)) * 1000 + fraction_milli(fraction_part(s))
}

/// The weight a buffer stands for: the value of the numeral it holds, and 0
/// when it holds none or one too large for a [`Weight`].
pub open spec fn parse_weight(s: Seq<char>) -> nat {
    if is_numeral(s) && numeral_milli(s) <= u32::MAX {
        numeral_milli(s)
    } else {
        0
    }
}

/// The decimals of `f` thousandths, without trailing zeros past the first.
pub open spec fn fraction_digits(f: nat) -> Seq<char>
    recommends
        f < 1000,
{
    if f % 10 != 0 {
        seq![digit_char(f / 100), digit_char((f / 10) % 10), digit_char(f % 10)]
    } else if (f / 10) % 10 != 0 {
        seq![digit_char(f / 100), digit_char((f / 10) % 10)]
    } else {
        seq![digit_char(f / 100)]
    }
}

/// The text of a weight: the whole units, a `.`, and as many decimals as it
/// has, at least one. 82500 thousandths read `82.5`, 100000 read `100.0`.
pub open spec fn weight_text(milli: nat) -> Seq<char> {
    decimal_digits(milli / 1000) + seq!['.'] + fraction_digits(milli % 1000)
}

/// Reading the text of a weight gives the weight back.
pub proof fn lemma_weight_text_round_trip(milli: nat)
    requires
        milli <= u32::MAX,
    ensures
        is_numeral(weight_text(milli)),
        parse_weight(weight_text(milli)) == milli,
        weight_text(milli).len() >= 3,
{
    let w = decimal_digits(milli / 1000);
    let f = milli % 1000;
    let fd = fraction_digits(f);
    let s = weight_text(milli);
    lemma_decimal_round_trip(milli / 1000);
    lemma_digit_round_trip(f % 10);
    let k = w.len() as int;
    lemma_first_mark_is(s, '.', k);
    assert(whole_part(s) =~= w);
    assert(fraction_part(s) =~= fd);
    let d0 = digit_char(f / 100);
    let d1 = digit_char((f / 10) % 10);
    let d2 = digit_char(f % 10);
    lemma_digits_value_one(d0);
    lemma_digits_value_push(seq![d0], d1);
    lemma_digits_value_push(seq![d0, d1], d2);
    assert(seq![d0].push(d1) =~= seq![d0, d1]);
    assert(seq![d0, d1].push(d2) =~= seq![d0, d1, d2]);
    if f % 10 != 0 {
        assert(fd.take(3) =~= fd);
    }
}

/// A text with a character outside ASCII holds no numeral.
proof fn lemma_numeral_is_ascii(s: Seq<char>)
    requires
        is_numeral(s),
    ensures
        vstd::utf8::is_ascii_chars(s),
{
    lemma_first_mark(s, '.');
    let k = first_mark(s, '.');
    assert forall|i: int| 0 <= i < s.len() implies '\0' <= #[trigger] s[i] <= '\u{7f}' by {
        if i < k {
            assert(whole_part(s)[i] == s[i]);
        } else if i > k {
            assert(fraction_part(s)[i - k - 1] == s[i]);
        }
    }
}

impl Weight {
    /// Reads a buffer: the numeral it holds, 0 when it holds none.
    pub fn parse(s: &str) -> (w: Weight)
        ensures
            w.milli == parse_weight(s@),
    {
        if !s.is_ascii() {
            proof {
                if is_numeral(s@) {
                    lemma_numeral_is_ascii(s@);
                }
            }
            return Weight { milli: 0 };
        }
        let n = s.unicode_len();
        let mut k: usize = 0;
        while k < n && s.get_ascii(k) != 46
            invariant
                s.is_ascii(),
                n == s@.len(),
                k <= n,
                forall|j: int| 0 <= j < k ==> s@[j] != '.',
            decreases n - k,
        {
            k = k + 1;
        }
        proof {
            lemma_first_mark_is(s@, '.', k as int);
        }
        let whole = match read_digits(s, 0, k, 4_294_967) {
            Some(v) => v,
            None => {
                return Weight { milli: 0 };
            },
        };
        let mut fraction: u64 = 0;
        let mut decimals: usize = 0;
        if k < n {
            decimals = n - k - 1;
            if !digits_only(s, k + 1, n) {
                return Weight { milli: 0 };
            }
            let end = if decimals > 3 {
                k + 4
            } else {
                n
            };
            let ghost f = fraction_part(s@);
            proof {
                if decimals > 3 {
                    assert(s@.subrange(k + 1, end as int) =~= f.take(3));
                }
                lemma_digits_below(s@.subrange(k + 1, end as int));
            }
            let head = match read_digits(s, k + 1, end, 999) {
                Some(v) => v,
                None => {
                    return Weight { milli: 0 };
                },
            };
            fraction = if decimals == 0 {
                0
            } else if decimals == 1 {
                head * 100
            } else if decimals == 2 {
                head * 10
            } else {
                head
            };
            proof {
                if decimals == 3 {
                    assert(f.take(3) =~= f);
                }
            }
        }
        if k + decimals == 0 {
            return Weight { milli: 0 };
        }
        let total = whole * 1000 + fraction;
        if total > 4_294_967_295 {
            return Weight { milli: 0 };
        }
        Weight { milli: total as u32 }
    }

    /// Writes the weight as text.
    pub fn text(self) -> (out: String)
        ensures
            out@ == weight_text(self.milli as nat),
    {
        let mut out = String::new();
        push_decimal(&mut out, (self.milli / 1000) as u64);
        push_char(&mut out, '.');
        let f: u32 = self.milli % 1000;
        let d0 = digit_of((f / 100) as u8);
        let d1 = digit_of(((f / 10) % 10) as u8);
        let d2 = digit_of((f % 10) as u8);
        push_char(&mut out, d0);
        if f % 10 != 0 {
            push_char(&mut out, d1);
            push_char(&mut out, d2);
        } else if (f / 10) % 10 != 0 {
            push_char(&mut out, d1);
        }
        out
    }

    /// The weight `delta` thousandths away, kept within what a weight can
    /// hold: not below 0 and not above the largest value.
    pub open spec fn shifted(milli: nat, delta: int) -> nat {
        if milli + delta < 0 {
            0
        } else if milli + delta > u32::MAX {
            u32::MAX as nat
        } else {
            (milli + delta) as nat
        }
    }

    /// Adds `delta` thousandths, stopping at 0 and at the largest value.
    pub fn saturating_add_signed(self, delta: i32) -> (w: Weight)
        ensures
            w.milli == Weight::shifted(self.milli as nat, delta as int),
    {
        let sum: i64 = self.milli as i64 + delta as i64;
        if sum < 0 {
            Weight { milli: 0 }
        } else if sum > 4_294_967_295 {
            Weight { milli: 4_294_967_295 }
        } else {
            Weight { milli: sum as u32 }
        }
    }
}

/// Whether an entry field takes the character: a digit or the decimal
/// point. Anything else is dropped without a trace.
pub open spec fn is_weight_char(ch: char) -> bool {
    is_digit(ch) || ch == '.'
}

/// Decides [`is_weight_char`].
pub fn accepts_weight_char(ch: char) -> (r: bool)
    ensures
        r == is_weight_char(ch),
{
    char_is_digit(ch) || ch == '.'
}

/// The text shown in place of a value that is not set.
pub open spec fn placeholder() -> Seq<char> {
    seq!['_', '_']
}

/// A buffered numeric entry: the keystrokes since the last reset, the weight
/// they stand for, and when the last keystroke was taken.
pub struct WeightField {
    pub value: Weight,
    pub buffer: String,
    pub last_input: Option<u64>,
}

/// What a [`WeightField`] holds, as mathematics.
pub ghost struct WeightFieldModel {
    pub value: nat,
    pub buffer: Seq<char>,
    pub last_input: Option<u64>,
}

impl View for WeightField {
    type V = WeightFieldModel;

    open spec fn view(&self) -> WeightFieldModel {
        WeightFieldModel {
            value: self.value.milli as nat,
            buffer: self.buffer@,
            last_input: self.last_input,
        }
    }
}

impl WeightFieldModel {
    /// The value is what the buffer reads as, 0 when it reads as nothing.
    pub open spec fn wf(self) -> bool {
        self.value == parse_weight(self.buffer)
    }

    /// An empty buffer: the value is not set and shows as a placeholder.
    pub open spec fn is_unset(self) -> bool {
        self.buffer.len() == 0
    }

    /// The field nobody has typed into.
    pub open spec fn unset() -> WeightFieldModel {
        WeightFieldModel { value: 0, buffer: Seq::empty(), last_input: None }
    }

    /// The field that shows `milli`, zero included.
    pub open spec fn showing(milli: nat) -> WeightFieldModel {
        WeightFieldModel { value: milli, buffer: weight_text(milli), last_input: None }
    }

    /// The field seeded with `milli`: unset for 0, else showing it.
    pub open spec fn seeded(milli: nat) -> WeightFieldModel {
        if milli > 0 {
            WeightFieldModel::showing(milli)
        } else {
            WeightFieldModel::unset()
        }
    }

    /// The buffer that the next accepted keystroke at `now` is appended to:
    /// empty once the debounce window has run out, else the buffer as it is.
    pub open spec fn base_at(self, now: u64) -> Seq<char> {
        if window_elapsed(self.last_input, now) {
            Seq::empty()
        } else {
            self.buffer
        }
    }

    /// The field after the keystroke `ch` at `now`.
    pub open spec fn push_char(self, ch: char, now: u64) -> WeightFieldModel {
        if is_weight_char(ch) {
            let buffer = self.base_at(now).push(ch);
            WeightFieldModel { value: parse_weight(buffer), buffer, last_input: Some(now) }
        } else {
            self
        }
    }

    /// The field after one backspace.
    pub open spec fn backspace(self) -> WeightFieldModel {
        let buffer = if self.buffer.len() > 0 {
            self.buffer.drop_last()
        } else {
            self.buffer
        };
        WeightFieldModel { value: parse_weight(buffer), buffer, last_input: self.last_input }
    }

    /// The field after its value was moved by `delta` thousandths.
    pub open spec fn bump(self, delta: int) -> WeightFieldModel {
        let value = Weight::shifted(self.value, delta);
        WeightFieldModel { value, buffer: weight_text(value), last_input: self.last_input }
    }

    /// The field with its buffer replaced by the text of `milli`.
    pub open spec fn set_to(self, milli: nat) -> WeightFieldModel {
        WeightFieldModel { value: milli, buffer: weight_text(milli), last_input: self.last_input }
    }

    /// What the field shows: the buffer, or the placeholder when unset.
    pub open spec fn display(self) -> Seq<char> {
        if self.is_unset() {
            placeholder()
        } else {
            self.buffer
        }
    }
}

impl WeightField {
    /// A field nobody has typed into.
    pub fn new() -> (r: WeightField)
        ensures
            r@ == WeightFieldModel::unset(),
            r@.wf(),
    {
        WeightField { value: Weight { milli: 0 }, buffer: String::new(), last_input: None }
    }

    /// A field that shows `weight`, zero included.
    pub fn showing(weight: Weight) -> (r: WeightField)
        ensures
            r@ == WeightFieldModel::showing(weight.milli as nat),
            r@.wf(),
    {
        proof {
            lemma_weight_text_round_trip(weight.milli as nat);
        }
        WeightField { value: weight, buffer: weight.text(), last_input: None }
    }

    /// A field seeded with `weight`: unset for 0, else showing it.
    pub fn seeded(weight: Weight) -> (r: WeightField)
        ensures
            r@ == WeightFieldModel::seeded(weight.milli as nat),
            r@.wf(),
    {
        if weight.milli > 0 {
            WeightField::showing(weight)
        } else {
            WeightField::new()
        }
    }

    /// Takes the keystroke `ch` at `now`. A digit or a decimal point is
    /// appended, after the buffer was cleared if the debounce window had run
    /// out, and the value is read from the buffer again. Any other character
    /// changes nothing.
    pub fn push_char(&mut self, ch: char, now: u64)
        ensures
            final(self)@ == old(self)@.push_char(ch, now),
            is_weight_char(ch) ==> final(self)@.wf(),
    {
        if !accepts_weight_char(ch) {
            return ;
        }
        if has_window_elapsed(self.last_input, now) {
            self.buffer = String::new();
        }
        push_char(&mut self.buffer, ch);
        self.value = Weight::parse(self.buffer.as_str());
        self.last_input = Some(now);
    }

    /// Removes the last character and reads the value from the buffer again.
    /// An emptied buffer leaves the value unset, which reads as 0.
    pub fn backspace(&mut self)
        ensures
            final(self)@ == old(self)@.backspace(),
            final(self)@.wf(),
    {
        let _ = pop_char(&mut self.buffer);
        self.value = Weight::parse(self.buffer.as_str());
    }

    /// Moves the value by `delta` thousandths, not below 0, and writes the
    /// buffer anew from it.
    pub fn bump(&mut self, delta: i32)
        ensures
            final(self)@ == old(self)@.bump(delta as int),
            final(self)@.wf(),
    {
        let value = self.value.saturating_add_signed(delta);
        proof {
            lemma_weight_text_round_trip(value.milli as nat);
        }
        self.value = value;
        self.buffer = value.text();
    }

    /// Replaces value and buffer by `weight` and its text; the timer stays.
    pub fn set_to(&mut self, weight: Weight)
        ensures
            final(self)@ == old(self)@.set_to(weight.milli as nat),
            final(self)@.wf(),
    {
        proof {
            lemma_weight_text_round_trip(weight.milli as nat);
        }
        self.value = weight;
        self.buffer = weight.text();
    }

    /// Whether the buffer is empty, so that the value is not set.
    pub fn is_unset(&self) -> (r: bool)
        ensures
            r == self@.is_unset(),
    {
        self.buffer.as_str().unicode_len() == 0
    }

    /// What the field shows: the buffer, or `__` when unset.
    pub fn display(&self) -> (out: String)
        ensures
            out@ == self@.display(),
    {
        if self.is_unset() {
            let mut out = String::new();
            push_char(&mut out, '_');
            push_char(&mut out, '_');
            out
        } else {
            self.buffer.clone()
        }
    }
}

/// The empty buffer holds no numeral and reads as 0.
pub proof fn lemma_unset_reads_zero()
    ensures
        !is_numeral(Seq::<char>::empty()),
        parse_weight(Seq::<char>::empty()) == 0,
{
}

} // verus!
