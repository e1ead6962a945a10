//! Text buffers: the few `String` operations the entry fields need, and
//! decimal numerals.

use vstd::prelude::*;
use vstd::string::*;

verus! {

/// Appends one character with `String::push`. Trusted: the buffer afterwards
/// is the old buffer followed by `ch`.
#[verifier::external_body]
pub(crate) fn push_char(s: &mut String, ch: char)
    ensures
        final(s)@ == old(s)@.push(ch),
{
    s.push(ch)
}

/// Removes the last character with `String::pop`. Trusted: an empty buffer
/// stays empty and gives `None`; otherwise the last character comes back and
/// the rest stays.
#[verifier::external_body]
pub(crate) fn pop_char(s: &mut String) -> (r: Option<char>)
    ensures
        old(s)@.len() == 0 ==> r is None && final(s)@ == old(s)@,
        old(s)@.len() > 0 ==> r == Some(old(s)@.last()) && final(s)@ == old(s)@.drop_last(),
        final(s)@ == without_last(old(s)@),
{
    s.pop()
}

/// What `str::to_lowercase` makes of a text.
pub uninterp spec fn lowercase_text(s: Seq<char>) -> Seq<char>;

/// Lowers a text with `str::to_lowercase`. Trusted: the result depends on
/// the text alone.
#[verifier::external_body]
pub(crate) fn to_lowercase(s: &str) -> (out: String)
    ensures
        out@ == lowercase_text(s@),
{
    s.to_lowercase()
}

/// White space: the characters that Unicode gives the property White_Space.
pub open spec fn is_space(ch: char) -> bool {
    ('\u{9}' <= ch <= '\u{d}') || ch == ' ' || ch == '\u{85}' || ch == '\u{a0}' || ch == '\u{1680}'
        || ('\u{2000}' <= ch <= '\u{200a}') || ch == '\u{2028}' || ch == '\u{2029}' || ch
        == '\u{202f}' || ch == '\u{205f}' || ch == '\u{3000}'
}

/// Decides [`is_space`].
pub fn char_is_space(ch: char) -> (r: bool)
    ensures
        r == is_space(ch),
{
    ('\u{9}' <= ch && ch <= '\u{d}') || ch == ' ' || ch == '\u{85}' || ch == '\u{a0}' || ch
        == '\u{1680}' || ('\u{2000}' <= ch && ch <= '\u{200a}') || ch == '\u{2028}' || ch
        == '\u{2029}' || ch == '\u{202f}' || ch == '\u{205f}' || ch == '\u{3000}'
}

/// The index of the first character that is no white space, or the length
/// of the text if there is none.
pub open spec fn text_start(s: Seq<char>) -> int
    decreases s.len(),
{
    if s.len() == 0 {
        0
    } else {
        let k = text_start(s.drop_last());
        if k < s.len() - 1 {
            k
        } else if !is_space(s.last()) {
            s.len() - 1
        } else {
            s.len() as int
        }
    }
}

/// The index after the last character that is no white space, or 0 if
/// there is none.
pub open spec fn text_end(s: Seq<char>) -> int
    decreases s.len(),
{
    if s.len() == 0 {
        0
    } else if !is_space(s.last()) {
        s.len() as int
    } else {
        text_end(s.drop_last())
    }
}

/// A text without the white space at its start and end.
pub open spec fn trimmed_text(s: Seq<char>) -> Seq<char> {
    if text_start(s) < text_end(s) {
        s.subrange(text_start(s), text_end(s))
    } else {
        Seq::empty()
    }
}

/// The start of a text lies in range, only white space stands before it,
/// and no white space stands at it.
pub proof fn lemma_text_start(s: Seq<char>)
    ensures
        0 <= text_start(s) <= s.len(),
        forall|j: int| 0 <= j < text_start(s) ==> is_space(#[trigger] s[j]),
        text_start(s) < s.len() ==> !is_space(s[text_start(s)]),
    decreases s.len(),
{
    if s.len() > 0 {
        lemma_text_start(s.drop_last());
        assert forall|j: int| 0 <= j < text_start(s) implies is_space(#[trigger] s[j]) by {
            if j < s.len() - 1 {
                assert(s.drop_last()[j] == s[j]);
            }
        }
    }
}

/// An index with only white space before it and none at it is the start.
pub proof fn lemma_text_start_is(s: Seq<char>, k: int)
    requires
        0 <= k <= s.len(),
        forall|j: int| 0 <= j < k ==> is_space(#[trigger] s[j]),
        k < s.len() ==> !is_space(s[k]),
    ensures
        text_start(s) == k,
{
    lemma_text_start(s);
}

/// An index with only white space from it on and none just before it is
/// the end.
pub proof fn lemma_text_end_is(s: Seq<char>, k: int)
    requires
        0 <= k <= s.len(),
        forall|j: int| k <= j < s.len() ==> is_space(#[trigger] s[j]),
        k > 0 ==> !is_space(s[k - 1]),
    ensures
        text_end(s) == k,
    decreases s.len(),
{
    if k < s.len() {
        lemma_text_end_is(s.drop_last(), k);
    }
}

/// Whether `needle` stands somewhere in `hay`, character for character. The
/// empty text stands in every text.
pub open spec fn is_infix(needle: Seq<char>, hay: Seq<char>) -> bool {
    exists|i: int|
        0 <= i <= hay.len() - needle.len() && #[trigger] hay.subrange(i, i + needle.len())
            == needle
}

/// The index of the first `mark` in `s`, or the length of `s` if there is
/// none.
pub open spec fn first_mark(s: Seq<char>, mark: char) -> int
    decreases s.len(),
{
    if s.len() == 0 {
        0
    } else {
        let k = first_mark(s.drop_last(), mark);
        if k < s.len() - 1 {
            k
        } else if s.last() == mark {
            s.len() - 1
        } else {
            s.len() as int
        }
    }
}

/// The first mark lies in range, no `mark` stands before it, and one stands
/// at it if it lies within the text.
pub proof fn lemma_first_mark(s: Seq<char>, mark: char)
    ensures
        0 <= first_mark(s, mark) <= s.len(),
        forall|j: int| 0 <= j < first_mark(s, mark) ==> #[trigger] s[j] != mark,
        first_mark(s, mark) < s.len() ==> s[first_mark(s, mark)] == mark,
    decreases s.len(),
{
    if s.len() > 0 {
        lemma_first_mark(s.drop_last(), mark);
        assert forall|j: int| 0 <= j < first_mark(s, mark) implies #[trigger] s[j] != mark by {
            if j < s.len() - 1 {
                assert(s.drop_last()[j] == s[j]);
            }
        }
    }
}

/// An index that holds the first `mark` is the first mark.
pub proof fn lemma_first_mark_is(s: Seq<char>, mark: char, k: int)
    requires
        0 <= k <= s.len(),
        forall|j: int| 0 <= j < k ==> #[trigger] s[j] != mark,
        k < s.len() ==> s[k] == mark,
    ensures
        first_mark(s, mark) == k,
{
    lemma_first_mark(s, mark);
}

/// A buffer without its last character; an empty one stays empty.
pub open spec fn without_last(s: Seq<char>) -> Seq<char> {
    if s.len() > 0 {
        s.drop_last()
    } else {
        s
    }
}

/// An ASCII decimal digit.
pub open spec fn is_digit(ch: char) -> bool {
    '0' <= ch <= '9'
}

/// The number a digit stands for.
pub open spec fn digit_value(ch: char) -> nat
    recommends
        is_digit(ch),
{
    (ch as int - '0' as int) as nat
}

/// The digit that stands for `d`.
pub open spec fn digit_char(d: nat) -> char
    recommends
        d < 10,
{
    if d == 0 {
        '0'
    } else if d == 1 {
        '1'
    } else if d == 2 {
        '2'
    } else if d == 3 {
        '3'
    } else if d == 4 {
        '4'
    } else if d == 5 {
        '5'
    } else if d == 6 {
        '6'
    } else if d == 7 {
        '7'
    } else if d == 8 {
        '8'
    } else {
        '9'
    }
}

/// Every character is a decimal digit.
pub open spec fn all_digits(s: Seq<char>) -> bool {
    forall|i: int| 0 <= i < s.len() ==> is_digit(#[trigger] s[i])
}

/// The number written by a run of digits, most significant first; 0 for the
/// empty run.
pub open spec fn digits_value(s: Seq<char>) -> nat
    decreases s.len(),
{
    if s.len() == 0 {
        0
    } else {
        digits_value(s.drop_last()) * 10 + digit_value(s.last())
    }
}

/// The shortest decimal numeral of `n`.
pub open spec fn decimal_digits(n: nat) -> Seq<char>
    decreases n,
{
    if n < 10 {
        seq![digit_char(n)]
    } else {
        decimal_digits(n / 10).push(digit_char(n % 10))
    }
}

/// The decimal numeral of an integer, with a leading `-` below zero.
pub open spec fn signed_decimal(i: int) -> Seq<char> {
    if i < 0 {
        seq!['-'] + decimal_digits((-i) as nat)
    } else {
        decimal_digits(i as nat)
    }
}

/// What a buffer of typed digits says as a 32-bit count: an optional sign,
/// then at least one digit, and a value that fits.
pub open spec fn parse_count(s: Seq<char>) -> Option<i32> {
    if s.len() > 0 && (s[0] == '-' || s[0] == '+') {
        let body = s.drop_first();
        let v = if s[0] == '-' {
            -(digits_value(body) as int)
        } else {
            digits_value(body) as int
        };
        if body.len() > 0 && all_digits(body) && i32::MIN <= v <= i32::MAX {
            Some(v as i32)
        } else {
            None
        }
    } else if s.len() > 0 && all_digits(s) && digits_value(s) <= i32::MAX {
        Some(digits_value(s) as i32)
    } else {
        None
    }
}

/// A digit's value is below ten and `digit_char` undoes it.
pub proof fn lemma_digit_round_trip(d: nat)
    requires
        d < 10,
    ensures
        is_digit(digit_char(d)),
        digit_value(digit_char(d)) == d,
{
}

/// A run that ends in `ch` is worth ten times the run before it, plus `ch`.
pub proof fn lemma_digits_value_push(s: Seq<char>, ch: char)
    ensures
        digits_value(s.push(ch)) == digits_value(s) * 10 + digit_value(ch),
{
    assert(s.push(ch).drop_last() =~= s);
}

/// A single digit is worth its value.
pub proof fn lemma_digits_value_one(ch: char)
    ensures
        digits_value(seq![ch]) == digit_value(ch),
{
    assert(seq![ch].drop_last() =~= Seq::<char>::empty());
    assert(digits_value(Seq::<char>::empty()) == 0);
}

/// Reading the shortest numeral of `n` gives `n` back.
pub proof fn lemma_decimal_round_trip(n: nat)
    ensures
        decimal_digits(n).len() > 0,
        all_digits(decimal_digits(n)),
        digits_value(decimal_digits(n)) == n,
    decreases n,
{
    if n < 10 {
        let s = decimal_digits(n);
        assert(digits_value(s.drop_last()) == 0);
    } else {
        lemma_decimal_round_trip(n / 10);
        let p = decimal_digits(n / 10);
        let s = decimal_digits(n);
        assert(s.drop_last() =~= p);
    }
}

/// The largest number that `n` digits can write: `n` nines.
pub open spec fn nines(n: nat) -> nat
    decreases n,
{
    if n == 0 {
        0
    } else {
        nines((n - 1) as nat) * 10 + 9
    }
}

/// A run of digits is worth at most as many nines.
pub proof fn lemma_digits_bounded(s: Seq<char>)
    requires
        all_digits(s),
    ensures
        digits_value(s) <= nines(s.len()),
    decreases s.len(),
{
    if s.len() > 0 {
        lemma_digits_bounded(s.drop_last());
    }
}

/// A run of at most three digits is worth less than a thousand.
pub proof fn lemma_digits_below(s: Seq<char>)
    requires
        s.len() <= 3,
        all_digits(s),
    ensures
        digits_value(s) <= 999,
{
    lemma_digits_bounded(s);
    assert(nines(0) == 0);
    assert(nines(1) == 9);
    assert(nines(2) == 99);
}

/// Extending a run of digits never lowers its value.
pub proof fn lemma_digits_value_grows(s: Seq<char>, i: int, j: int)
    requires
        0 <= i <= j <= s.len(),
    ensures
        digits_value(s.take(i)) <= digits_value(s.take(j)),
    decreases j - i,
{
    if i < j {
        lemma_digits_value_grows(s, i, j - 1);
        assert(s.take(j).drop_last() =~= s.take(j - 1));
    }
}

/// The digit for a value below ten.
pub fn digit_of(d: u8) -> (ch: char)
    requires
        d < 10,
    ensures
        ch == digit_char(d as nat),
        is_digit(ch),
{
    if d == 0 {
        '0'
    } else if d == 1 {
        '1'
    } else if d == 2 {
        '2'
    } else if d == 3 {
        '3'
    } else if d == 4 {
        '4'
    } else if d == 5 {
        '5'
    } else if d == 6 {
        '6'
    } else if d == 7 {
        '7'
    } else if d == 8 {
        '8'
    } else {
        '9'
    }
}

/// Whether `ch` is one of `0` to `9`.
pub fn char_is_digit(ch: char) -> (r: bool)
    ensures
        r == is_digit(ch),
{
    ch >= '0' && ch <= '9'
}

/// Appends the shortest decimal numeral of `n` to `out`.
pub fn push_decimal(out: &mut String, n: u64)
    ensures
        final(out)@ == old(out)@ + decimal_digits(n as nat),
    decreases n,
{
    if n >= 10 {
        push_decimal(out, n / 10);
    }
    push_char(out, digit_of((n % 10) as u8));
}

/// The decimal numeral of a 32-bit integer, as `to_string` writes it.
pub fn count_text(n: i32) -> (out: String)
    ensures
        out@ == signed_decimal(n as int),
{
    let mut out = String::new();
    if n < 0 {
        push_char(&mut out, '-');
        let magnitude: u64 = (-(n as i64)) as u64;
        push_decimal(&mut out, magnitude);
    } else {
        push_decimal(&mut out, n as u64);
    }
    out
}

/// Reads the characters of `s` from position `from` up to `to` as a run of
/// digits. `None` when one of them is no digit or the value passes `limit`.
pub fn read_digits(s: &str, from: usize, to: usize, limit: u64) -> (r: Option<u64>)
    requires
        s.is_ascii(),
        from <= to <= s@.len(),
        limit <= u64::MAX / 10 - 1,
    ensures
        r is Some <==> all_digits(s@.subrange(from as int, to as int)) && digits_value(
            s@.subrange(from as int, to as int),
        ) <= limit,
        r is Some ==> r->0 == digits_value(s@.subrange(from as int, to as int)),
{
    let ghost body = s@.subrange(from as int, to as int);
    let mut i: usize = from;
    let mut acc: u64 = 0;
    while i < to
        invariant
            s.is_ascii(),
            from <= i <= to <= s@.len(),
            body == s@.subrange(from as int, to as int),
            all_digits(body.take(i - from)),
            acc == digits_value(body.take(i - from)),
            acc <= limit,
            limit <= u64::MAX / 10 - 1,
        decreases to - i,
    {
        let b = s.get_ascii(i);
        let ghost ch = s@[i as int];
        assert(body.take(i - from + 1).drop_last() =~= body.take(i - from));
        assert(body.take(i - from + 1).last() == ch);
        if b < 48 || b > 57 {
            return None;
        }
        let next = acc * 10 + (b - 48) as u64;
        if next > limit {
            proof {
                lemma_digits_value_grows(body, i - from + 1, body.len() as int);
                assert(body.take(body.len() as int) =~= body);
            }
            return None;
        }
        acc = next;
        i = i + 1;
    }
    assert(body.take(i - from) =~= body);
    Some(acc)
}

/// Whether the characters of `s` from position `from` up to `to` are all
/// digits.
pub fn digits_only(s: &str, from: usize, to: usize) -> (r: bool)
    requires
        s.is_ascii(),
        from <= to <= s@.len(),
    ensures
        r == all_digits(s@.subrange(from as int, to as int)),
{
    let ghost body = s@.subrange(from as int, to as int);
    let mut i: usize = from;
    while i < to
        invariant
            s.is_ascii(),
            from <= i <= to <= s@.len(),
            body == s@.subrange(from as int, to as int),
            forall|k: int| 0 <= k < i - from ==> is_digit(#[trigger] body[k]),
        decreases to - i,
    {
        let b = s.get_ascii(i);
        if b < 48 || b > 57 {
            assert(!is_digit(body[i - from]));
            return false;
        }
        i = i + 1;
    }
    true
}

/// Reads a buffer as a 32-bit count, as `str::parse::<i32>` does.
pub fn read_count(s: &str) -> (r: Option<i32>)
    ensures
        r == parse_count(s@),
{
    if !s.is_ascii() {
        proof {
            let i = choose|i: int| 0 <= i < s@.len() && !('\0' <= #[trigger] s@[i] <= '\u{7f}');
            if i > 0 {
                assert(s@.drop_first()[i - 1] == s@[i]);
            }
        }
        return None;
    }
    let n = s.unicode_len();
    if n == 0 {
        return None;
    }
    let first = s.get_ascii(0);
    if first == 45 || first == 43 {
        if n == 1 {
            return None;
        }
        if first == 45 {
            match read_digits(s, 1, n, 2_147_483_648) {
                Some(v) => Some((-(v as i64)) as i32),
                None => None,
            }
        } else {
            match read_digits(s, 1, n, 2_147_483_647) {
                Some(v) => Some(v as i32),
                None => None,
            }
        }
    } else {
        assert(s@.subrange(0, n as int) =~= s@);
        match read_digits(s, 0, n, 2_147_483_647) {
            Some(v) => Some(v as i32),
            None => None,
        }
    }
}

/// The characters of a text, in order.
pub fn chars_of(s: &str) -> (out: Vec<char>)
    ensures
        out@ == s@,
{
    let mut out: Vec<char> = Vec::new();
    for ch in it: s.chars()
        invariant
            out@ == it.seq().take(it.index@),
    {
        out.push(ch);
    }
    out
}

/// The text made of the characters from position `from` up to `to`.
pub fn text_of(chars: &[char], from: usize, to: usize) -> (out: String)
    requires
        from <= to <= chars.len(),
    ensures
        out@ == chars@.subrange(from as int, to as int),
{
    let mut out = String::new();
    let mut i: usize = from;
    while i < to
        invariant
            from <= i <= to <= chars.len(),
            out@ == chars@.subrange(from as int, i as int),
        decreases to - i,
    {
        push_char(&mut out, chars[i]);
        i = i + 1;
    }
    out
}

/// The bounds of what is left of `chars` without the white space at its
/// start and end.
pub fn trim_bounds(chars: &[char]) -> (r: (usize, usize))
    ensures
        r.0 == text_start(chars@),
        r.1 == text_end(chars@),
        r.0 <= chars.len(),
        r.1 <= chars.len(),
{
    let n = chars.len();
    let mut a: usize = 0;
    while a < n && char_is_space(chars[a])
        invariant
            a <= n,
            n == chars.len(),
            forall|j: int| 0 <= j < a ==> is_space(#[trigger] chars@[j]),
        decreases n - a,
    {
        a = a + 1;
    }
    let mut b: usize = n;
    while b > 0 && char_is_space(chars[b - 1])
        invariant
            b <= n,
            n == chars.len(),
            forall|j: int| b <= j < n ==> is_space(#[trigger] chars@[j]),
        decreases b,
    {
        b = b - 1;
    }
    proof {
        lemma_text_start_is(chars@, a as int);
        lemma_text_end_is(chars@, b as int);
    }
    (a, b)
}

/// A text without the white space at its start and end.
pub fn trim_text(s: &str) -> (out: String)
    ensures
        out@ == trimmed_text(s@),
{
    let chars = chars_of(s);
    let (a, b) = trim_bounds(chars.as_slice());
    if a < b {
        text_of(chars.as_slice(), a, b)
    } else {
        String::new()
    }
}

/// Whether `needle` stands somewhere in `hay`.
pub fn contains_text(hay: &str, needle: &str) -> (r: bool)
    ensures
        r == is_infix(needle@, hay@),
{
    let h = chars_of(hay);
    let n = chars_of(needle);
    if n.len() > h.len() {
        return false;
    }
    let last = h.len() - n.len();
    let mut i: usize = 0;
    while i <= last
        invariant
            i <= last + 1,
            last == h.len() - n.len(),
            h@ == hay@,
            n@ == needle@,
            forall|k: int| 0 <= k < i ==> #[trigger] h@.subrange(k, k + n.len()) != n@,
        decreases last + 1 - i,
    {
        let mut j: usize = 0;
        while j < n.len() && h[i + j] == n[j]
            invariant
                j <= n.len(),
                i <= last,
                last == h.len() - n.len(),
                forall|m: int| 0 <= m < j ==> h@[i + m] == #[trigger] n@[m],
            decreases n.len() - j,
        {
            j = j + 1;
        }
        if j == n.len() {
            assert(h@.subrange(i as int, i + n.len()) =~= n@);
            return true;
        }
        i = i + 1;
    }
    false
}

/// The bounds of what is left of the characters from `from` up to `to`
/// without the white space at their start and end.
pub fn trim_range(chars: &[char], from: usize, to: usize) -> (r: (usize, usize))
    requires
        from <= to <= chars.len(),
    ensures
        from <= r.0 <= r.1 <= to,
        chars@.subrange(r.0 as int, r.1 as int) == trimmed_text(
            chars@.subrange(from as int, to as int),
        ),
{
    let ghost sub = chars@.subrange(from as int, to as int);
    let mut a: usize = from;
    while a < to && char_is_space(chars[a])
        invariant
            from <= a <= to <= chars.len(),
            sub == chars@.subrange(from as int, to as int),
            forall|j: int| 0 <= j < a - from ==> is_space(#[trigger] sub[j]),
        decreases to - a,
    {
        a = a + 1;
    }
    let mut b: usize = to;
    while b > from && char_is_space(chars[b - 1])
        invariant
            from <= b <= to <= chars.len(),
            sub == chars@.subrange(from as int, to as int),
            forall|j: int| b - from <= j < sub.len() ==> is_space(#[trigger] sub[j]),
        decreases b,
    {
        b = b - 1;
    }
    proof {
        lemma_text_start_is(sub, a - from);
        lemma_text_end_is(sub, b - from);
    }
    if a < b {
        (a, b)
    } else {
        (from, from)
    }
}

/// Where the first `mark` stands among the characters from `from` up to
/// `to`; `to` if there is none.
pub fn find_first_mark(chars: &[char], from: usize, to: usize, mark: char) -> (k: usize)
    requires
        from <= to <= chars.len(),
    ensures
        from <= k <= to,
        k - from == first_mark(chars@.subrange(from as int, to as int), mark),
{
    let ghost sub = chars@.subrange(from as int, to as int);
    let mut k: usize = from;
    while k < to && chars[k] != mark
        invariant
            from <= k <= to <= chars.len(),
            sub == chars@.subrange(from as int, to as int),
            forall|j: int| 0 <= j < k - from ==> #[trigger] sub[j] != mark,
        decreases to - k,
    {
        k = k + 1;
    }
    proof {
        lemma_first_mark_is(sub, mark, k - from);
    }
    k
}

} // verus!
