//! Key bindings: which command a key stands for, by default and as a
//! configuration text rebinds it.
//!
//! The text has one binding per line, `key = command`. A key is a single
//! character or a name in angle brackets, with `C-`, `A-` and `S-` before
//! the name for the control, alt and shift keys: `n`, `<Esc>`, `<C-x>`.
//! Lines that are empty or start with `#`, `$` or `[` are passed over, and so
//! is a line that names no key or no command.

use vstd::prelude::*;
use vstd::string::*;
use crate::command::{command_named, same_text, Command};
use crate::keys::{Key, KeyPress};
use crate::text::{
    char_is_digit, chars_of, find_first_mark, first_mark, is_digit, lemma_first_mark,
    lowercase_text, text_of, to_lowercase, trim_range, trimmed_text,
};

verus! {

/// The bindings: pairs of a key and its command, a later pair overruling an
/// earlier one for the same key.
pub struct KeyBindings {
    pub bindings: Vec<(KeyPress, Command)>,
}

/// The key alone.
pub open spec fn plain(key: Key) -> KeyPress {
    KeyPress { key, ctrl: false, alt: false, shift: false }
}

/// The key with the control key.
pub open spec fn with_ctrl(key: Key) -> KeyPress {
    KeyPress { key, ctrl: true, alt: false, shift: false }
}

/// The key with the shift key.
pub open spec fn with_shift(key: Key) -> KeyPress {
    KeyPress { key, ctrl: false, alt: false, shift: true }
}

/// The key alone.
pub fn key(code: Key) -> (r: KeyPress)
    ensures
        r == plain(code),
{
    KeyPress { key: code, ctrl: false, alt: false, shift: false }
}

/// The key with the control key.
pub fn ctrl(code: Key) -> (r: KeyPress)
    ensures
        r == with_ctrl(code),
{
    KeyPress { key: code, ctrl: true, alt: false, shift: false }
}

/// The key with the shift key.
pub fn shift(code: Key) -> (r: KeyPress)
    ensures
        r == with_shift(code),
{
    KeyPress { key: code, ctrl: false, alt: false, shift: true }
}

/// The command that the pairs give the key: that of the last pair for it.
pub open spec fn bound(pairs: Seq<(KeyPress, Command)>, press: KeyPress) -> Option<Command>
    decreases pairs.len(),
{
    if pairs.len() == 0 {
        None
    } else if pairs.last().0 == press {
        Some(pairs.last().1)
    } else {
        bound(pairs.drop_last(), press)
    }
}

/// The bindings that hold without a configuration.
pub open spec fn default_pairs() -> Seq<(KeyPress, Command)> {
    seq![
        (plain(Key::Esc), Command::Quit),
        (plain(Key::Char('q')), Command::Quit),
        (with_ctrl(Key::Char('c')), Command::Quit),
        (plain(Key::Char('n')), Command::NextExercise),
        (plain(Key::Char('e')), Command::PrevExercise),
        (plain(Key::Down), Command::NextField),
        (plain(Key::Up), Command::PrevField),
        (plain(Key::Left), Command::MoveLeft),
        (plain(Key::Right), Command::MoveRight),
        (plain(Key::Tab), Command::NextSet),
        (with_shift(Key::BackTab), Command::PrevSet),
        (plain(Key::Char('w')), Command::BumpWeightUp),
        (plain(Key::Char('f')), Command::BumpWeightDown),
        (plain(Key::Backspace), Command::Backspace),
    ]
}

/// The index after the last `mark` in `s`, or 0 if there is none: where the
/// last part of `s` starts, `mark` parting the parts.
pub open spec fn last_part_start(s: Seq<char>, mark: char) -> int
    decreases s.len(),
{
    if s.len() == 0 {
        0
    } else if s.last() == mark {
        s.len() as int
    } else {
        last_part_start(s.drop_last(), mark)
    }
}

/// Whether one of the parts of `s`, parted by `-`, is the letter `m` alone.
pub open spec fn has_modifier(s: Seq<char>, m: char) -> bool
    decreases s.len(),
{
    let k = last_part_start(s, '-');
    s.skip(k) == seq![m] || (0 < k <= s.len() && has_modifier(s.take(k - 1), m))
}

/// The key that a name between angle brackets stands for, the name being in
/// lower case already.
pub open spec fn named_key(name: Seq<char>) -> Option<Key> {
    if name == "esc"@ || name == "escape"@ {
        Some(Key::Esc)
    } else if name == "tab"@ {
        Some(Key::Tab)
    } else if name == "backtab"@ {
        Some(Key::BackTab)
    } else if name == "enter"@ || name == "return"@ {
        Some(Key::Enter)
    } else if name == "backspace"@ {
        Some(Key::Backspace)
    } else if name == "up"@ {
        Some(Key::Up)
    } else if name == "down"@ {
        Some(Key::Down)
    } else if name == "left"@ {
        Some(Key::Left)
    } else if name == "right"@ {
        Some(Key::Right)
    } else if name == "space"@ {
        Some(Key::Char(' '))
    } else if name.len() == 1 && name[0] <= '\u{7f}' {
        Some(Key::Char(name[0]))
    } else {
        None
    }
}

/// The key that stands between angle brackets: the last part names the key,
/// whatever the case of its letters, the parts before it name the modifier
/// keys. `backtab` is a key with shift.
pub open spec fn bracketed_key(s: Seq<char>) -> Option<KeyPress> {
    let k = last_part_start(s, '-');
    let name = lowercase_text(s.skip(k));
    let held = if k > 0 {
        s.take(k - 1)
    } else {
        Seq::empty()
    };
    match named_key(name) {
        Some(key) => Some(
            KeyPress {
                key,
                ctrl: k > 0 && has_modifier(held, 'C'),
                alt: k > 0 && has_modifier(held, 'A'),
                shift: (k > 0 && has_modifier(held, 'S')) || name == "backtab"@,
            },
        ),
        None => None,
    }
}

/// The key that a text of the configuration stands for, white space around
/// it aside: a name with modifiers between angle brackets, or a single
/// ASCII character.
pub open spec fn key_spec(s: Seq<char>) -> Option<KeyPress> {
    let t = trimmed_text(s);
    if t.len() >= 2 && t[0] == '<' && t.last() == '>' {
        bracketed_key(t.subrange(1, t.len() - 1))
    } else if t.len() == 1 && t[0] <= '\u{7f}' {
        Some(plain(Key::Char(t[0])))
    } else {
        None
    }
}

/// The head of the text `<Enter>`.
pub open spec fn enter_mark() -> Seq<char> {
    "<Enter>"@
}

/// A text without the colons at its start.
pub open spec fn without_leading_colons(s: Seq<char>) -> Seq<char>
    decreases s.len(),
{
    if s.len() > 0 && s[0] == ':' {
        without_leading_colons(s.drop_first())
    } else {
        s
    }
}

/// A text without the colons at its end.
pub open spec fn without_trailing_colons(s: Seq<char>) -> Seq<char>
    decreases s.len(),
{
    if s.len() > 0 && s.last() == ':' {
        without_trailing_colons(s.drop_last())
    } else {
        s
    }
}

/// A text without `<Enter>` at its end, as often as it stands there.
pub open spec fn without_enter(s: Seq<char>) -> Seq<char>
    decreases s.len(),
{
    if s.len() >= 7 && s.skip(s.len() - 7) == enter_mark() {
        without_enter(s.take(s.len() - 7))
    } else {
        s
    }
}

/// The name of the command in a text of the configuration: white space and
/// colons around it aside, and `<Enter>` after it.
pub open spec fn command_text(s: Seq<char>) -> Seq<char> {
    without_enter(without_trailing_colons(without_leading_colons(trimmed_text(s))))
}

/// Whether a line of the configuration binds nothing by its form: it is
/// empty, or a comment, a variable or a section header.
pub open spec fn is_passed_over(line: Seq<char>) -> bool {
    line.len() == 0 || line[0] == '#' || line[0] == '$' || line[0] == '['
}

/// The binding that a line of the configuration makes, if it makes one.
pub open spec fn line_binding(line: Seq<char>) -> Option<(KeyPress, Command)> {
    let t = trimmed_text(line);
    let eq = first_mark(t, '=');
    if is_passed_over(t) || eq >= t.len() {
        None
    } else {
        match (key_spec(t.take(eq)), command_named(command_text(t.skip(eq + 1)))) {
            (Some(press), Some(command)) => Some((press, command)),
            _ => None,
        }
    }
}

/// The pairs with the binding of a line added, if it makes one.
pub open spec fn with_line(pairs: Seq<(KeyPress, Command)>, line: Seq<char>) -> Seq<
    (KeyPress, Command),
> {
    match line_binding(line) {
        Some(pair) => pairs.push(pair),
        None => pairs,
    }
}

/// The pairs after the lines of a configuration text were read, from the
/// first to the last.
pub open spec fn with_config(pairs: Seq<(KeyPress, Command)>, content: Seq<char>) -> Seq<
    (KeyPress, Command),
>
    decreases content.len(),
{
    if content.len() == 0 {
        pairs
    } else {
        let k = last_part_start(content, '\n');
        let before = if 0 < k <= content.len() {
            with_config(pairs, content.take(k - 1))
        } else {
            pairs
        };
        with_line(before, content.skip(k))
    }
}

/// No `mark` stands from the start of the last part on, and one stands just
/// before it, if anything does.
pub proof fn lemma_last_part_start_is(s: Seq<char>, mark: char, k: int)
    requires
        0 <= k <= s.len(),
        forall|j: int| k <= j < s.len() ==> #[trigger] s[j] != mark,
        k > 0 ==> s[k - 1] == mark,
    ensures
        last_part_start(s, mark) == k,
    decreases s.len(),
{
    if s.len() > 0 && k < s.len() {
        let rest = s.drop_last();
        lemma_last_part_start_is(rest, mark, k);
    }
}

/// Where the last part of the characters from `from` up to `to` starts,
/// `mark` parting the parts.
fn find_last_part(chars: &[char], from: usize, to: usize, mark: char) -> (k: usize)
    requires
        from <= to <= chars.len(),
    ensures
        from <= k <= to,
        k - from == last_part_start(chars@.subrange(from as int, to as int), mark),
{
    let ghost sub = chars@.subrange(from as int, to as int);
    let mut k: usize = to;
    while k > from && chars[k - 1] != mark
        invariant
            from <= k <= to <= chars.len(),
            sub == chars@.subrange(from as int, to as int),
            forall|j: int| k - from <= j < sub.len() ==> #[trigger] sub[j] != mark,
        decreases k,
    {
        k = k - 1;
    }
    proof {
        lemma_last_part_start_is(sub, mark, k - from);
    }
    k
}

/// Whether one of the parts of the characters from `from` up to `to`,
/// parted by `-`, is the letter `m` alone.
fn names_modifier(chars: &[char], from: usize, to: usize, m: char) -> (r: bool)
    requires
        from <= to <= chars.len(),
    ensures
        r == has_modifier(chars@.subrange(from as int, to as int), m),
    decreases to - from,
{
    let ghost sub = chars@.subrange(from as int, to as int);
    let k = find_last_part(chars, from, to, '-');
    proof {
        assert(sub.skip(k - from) =~= chars@.subrange(k as int, to as int));
        if k > from {
            assert(sub.take(k - from - 1) =~= chars@.subrange(from as int, k - 1));
        }
    }
    if to - k == 1 && chars[k] == m {
        assert(chars@.subrange(k as int, to as int) =~= seq![m]);
        true
    } else {
        assert(chars@.subrange(k as int, to as int) != seq![m]) by {
            if chars@.subrange(k as int, to as int) == seq![m] {
                assert(chars@.subrange(k as int, to as int)[0] == m);
            }
        }
        if k > from {
            names_modifier(chars, from, k - 1, m)
        } else {
            false
        }
    }
}

/// The key that a name between angle brackets stands for, the name being in
/// lower case already.
pub fn key_named(name: &str) -> (r: Option<Key>)
    ensures
        r == named_key(name@),
{
    if same_text(name, "esc") || same_text(name, "escape") {
        Some(Key::Esc)
    } else if same_text(name, "tab") {
        Some(Key::Tab)
    } else if same_text(name, "backtab") {
        Some(Key::BackTab)
    } else if same_text(name, "enter") || same_text(name, "return") {
        Some(Key::Enter)
    } else if same_text(name, "backspace") {
        Some(Key::Backspace)
    } else if same_text(name, "up") {
        Some(Key::Up)
    } else if same_text(name, "down") {
        Some(Key::Down)
    } else if same_text(name, "left") {
        Some(Key::Left)
    } else if same_text(name, "right") {
        Some(Key::Right)
    } else if same_text(name, "space") {
        Some(Key::Char(' '))
    } else {
        let chars = chars_of(name);
        if chars.len() == 1 && chars[0] <= '\u{7f}' {
            Some(Key::Char(chars[0]))
        } else {
            None
        }
    }
}

/// Reads what stands between angle brackets.
pub fn parse_bracketed_key(chars: &[char], from: usize, to: usize) -> (r: Option<KeyPress>)
    requires
        from <= to <= chars.len(),
    ensures
        r == bracketed_key(chars@.subrange(from as int, to as int)),
{
    let ghost sub = chars@.subrange(from as int, to as int);
    let k = find_last_part(chars, from, to, '-');
    proof {
        assert(sub.skip(k - from) =~= chars@.subrange(k as int, to as int));
        if k > from {
            assert(sub.take(k - from - 1) =~= chars@.subrange(from as int, k - 1));
        }
    }
    let name = to_lowercase(text_of(chars, k, to).as_str());
    let held = k > from;
    let with_ctrl = held && names_modifier(chars, from, k - 1, 'C');
    let with_alt = held && names_modifier(chars, from, k - 1, 'A');
    let with_shift = held && names_modifier(chars, from, k - 1, 'S');
    match key_named(name.as_str()) {
        Some(key) => Some(
            KeyPress {
                key,
                ctrl: with_ctrl,
                alt: with_alt,
                shift: with_shift || same_text(name.as_str(), "backtab"),
            },
        ),
        None => None,
    }
}

/// Reads the key that a text of the configuration stands for.
pub fn parse_key_spec(chars: &[char], from: usize, to: usize) -> (r: Option<KeyPress>)
    requires
        from <= to <= chars.len(),
    ensures
        r == key_spec(chars@.subrange(from as int, to as int)),
{
    let (a, b) = trim_range(chars, from, to);
    let ghost t = chars@.subrange(a as int, b as int);
    if b - a >= 2 && chars[a] == '<' && chars[b - 1] == '>' {
        assert(t.subrange(1, t.len() - 1) =~= chars@.subrange(a + 1, b - 1));
        parse_bracketed_key(chars, a + 1, b - 1)
    } else if b - a == 1 && chars[a] <= '\u{7f}' {
        Some(key(Key::Char(chars[a])))
    } else {
        None
    }
}

/// The bounds of the name of the command among the characters from `from`
/// up to `to`.
fn command_range(chars: &[char], from: usize, to: usize) -> (r: (usize, usize))
    requires
        from <= to <= chars.len(),
    ensures
        from <= r.0 <= r.1 <= to,
        chars@.subrange(r.0 as int, r.1 as int) == command_text(
            chars@.subrange(from as int, to as int),
        ),
{
    let (start, end) = trim_range(chars, from, to);
    let ghost t = chars@.subrange(start as int, end as int);
    let mut a: usize = start;
    while a < end && chars[a] == ':'
        invariant
            start <= a <= end <= chars.len(),
            without_leading_colons(chars@.subrange(a as int, end as int))
                == without_leading_colons(t),
        decreases end - a,
    {
        assert(chars@.subrange(a as int, end as int).drop_first() =~= chars@.subrange(
            a + 1,
            end as int,
        ));
        a = a + 1;
    }
    let ghost led = chars@.subrange(a as int, end as int);
    let mut b: usize = end;
    while b > a && chars[b - 1] == ':'
        invariant
            a <= b <= end <= chars.len(),
            without_trailing_colons(chars@.subrange(a as int, b as int))
                == without_trailing_colons(led),
        decreases b,
    {
        assert(chars@.subrange(a as int, b as int).drop_last() =~= chars@.subrange(
            a as int,
            b - 1,
        ));
        b = b - 1;
    }
    let ghost bare = chars@.subrange(a as int, b as int);
    proof {
        reveal_strlit("<Enter>");
    }
    while b - a >= 7 && chars[b - 7] == '<' && chars[b - 6] == 'E' && chars[b - 5] == 'n'
        && chars[b - 4] == 't' && chars[b - 3] == 'e' && chars[b - 2] == 'r' && chars[b - 1]
        == '>'
        invariant
            a <= b <= end <= chars.len(),
            without_enter(chars@.subrange(a as int, b as int)) == without_enter(bare),
            enter_mark() == seq!['<', 'E', 'n', 't', 'e', 'r', '>'],
        decreases b,
    {
        let ghost cur = chars@.subrange(a as int, b as int);
        assert(cur.skip(cur.len() - 7) =~= enter_mark());
        assert(cur.take(cur.len() - 7) =~= chars@.subrange(a as int, b - 7));
        b = b - 7;
    }
    (a, b)
}

/// Reads the binding that a line of the configuration makes, if it makes
/// one.
pub fn parse_line(chars: &[char], from: usize, to: usize) -> (r: Option<(KeyPress, Command)>)
    requires
        from <= to <= chars.len(),
    ensures
        r == line_binding(chars@.subrange(from as int, to as int)),
{
    let (a, b) = trim_range(chars, from, to);
    let ghost t = chars@.subrange(a as int, b as int);
    if a == b || chars[a] == '#' || chars[a] == '$' || chars[a] == '[' {
        return None;
    }
    let eq = find_first_mark(chars, a, b, '=');
    if eq >= b {
        return None;
    }
    proof {
        assert(t.take(eq - a) =~= chars@.subrange(a as int, eq as int));
        assert(t.skip(eq - a + 1) =~= chars@.subrange(eq + 1, b as int));
    }
    let press = parse_key_spec(chars, a, eq);
    let (c, d) = command_range(chars, eq + 1, b);
    let command = Command::from_name(text_of(chars, c, d).as_str());
    match (press, command) {
        (Some(p), Some(c)) => Some((p, c)),
        _ => None,
    }
}

impl View for KeyBindings {
    type V = Seq<(KeyPress, Command)>;

    open spec fn view(&self) -> Seq<(KeyPress, Command)> {
        self.bindings@
    }
}

/// The command that a key pressed gives under the pairs: a digit or the
/// decimal point is itself a command, whatever is held with it; any other
/// key gives what it is bound to.
pub open spec fn command_for(pairs: Seq<(KeyPress, Command)>, press: KeyPress) -> Option<
    Command,
> {
    match press.key {
        Key::Char(ch) => if is_digit(ch) || ch == '.' {
            Some(Command::Digit(ch))
        } else {
            bound(pairs, press)
        },
        _ => bound(pairs, press),
    }
}

impl KeyBindings {
    /// The bindings that hold without a configuration.
    pub fn defaults() -> (r: KeyBindings)
        ensures
            r@ == default_pairs(),
    {
        let mut bindings: Vec<(KeyPress, Command)> = Vec::new();
        bindings.push((key(Key::Esc), Command::Quit));
        bindings.push((key(Key::Char('q')), Command::Quit));
        bindings.push((ctrl(Key::Char('c')), Command::Quit));
        bindings.push((key(Key::Char('n')), Command::NextExercise));
        bindings.push((key(Key::Char('e')), Command::PrevExercise));
        bindings.push((key(Key::Down), Command::NextField));
        bindings.push((key(Key::Up), Command::PrevField));
        bindings.push((key(Key::Left), Command::MoveLeft));
        bindings.push((key(Key::Right), Command::MoveRight));
        bindings.push((key(Key::Tab), Command::NextSet));
        bindings.push((shift(Key::BackTab), Command::PrevSet));
        bindings.push((key(Key::Char('w')), Command::BumpWeightUp));
        bindings.push((key(Key::Char('f')), Command::BumpWeightDown));
        bindings.push((key(Key::Backspace), Command::Backspace));
        KeyBindings { bindings }
    }

    /// Reads the lines of a configuration text and adds the bindings they
    /// make.
    pub fn apply_config(&mut self, content: &str)
        ensures
            final(self)@ == with_config(old(self)@, content@),
    {
        let chars = chars_of(content);
        let n = chars.len();
        if n == 0 {
            return ;
        }
        let mut pos: usize = 0;
        let ghost all = chars@;
        loop
            invariant_except_break
                pos > 0 ==> all[pos - 1] == '\n',
                self@ == if pos > 0 {
                    with_config(old(self)@, all.take(pos - 1))
                } else {
                    old(self)@
                },
            invariant
                pos <= n,
                n == chars.len(),
                n > 0,
                all == chars@,
                all == content@,
            ensures
                self@ == with_config(old(self)@, all),
            decreases n - pos,
        {
            let end = find_first_mark(chars.as_slice(), pos, n, '\n');
            let ghost upto = all.take(end as int);
            proof {
                lemma_first_mark(all.subrange(pos as int, n as int), '\n');
                assert forall|j: int| pos <= j < end implies #[trigger] upto[j] != '\n' by {
                    assert(all.subrange(pos as int, n as int)[j - pos] == all[j]);
                }
                lemma_last_part_start_is(upto, '\n', pos as int);
                assert(upto.skip(pos as int) =~= all.subrange(pos as int, end as int));
                if pos > 0 {
                    assert(upto.take(pos - 1) =~= all.take(pos - 1));
                }
            }
            match parse_line(chars.as_slice(), pos, end) {
                Some(pair) => {
                    self.bindings.push(pair);
                },
                None => {},
            }
            if end >= n {
                assert(upto =~= all);
                break ;
            }
            pos = end + 1;
        }
    }

    /// The default bindings with those of a configuration text added.
    pub fn from_config(content: &str) -> (r: KeyBindings)
        ensures
            r@ == with_config(default_pairs(), content@),
    {
        let mut r = KeyBindings::defaults();
        r.apply_config(content);
        r
    }

    /// The command that a key pressed gives.
    pub fn get(&self, press: KeyPress) -> (r: Option<Command>)
        ensures
            r == command_for(self@, press),
    {
        match press.key {
            Key::Char(ch) => {
                if char_is_digit(ch) || ch == '.' {
                    return Some(Command::Digit(ch));
                }
            },
            _ => {},
        }
        let mut i: usize = self.bindings.len();
        assert(self@.take(i as int) =~= self@);
        while i > 0
            invariant
                i <= self.bindings.len(),
                command_for(self@, press) == bound(self@, press),
                bound(self@, press) == bound(self@.take(i as int), press),
            decreases i,
        {
            assert(self@.take(i as int).drop_last() =~= self@.take(i - 1));
            if same_press(self.bindings[i - 1].0, press) {
                return Some(self.bindings[i - 1].1);
            }
            i = i - 1;
        }
        None
    }
}

/// Whether two keys pressed are the same key with the same modifiers.
fn same_press(a: KeyPress, b: KeyPress) -> (r: bool)
    ensures
        r == (a == b),
{
    a.key == b.key && a.ctrl == b.ctrl && a.alt == b.alt && a.shift == b.shift
}

} // verus!
