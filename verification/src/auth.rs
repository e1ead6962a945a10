//! The sign-in form: its fields, the one-time-password secret, and the URL
//! that carries the secret to an authenticator.

use vstd::prelude::*;
use vstd::string::*;
use crate::text::{pop_char, push_char, trim_text, trimmed_text, without_last};

verus! {

/// The field of the sign-in form that takes the keystrokes.
#[derive(Debug, Clone, Copy, PartialEq, Eq, Structural)]
pub enum AuthField {
    Username,
    Password,
    Totp,
}

/// The sign-in form.
pub struct AuthState {
    pub register_mode: bool,
    pub username: String,
    pub password: String,
    pub totp_code: String,
    pub totp_secret: String,
    pub status: String,
    pub field: AuthField,
    pub submitting: bool,
}

/// What an [`AuthState`] holds, as mathematics.
pub ghost struct AuthModel {
    pub register_mode: bool,
    pub username: Seq<char>,
    pub password: Seq<char>,
    pub totp_code: Seq<char>,
    pub totp_secret: Seq<char>,
    pub status: Seq<char>,
    pub field: AuthField,
    pub submitting: bool,
}

impl View for AuthState {
    type V = AuthModel;

    open spec fn view(&self) -> AuthModel {
        AuthModel {
            register_mode: self.register_mode,
            username: self.username@,
            password: self.password@,
            totp_code: self.totp_code@,
            totp_secret: self.totp_secret@,
            status: self.status@,
            field: self.field,
            submitting: self.submitting,
        }
    }
}

/// What `base32::encode` writes for these bytes in the RFC 4648 alphabet
/// without padding.
pub uninterp spec fn base32_text(bytes: Seq<u8>) -> Seq<char>;

/// How many random bytes make a secret.
pub const SECRET_BYTES: usize = 20;

/// Asks the operating system for `count` random bytes through
/// `rand::rngs::OsRng`. Trusted: what comes back, if anything does, is
/// `count` bytes long. `None` when the system gives no randomness.
#[verifier::external_body]
fn random_bytes(count: usize) -> (r: Option<Vec<u8>>)
    ensures
        r is Some ==> r->0@.len() == count,
{
    let mut bytes = vec![0u8; count];
    match rand::RngCore::try_fill_bytes(&mut rand::rngs::OsRng, &mut bytes) {
        Ok(()) => Some(bytes),
        Err(_) => None,
    }
}

/// Encodes bytes with `base32::encode` in the RFC 4648 alphabet without
/// padding. Trusted: the text depends on the bytes alone.
#[verifier::external_body]
fn base32_encode(bytes: &[u8]) -> (out: String)
    ensures
        out@ == base32_text(bytes@),
{
    base32::encode(base32::Alphabet::Rfc4648 { padding: false }, bytes)
}

/// Whether `secret` is the text of 20 bytes.
pub open spec fn is_secret(secret: Seq<char>) -> bool {
    exists|bytes: Seq<u8>| bytes.len() == SECRET_BYTES && secret == base32_text(bytes)
}

/// A fresh one-time-password secret: 20 random bytes as text. `None` when
/// the system gives no randomness.
pub fn generate_totp_secret() -> (r: Option<String>)
    ensures
        r is Some ==> is_secret(r->0@),
{
    secret_from(random_bytes(SECRET_BYTES))
}

/// A control character: U+0000 to U+001F and U+007F to U+009F.
pub open spec fn is_control(ch: char) -> bool {
    ch <= '\u{1f}' || ('\u{7f}' <= ch <= '\u{9f}')
}

/// Decides [`is_control`].
pub fn char_is_control(ch: char) -> (r: bool)
    ensures
        r == is_control(ch),
{
    ch <= '\u{1f}' || ('\u{7f}' <= ch && ch <= '\u{9f}')
}

/// A byte that a URL takes as it is: an ASCII letter or digit, or one of
/// `-`, `_`, `.` and `~`.
pub open spec fn is_unreserved(b: u8) -> bool {
    (0x61 <= b <= 0x7a) || (0x41 <= b <= 0x5a) || (0x30 <= b <= 0x39) || b == 0x2d || b == 0x5f
        || b == 0x2e || b == 0x7e
}

/// The upper-case hexadecimal digit for a value below 16.
pub open spec fn hex_upper(n: nat) -> char
    recommends
        n < 16,
{
    if n < 10 {
        (('0' as nat + n) as u8) as char
    } else {
        (('A' as nat + n - 10) as u8) as char
    }
}

/// What a URL holds for one byte: the byte itself if unreserved, else `%`
/// and its two hexadecimal digits.
pub open spec fn url_encoded_byte(b: u8) -> Seq<char> {
    if is_unreserved(b) {
        seq![b as char]
    } else {
        seq!['%', hex_upper((b / 16) as nat), hex_upper((b % 16) as nat)]
    }
}

/// What a URL holds for a run of bytes.
pub open spec fn url_encoded_bytes(bytes: Seq<u8>) -> Seq<char>
    decreases bytes.len(),
{
    if bytes.len() == 0 {
        Seq::empty()
    } else {
        url_encoded_bytes(bytes.drop_last()) + url_encoded_byte(bytes.last())
    }
}

/// What a URL holds for a text: its UTF-8 form, byte for byte.
pub open spec fn url_encoded(s: Seq<char>) -> Seq<char> {
    url_encoded_bytes(vstd::utf8::encode_utf8(s))
}

/// The upper-case hexadecimal digit for a value below 16.
fn hex_digit(n: u8) -> (ch: char)
    requires
        n < 16,
    ensures
        ch == hex_upper(n as nat),
{
    if n < 10 {
        (48 + n) as char
    } else {
        (55 + n) as char
    }
}

/// Percent-encodes a text for a URL.
pub fn url_encode(s: &str) -> (out: String)
    ensures
        out@ == url_encoded(s@),
{
    let bytes = s.as_bytes();
    let n = bytes.len();
    let mut out = String::new();
    let mut i: usize = 0;
    while i < n
        invariant
            i <= n,
            n == bytes.len(),
            out@ == url_encoded_bytes(bytes@.take(i as int)),
        decreases n - i,
    {
        let b = bytes[i];
        assert(bytes@.take(i + 1).drop_last() =~= bytes@.take(i as int));
        if (97 <= b && b <= 122) || (65 <= b && b <= 90) || (48 <= b && b <= 57) || b == 45 || b
            == 95 || b == 46 || b == 126 {
            push_char(&mut out, b as char);
        } else {
            push_char(&mut out, '%');
            push_char(&mut out, hex_digit(b / 16));
            push_char(&mut out, hex_digit(b % 16));
        }
        i = i + 1;
    }
    assert(bytes@.take(n as int) =~= bytes@);
    out
}

/// The field after `field`, going round.
pub open spec fn field_after(field: AuthField) -> AuthField {
    match field {
        AuthField::Username => AuthField::Password,
        AuthField::Password => AuthField::Totp,
        AuthField::Totp => AuthField::Username,
    }
}

/// The field before `field`, going round.
pub open spec fn field_before(field: AuthField) -> AuthField {
    match field {
        AuthField::Username => AuthField::Totp,
        AuthField::Password => AuthField::Username,
        AuthField::Totp => AuthField::Password,
    }
}

impl AuthModel {
    /// The form as it starts: registering, all fields empty but the secret,
    /// the username focused.
    pub open spec fn fresh(secret: Seq<char>) -> AuthModel {
        AuthModel {
            register_mode: true,
            username: Seq::empty(),
            password: Seq::empty(),
            totp_code: Seq::empty(),
            totp_secret: secret,
            status: Seq::empty(),
            field: AuthField::Username,
            submitting: false,
        }
    }

    /// The name under which the authenticator files the secret: `ekman`, and
    /// the username after a colon if there is one.
    pub open spec fn label(self) -> Seq<char> {
        let name = trimmed_text(self.username);
        if name.len() == 0 {
            "ekman"@
        } else {
            "ekman:"@ + name
        }
    }

    /// The URL that carries the secret to an authenticator.
    pub open spec fn otpauth_url(self) -> Seq<char> {
        "otpauth://totp/"@ + url_encoded(self.label()) + "?secret="@ + self.totp_secret
            + "&issuer=ekman&algorithm=SHA1&digits=6&period=30"@
    }

    /// The form with the secret replaced by `secret`.
    pub open spec fn with_secret(self, secret: Seq<char>) -> AuthModel {
        AuthModel { totp_secret: secret, ..self }
    }

    /// The form with the next field focused, going round.
    pub open spec fn next_field(self) -> AuthModel {
        AuthModel { field: field_after(self.field), ..self }
    }

    /// The form with the field before focused, going round.
    pub open spec fn prev_field(self) -> AuthModel {
        AuthModel { field: field_before(self.field), ..self }
    }

    /// The form after the keystroke `ch`: appended to the focused field,
    /// unless it is a control character.
    pub open spec fn push_char(self, ch: char) -> AuthModel {
        if is_control(ch) {
            self
        } else {
            match self.field {
                AuthField::Username => AuthModel { username: self.username.push(ch), ..self },
                AuthField::Password => AuthModel { password: self.password.push(ch), ..self },
                AuthField::Totp => AuthModel { totp_code: self.totp_code.push(ch), ..self },
            }
        }
    }

    /// The form after a backspace in the focused field.
    pub open spec fn backspace(self) -> AuthModel {
        match self.field {
            AuthField::Username => AuthModel { username: without_last(self.username), ..self },
            AuthField::Password => AuthModel { password: without_last(self.password), ..self },
            AuthField::Totp => AuthModel { totp_code: without_last(self.totp_code), ..self },
        }
    }

    /// The form switched to registering or signing in: nothing changes if it
    /// is in that mode; else the code and the status are cleared, the
    /// username is focused, and registering takes the secret `secret`.
    pub open spec fn set_mode(self, register: bool, secret: Seq<char>) -> AuthModel {
        if self.register_mode == register {
            self
        } else {
            AuthModel {
                register_mode: register,
                totp_code: Seq::empty(),
                status: Seq::empty(),
                field: AuthField::Username,
                totp_secret: if register {
                    secret
                } else {
                    self.totp_secret
                },
                ..self
            }
        }
    }
}

impl AuthState {
    /// The form as it starts, with the secret given.
    pub fn with_secret(secret: String) -> (r: AuthState)
        ensures
            r@ == AuthModel::fresh(secret@),
    {
        AuthState {
            register_mode: true,
            username: String::new(),
            password: String::new(),
            totp_code: String::new(),
            totp_secret: secret,
            status: String::new(),
            field: AuthField::Username,
            submitting: false,
        }
    }

    /// The form as it starts, with a fresh secret. The secret is empty when
    /// the system gives no randomness.
    pub fn new() -> (r: AuthState)
        ensures
            r@ == AuthModel::fresh(r@.totp_secret),
            is_secret(r@.totp_secret) || r@.totp_secret.len() == 0,
    {
        match generate_totp_secret() {
            Some(secret) => AuthState::with_secret(secret),
            None => AuthState::with_secret(String::new()),
        }
    }

    /// The URL that carries the secret to an authenticator.
    pub fn otpauth_url(&self) -> (url: String)
        ensures
            url@ == self@.otpauth_url(),
    {
        let name = trim_text(self.username.as_str());
        let mut label = String::from_str("ekman");
        if name.as_str().unicode_len() != 0 {
            label = String::from_str("ekman:");
            label.append(name.as_str());
        }
        let mut url = String::from_str("otpauth://totp/");
        url.append(url_encode(label.as_str()).as_str());
        url.append("?secret=");
        url.append(self.totp_secret.as_str());
        url.append("&issuer=ekman&algorithm=SHA1&digits=6&period=30");
        url
    }

    /// Focuses the next field, going round.
    pub fn next_field(&mut self)
        ensures
            final(self)@ == old(self)@.next_field(),
    {
        self.field = match self.field {
            AuthField::Username => AuthField::Password,
            AuthField::Password => AuthField::Totp,
            AuthField::Totp => AuthField::Username,
        };
    }

    /// Focuses the field before, going round.
    pub fn prev_field(&mut self)
        ensures
            final(self)@ == old(self)@.prev_field(),
    {
        self.field = match self.field {
            AuthField::Username => AuthField::Totp,
            AuthField::Password => AuthField::Username,
            AuthField::Totp => AuthField::Password,
        };
    }

    /// Appends `ch` to the focused field, unless it is a control character.
    pub fn push_char(&mut self, ch: char)
        ensures
            final(self)@ == old(self)@.push_char(ch),
    {
        if char_is_control(ch) {
            return ;
        }
        match self.field {
            AuthField::Username => push_char(&mut self.username, ch),
            AuthField::Password => push_char(&mut self.password, ch),
            AuthField::Totp => push_char(&mut self.totp_code, ch),
        }
    }

    /// Removes the last character of the focused field.
    pub fn backspace(&mut self)
        ensures
            final(self)@ == old(self)@.backspace(),
    {
        match self.field {
            AuthField::Username => {
                let _ = pop_char(&mut self.username);
            },
            AuthField::Password => {
                let _ = pop_char(&mut self.password);
            },
            AuthField::Totp => {
                let _ = pop_char(&mut self.totp_code);
            },
        }
    }

    /// Replaces the secret by a fresh one and tells whether one was drawn.
    /// The secret stays as it is when the system gives no randomness.
    pub fn regenerate_secret(&mut self) -> (drawn: bool)
        ensures
            final(self)@ == old(self)@.with_secret(final(self)@.totp_secret),
            drawn ==> is_secret(final(self)@.totp_secret),
            !drawn ==> final(self)@ == old(self)@,
    {
        self.take_secret(generate_totp_secret())
    }

    /// Switches between registering and signing in. Switching to
    /// registering draws a fresh secret. Tells whether the switch was made
    /// in full: it was not only where a secret was to be drawn and the
    /// system gave no randomness, and then the secret stays as it is.
    pub fn set_mode(&mut self, register: bool) -> (served: bool)
        ensures
            final(self)@ == old(self)@.set_mode(register, final(self)@.totp_secret),
            served || old(self)@.draws_secret_for(register),
            served && old(self)@.draws_secret_for(register) ==> is_secret(
                final(self)@.totp_secret,
            ),
            !served ==> final(self)@.totp_secret == old(self)@.totp_secret,
    {
        if self.register_mode == register {
            return true;
        }
        self.register_mode = register;
        self.totp_code = String::new();
        self.status = String::new();
        self.field = AuthField::Username;
        if register {
            self.regenerate_secret()
        } else {
            true
        }
    }
}

/// The secret that the bytes drawn make: their text, if any were drawn.
pub open spec fn secret_of(drawn: Option<Vec<u8>>) -> Option<Seq<char>> {
    match drawn {
        Some(bytes) => Some(base32_text(bytes@)),
        None => None,
    }
}

/// Makes the secret of the bytes drawn: their text in base 32, and no
/// secret where no bytes were drawn.
pub fn secret_from(drawn: Option<Vec<u8>>) -> (r: Option<String>)
    ensures
        r is Some <==> drawn is Some,
        r is Some ==> Some(r->0@) == secret_of(drawn),
{
    match drawn {
        Some(bytes) => Some(base32_encode(bytes.as_slice())),
        None => None,
    }
}

impl AuthModel {
    /// Whether a switch to registering, or to signing in, draws a secret:
    /// the switch to registering does, from signing in.
    pub open spec fn draws_secret_for(self, register: bool) -> bool {
        register && !self.register_mode
    }

    /// The form after a secret was drawn for it: it holds the secret drawn,
    /// and stays as it is where none was drawn.
    pub open spec fn take_secret(self, drawn: Option<Seq<char>>) -> AuthModel {
        match drawn {
            Some(secret) => self.with_secret(secret),
            None => self,
        }
    }
}

impl AuthState {
    /// Takes the secret drawn for the form, if one was drawn, and tells
    /// whether one was.
    pub fn take_secret(&mut self, drawn: Option<String>) -> (taken: bool)
        ensures
            final(self)@ == old(self)@.take_secret(
                match drawn {
                    Some(secret) => Some(secret@),
                    None => None,
                },
            ),
            taken == drawn is Some,
    {
        match drawn {
            Some(secret) => {
                self.totp_secret = secret;
                true
            },
            None => false,
        }
    }
}

} // verus!
