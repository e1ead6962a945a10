//! The service's side of signing in: the user a session speaks for, what
//! goes wrong, how a session token is written, and when the one-time
//! password of a user is asked for.

use vstd::prelude::*;
use vstd::string::*;
use crate::sync::joined;
use crate::text::push_char;

verus! {

/// A user as the service holds it.
#[derive(Debug, Clone)]
pub struct AuthUser {
    pub id: i64,
    pub username: String,
    pub password_hash: String,
    pub totp_secret: String,
    pub totp_enabled: bool,
}

/// What can go wrong with a request to the service.
#[derive(Debug)]
pub enum Error {
    Unauthorized,
    NotFound(String),
    BadRequest(String),
    Internal(String),
}

/// What an [`Error`] holds, as mathematics.
pub ghost enum ErrorModel {
    Unauthorized,
    NotFound(Seq<char>),
    BadRequest(Seq<char>),
    Internal(Seq<char>),
}

impl View for Error {
    type V = ErrorModel;

    open spec fn view(&self) -> ErrorModel {
        match *self {
            Error::Unauthorized => ErrorModel::Unauthorized,
            Error::NotFound(msg) => ErrorModel::NotFound(msg@),
            Error::BadRequest(msg) => ErrorModel::BadRequest(msg@),
            Error::Internal(msg) => ErrorModel::Internal(msg@),
        }
    }
}

impl ErrorModel {
    /// The HTTP status that tells the error.
    pub open spec fn status(self) -> u16 {
        match self {
            ErrorModel::Unauthorized => 401,
            ErrorModel::NotFound(_) => 404,
            ErrorModel::BadRequest(_) => 400,
            ErrorModel::Internal(_) => 500,
        }
    }

    /// The text that tells the error.
    pub open spec fn message(self) -> Seq<char> {
        match self {
            ErrorModel::Unauthorized => "unauthorized"@,
            ErrorModel::NotFound(msg) => "not found: "@ + msg,
            ErrorModel::BadRequest(msg) => "bad request: "@ + msg,
            ErrorModel::Internal(msg) => "internal error: "@ + msg,
        }
    }
}

impl Error {
    /// The HTTP status that tells the error.
    pub fn status(&self) -> (code: u16)
        ensures
            code == self@.status(),
    {
        match self {
            Error::Unauthorized => 401,
            Error::NotFound(_) => 404,
            Error::BadRequest(_) => 400,
            Error::Internal(_) => 500,
        }
    }

    /// The text that tells the error.
    pub fn message(&self) -> (out: String)
        ensures
            out@ == self@.message(),
    {
        match self {
            Error::Unauthorized => String::from_str("unauthorized"),
            Error::NotFound(msg) => joined("not found: ", msg.as_str()),
            Error::BadRequest(msg) => joined("bad request: ", msg.as_str()),
            Error::Internal(msg) => joined("internal error: ", msg.as_str()),
        }
    }
}

/// The lower-case hexadecimal digit for a value below 16.
pub open spec fn hex_lower(n: nat) -> char
    recommends
        n < 16,
{
    if n < 10 {
        (('0' as nat + n) as u8) as char
    } else {
        (('a' as nat + n - 10) as u8) as char
    }
}

/// The bytes in hexadecimal: for each byte its two lower-case digits, the
/// higher one first.
pub open spec fn hex_text(bytes: Seq<u8>) -> Seq<char> {
    Seq::new(
        2 * bytes.len(),
        |i: int|
            if i % 2 == 0 {
                hex_lower((bytes[i / 2] / 16) as nat)
            } else {
                hex_lower((bytes[i / 2] % 16) as nat)
            },
    )
}

/// The lower-case hexadecimal digit for a value below 16.
fn hex_digit(n: u8) -> (ch: char)
    requires
        n < 16,
    ensures
        ch == hex_lower(n as nat),
{
    if n < 10 {
        (48 + n) as char
    } else {
        (87 + n) as char
    }
}

/// Writes the 32 bytes of a session token in hexadecimal: 64 characters,
/// two lower-case digits for each byte.
pub fn encode(bytes: [u8; 32]) -> (out: String)
    ensures
        out@ == hex_text(bytes@),
        out@.len() == 64,
        forall|i: int|
            0 <= i < 32 ==> out@[2 * i] == hex_lower((#[trigger] bytes@[i] / 16) as nat) && out@[2
                * i + 1] == hex_lower((bytes@[i] % 16) as nat),
{
    let mut out = String::new();
    let mut i: usize = 0;
    while i < 32
        invariant
            i <= 32,
            out@ == hex_text(bytes@.take(i as int)),
        decreases 32 - i,
    {
        let b = bytes[i];
        let ghost before = out@;
        push_char(&mut out, hex_digit(b / 16));
        push_char(&mut out, hex_digit(b % 16));
        i = i + 1;
        assert(out@ =~= hex_text(bytes@.take(i as int))) by {
            assert(before.len() == 2 * (i - 1));
            assert forall|k: int| 0 <= k < 2 * i implies out@[k] == hex_text(
                bytes@.take(i as int),
            )[k] by {
                if k < 2 * (i - 1) {
                    assert(out@[k] == before[k]);
                    assert(bytes@.take(i as int)[k / 2] == bytes@.take(i - 1)[k / 2]);
                }
            }
        }
    }
    assert(bytes@.take(32) =~= bytes@);
    assert forall|i: int| 0 <= i < 32 implies out@[2 * i] == hex_lower(
        (#[trigger] bytes@[i] / 16) as nat,
    ) && out@[2 * i + 1] == hex_lower((bytes@[i] % 16) as nat) by {
        assert((2 * i) / 2 == i && (2 * i + 1) / 2 == i);
    }
    out
}

/// What is left to check of a sign-in once it is known that the one-time
/// password is asked for: the code given, against the secret of the user.
#[derive(Debug)]
pub struct TotpCheck {
    pub secret: String,
    pub code: String,
}

/// Decides whether the one-time password of a sign-in is to be checked. A
/// user who has not enabled it is refused, and so is a sign-in without a
/// code. Else the code is to be checked against the secret of the user.
pub fn enforce_totp(user: &AuthUser, code: Option<&str>) -> (r: Result<TotpCheck, Error>)
    ensures
        r is Ok <==> user.totp_enabled && code is Some,
        r is Ok ==> r->Ok_0.secret@ == user.totp_secret@ && r->Ok_0.code@ == code->0@,
        r is Err ==> r->Err_0@ == ErrorModel::Unauthorized,
{
    if !user.totp_enabled {
        return Err(Error::Unauthorized);
    }
    match code {
        Some(given) => Ok(
            TotpCheck { secret: user.totp_secret.clone(), code: String::from_str(given) },
        ),
        None => Err(Error::Unauthorized),
    }
}

} // verus!
