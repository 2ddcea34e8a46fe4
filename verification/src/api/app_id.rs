//! The identity that the client shows on every request: a version that
//! never changes, and a token that changes once an hour.

use vstd::prelude::*;
use vstd::string::*;
use crate::text::{hex_char, hex_digit, push_char};

verus! {

/// How long one token stays the same, in seconds.
pub const WINDOW_SECONDS: u64 = 3600;

/// The modulus of the token arithmetic, the largest prime below 2^32.
pub const TOKEN_MODULUS: u64 = 4294967291;

/// The multiplier of the token arithmetic.
pub const TOKEN_MULTIPLIER: u64 = 2654435761;

/// The salt of the token arithmetic.
pub const TOKEN_SALT: u64 = 1013904223;

/// Why no token could be made.
#[derive(Debug, Clone, Copy, PartialEq, Eq, Structural)]
pub enum SigningError {
    /// The moment lies before the first of January 1970.
    BeforeEpoch,
}

/// The window that the moment `now` falls in; `now` counts the seconds
/// since the first of January 1970, and windows are counted from there.
pub open spec fn window_of(now: int) -> int {
    now / (WINDOW_SECONDS as int)
}

/// The number that the token of a window shows.
pub open spec fn token_number(window: int) -> int {
    ((window % (TOKEN_MODULUS as int)) * (TOKEN_MULTIPLIER as int) + (TOKEN_SALT as int)) % (
    TOKEN_MODULUS as int)
}

/// The eight hexadecimal digits of a number below 2^32, the highest first.
pub open spec fn hex8(v: nat) -> Seq<char> {
    seq![
        hex_char(v / 0x10000000 % 16),
        hex_char(v / 0x1000000 % 16),
        hex_char(v / 0x100000 % 16),
        hex_char(v / 0x10000 % 16),
        hex_char(v / 0x1000 % 16),
        hex_char(v / 0x100 % 16),
        hex_char(v / 0x10 % 16),
        hex_char(v % 16),
    ]
}

/// The token of the moment `now`: it depends on the window of `now` and on
/// nothing else.
pub open spec fn identity_token(now: int) -> Seq<char> {
    hex8(token_number(window_of(now)) as nat)
}

/// A character that may stand in the value of a header: visible ASCII, a
/// blank or a tab.
pub open spec fn header_safe_char(c: char) -> bool {
    (32 <= c as u32 && (c as u32) < 127) || c as u32 == 9
}

/// A text that may stand as the value of a header.
pub open spec fn header_safe(s: Seq<char>) -> bool {
    forall|i: int| 0 <= i < s.len() ==> header_safe_char(#[trigger] s[i])
}

/// The token of the moment `now`, given in seconds since the first of
/// January 1970. No token is made for a moment before that.
pub fn calculate_app_id(now: i64) -> (r: Result<String, SigningError>)
    ensures
        now < 0 ==> r == Err::<String, SigningError>(SigningError::BeforeEpoch),
        now >= 0 ==> r is Ok && r->Ok_0@ == identity_token(now as int),
{
    if now < 0 {
        return Err(SigningError::BeforeEpoch);
    }
    let window: u64 = (now as u64) / WINDOW_SECONDS;
    let reduced: u64 = window % TOKEN_MODULUS;
    assert(reduced * TOKEN_MULTIPLIER + TOKEN_SALT <= u64::MAX) by (nonlinear_arith)
        requires
            reduced < 4294967291,
            TOKEN_MULTIPLIER == 2654435761,
            TOKEN_SALT == 1013904223,
    ;
    let v: u64 = (reduced * TOKEN_MULTIPLIER + TOKEN_SALT) % TOKEN_MODULUS;
    assert(v as int == token_number(window_of(now as int)));
    let mut out = String::new();
    push_char(&mut out, hex_digit(v / 0x10000000 % 16));
    push_char(&mut out, hex_digit(v / 0x1000000 % 16));
    push_char(&mut out, hex_digit(v / 0x100000 % 16));
    push_char(&mut out, hex_digit(v / 0x10000 % 16));
    push_char(&mut out, hex_digit(v / 0x1000 % 16));
    push_char(&mut out, hex_digit(v / 0x100 % 16));
    push_char(&mut out, hex_digit(v / 0x10 % 16));
    push_char(&mut out, hex_digit(v % 16));
    assert(out@ =~= hex8(v as nat));
    Ok(out)
}

/// The text of the client version.
pub open spec fn app_version_text() -> Seq<char> {
    "12.4.1"@
}

/// The version of the client that the requests speak for.
pub fn app_version() -> (r: String)
    ensures
        r@ == app_version_text(),
{
    String::from_str("12.4.1")
}

/// Two moments in one window have the same token.
pub proof fn lemma_token_stable_in_window(t1: int, t2: int)
    requires
        window_of(t1) == window_of(t2),
    ensures
        identity_token(t1) == identity_token(t2),
{
}

/// The token does not change before its hour is over: every moment has the
/// token of the start of its window.
pub proof fn lemma_token_of_window_start(now: int)
    requires
        now >= 0,
    ensures
        identity_token(now) == identity_token(now - now % (WINDOW_SECONDS as int)),
        now - now % (WINDOW_SECONDS as int) == window_of(now) * (WINDOW_SECONDS as int),
{
    let start = now - now % 3600;
    assert(start / 3600 == now / 3600 && start == (now / 3600) * 3600) by (nonlinear_arith)
        requires
            now >= 0,
            start == now - now % 3600,
    ;
}

/// Every token has eight characters, each of them fit for a header.
pub proof fn lemma_token_is_header_safe(now: int)
    ensures
        identity_token(now).len() == 8,
        header_safe(identity_token(now)),
{
    let t = identity_token(now);
    assert forall|i: int| 0 <= i < t.len() implies header_safe_char(#[trigger] t[i]) by {
        lemma_hex_char_is_header_safe();
    }
}

/// Every hexadecimal digit is fit for a header.
pub proof fn lemma_hex_char_is_header_safe()
    ensures
        forall|d: nat| header_safe_char(#[trigger] hex_char(d)),
{
}

} // verus!
