//! Text building blocks: decimal and hexadecimal digits, JSON object
//! members and lists, each with its mathematical model.

use vstd::prelude::*;
use vstd::string::*;
use crate::json::{json_string, quote};

verus! {

/// Appends one character to `s`.
///
/// Trusted: calls `String::push`, which std documents as appending the given
/// character to the end of the string.
#[verifier::external_body]
pub(crate) fn push_char(s: &mut String, c: char)
    ensures
        final(s)@ == old(s)@.push(c),
{
    s.push(c);
}

/// The character that stands for the decimal digit `d`.
pub open spec fn digit_char(d: nat) -> char {
    if d == 0 {
        '0'
    } else if d == 1 {
        '1'
    } else if d == 2 {
        '2'
    } else if d == 3 {
        '3'
    } else if d == 4 {
        '4'
    } else if d == 5 {
        '5'
    } else if d == 6 {
        '6'
    } else if d == 7 {
        '7'
    } else if d == 8 {
        '8'
    } else {
        '9'
    }
}

/// The decimal numeral of `n`, without leading zeros.
pub open spec fn decimal(n: nat) -> Seq<char>
    decreases n,
{
    if n < 10 {
        seq![digit_char(n)]
    } else {
        decimal(n / 10).push(digit_char(n % 10))
    }
}

fn digit(d: u64) -> (c: char)
    requires
        d < 10,
    ensures
        c == digit_char(d as nat),
{
    if d == 0 {
        '0'
    } else if d == 1 {
        '1'
    } else if d == 2 {
        '2'
    } else if d == 3 {
        '3'
    } else if d == 4 {
        '4'
    } else if d == 5 {
        '5'
    } else if d == 6 {
        '6'
    } else if d == 7 {
        '7'
    } else if d == 8 {
        '8'
    } else {
        '9'
    }
}

/// Appends the decimal numeral of `n` to `out`.
pub fn push_decimal(out: &mut String, n: u64)
    ensures
        final(out)@ == old(out)@ + decimal(n as nat),
    decreases n,
{
    if n >= 10 {
        push_decimal(out, n / 10);
    }
    push_char(out, digit(n % 10));
    assert(out@ =~= old(out)@ + decimal(n as nat));
}

/// The numeral of a signed integer: a minus sign before the digits of a
/// negative one.
pub open spec fn signed_decimal(v: int) -> Seq<char> {
    if v < 0 {
        seq!['-'] + decimal((-v) as nat)
    } else {
        decimal(v as nat)
    }
}

/// Appends the numeral of `v` to `out`.
pub fn push_signed_decimal(out: &mut String, v: i64)
    ensures
        final(out)@ == old(out)@ + signed_decimal(v as int),
{
    if v < 0 {
        push_char(out, '-');
        let below: u64 = (-(v + 1)) as u64;
        push_decimal(out, below + 1);
        assert(out@ =~= old(out)@ + signed_decimal(v as int));
    } else {
        push_decimal(out, v as u64);
    }
}

/// The six digits of `f`, zeros kept in front; `f` is below one million.
pub open spec fn six_digits(f: nat) -> Seq<char> {
    seq![
        digit_char(f / 100000 % 10),
        digit_char(f / 10000 % 10),
        digit_char(f / 1000 % 10),
        digit_char(f / 100 % 10),
        digit_char(f / 10 % 10),
        digit_char(f % 10),
    ]
}

/// The digits `digits` without the zeros at their end; the first digit
/// stays, whatever it is.
pub open spec fn without_trailing_zeros(digits: Seq<char>) -> Seq<char>
    decreases digits.len(),
{
    if digits.len() > 1 && digits.last() == '0' {
        without_trailing_zeros(digits.drop_last())
    } else {
        digits
    }
}

/// The numeral of `v` millionths: sign, whole part, a point and the
/// fractional digits, at least one and at most six, with no zero at the end
/// that could be left out.
pub open spec fn millionths(v: int) -> Seq<char> {
    let m: nat = if v < 0 {
        (-v) as nat
    } else {
        v as nat
    };
    let sign: Seq<char> = if v < 0 {
        seq!['-']
    } else {
        Seq::empty()
    };
    sign + decimal(m / 1000000) + seq!['.'] + without_trailing_zeros(six_digits(m % 1000000))
}

/// Appends the numeral of `v` millionths to `out`.
pub fn push_millionths(out: &mut String, v: i32)
    ensures
        final(out)@ == old(out)@ + millionths(v as int),
{
    let wide: i64 = v as i64;
    let m: u64 = if wide < 0 {
        (-wide) as u64
    } else {
        wide as u64
    };
    if v < 0 {
        push_char(out, '-');
    }
    push_decimal(out, m / 1000000);
    push_char(out, '.');
    let f: u64 = m % 1000000;
    let mut digits: Vec<char> = Vec::new();
    digits.push(digit(f / 100000 % 10));
    digits.push(digit(f / 10000 % 10));
    digits.push(digit(f / 1000 % 10));
    digits.push(digit(f / 100 % 10));
    digits.push(digit(f / 10 % 10));
    digits.push(digit(f % 10));
    assert(digits@ =~= six_digits(f as nat));
    let mut keep: usize = 6;
    assert(digits@.take(6) =~= digits@);
    while keep > 1 && digits[keep - 1] == '0'
        invariant
            1 <= keep <= 6,
            digits@.len() == 6,
            without_trailing_zeros(digits@) == without_trailing_zeros(digits@.take(keep as int)),
        decreases keep,
    {
        proof {
            let kept = digits@.take(keep as int);
            assert(kept.drop_last() =~= digits@.take(keep - 1));
            assert(kept.last() == '0');
        }
        keep = keep - 1;
    }
    proof {
        let kept = digits@.take(keep as int);
        assert(kept.last() == digits@[keep - 1]);
        assert(without_trailing_zeros(kept) == kept);
    }
    let ghost before = out@;
    let mut i: usize = 0;
    assert(out@ =~= before + digits@.take(0));
    while i < keep
        invariant
            i <= keep <= 6,
            digits@.len() == 6,
            out@ == before + digits@.take(i as int),
        decreases keep - i,
    {
        push_char(out, digits[i]);
        assert(out@ =~= before + digits@.take(i + 1));
        i = i + 1;
    }
    assert(out@ =~= old(out)@ + millionths(v as int));
}

/// The lower-case character that stands for the hexadecimal digit `d`.
pub open spec fn hex_char(d: nat) -> char {
    if d < 10 {
        digit_char(d)
    } else if d == 10 {
        'a'
    } else if d == 11 {
        'b'
    } else if d == 12 {
        'c'
    } else if d == 13 {
        'd'
    } else if d == 14 {
        'e'
    } else {
        'f'
    }
}

/// The hexadecimal digit `d` as a character.
pub fn hex_digit(d: u64) -> (c: char)
    requires
        d < 16,
    ensures
        c == hex_char(d as nat),
{
    if d < 10 {
        digit(d)
    } else if d == 10 {
        'a'
    } else if d == 11 {
        'b'
    } else if d == 12 {
        'c'
    } else if d == 13 {
        'd'
    } else if d == 14 {
        'e'
    } else {
        'f'
    }
}

/// Appends the JSON string literal that holds `s` to `out`.
pub fn push_json_string(out: &mut String, s: &str)
    ensures
        final(out)@ == old(out)@ + json_string(s@),
{
    let literal = quote(s);
    out.append(literal.as_str());
}

/// A JSON object member: the quoted key, a colon and the value's text. Keys
/// are plain names and need no escaping.
pub open spec fn member(key: Seq<char>, value: Seq<char>) -> Seq<char> {
    seq!['"'] + key + seq!['"', ':'] + value
}

/// Appends a member's quoted key and colon to `out`; the value follows.
pub fn push_key(out: &mut String, key: &str)
    ensures
        final(out)@ == old(out)@ + member(key@, Seq::empty()),
{
    push_char(out, '"');
    out.append(key);
    push_char(out, '"');
    push_char(out, ':');
    assert(out@ =~= old(out)@ + member(key@, Seq::empty()));
}

/// The JSON text of a boolean.
pub open spec fn bool_text(b: bool) -> Seq<char> {
    if b {
        "true"@
    } else {
        "false"@
    }
}

/// The parts of a list, with a comma between neighbours.
pub open spec fn joined(parts: Seq<Seq<char>>) -> Seq<char>
    decreases parts.len(),
{
    if parts.len() == 0 {
        Seq::empty()
    } else if parts.len() == 1 {
        parts[0]
    } else {
        joined(parts.drop_last()) + seq![','] + parts.last()
    }
}

/// What one more part adds to a joined list.
pub proof fn lemma_joined_push(parts: Seq<Seq<char>>, part: Seq<char>)
    ensures
        joined(parts.push(part)) == if parts.len() == 0 {
            part
        } else {
            joined(parts) + seq![','] + part
        },
{
    let longer = parts.push(part);
    assert(longer.drop_last() =~= parts);
    assert(longer.last() == part);
}

/// The JSON array whose items have the texts `items`.
pub open spec fn array(items: Seq<Seq<char>>) -> Seq<char> {
    seq!['['] + joined(items) + seq![']']
}

/// The JSON object whose members have the texts `members`.
pub open spec fn object(members: Seq<Seq<char>>) -> Seq<char> {
    seq!['{'] + joined(members) + seq!['}']
}

/// An object that still lacks its closing brace.
pub open spec fn open_object(members: Seq<Seq<char>>) -> Seq<char> {
    seq!['{'] + joined(members)
}

/// What parts the next member from those written so far.
pub open spec fn separator(members: Seq<Seq<char>>) -> Seq<char> {
    if members.len() == 0 {
        Seq::empty()
    } else {
        seq![',']
    }
}

/// A member's key written after `members`, followed by `value`, is the
/// object with that member added.
pub proof fn lemma_member_done(
    start: Seq<char>,
    members: Seq<Seq<char>>,
    key: Seq<char>,
    value: Seq<char>,
    written: Seq<char>,
)
    requires
        written == start + open_object(members) + separator(members) + member(key, Seq::empty())
            + value,
    ensures
        written == start + open_object(members.push(member(key, value))),
{
    lemma_joined_push(members, member(key, value));
    assert(member(key, Seq::empty()) + value =~= member(key, value));
    assert(written =~= start + open_object(members.push(member(key, value))));
}

/// Opens an object.
pub(crate) fn begin_object(out: &mut String)
    ensures
        final(out)@ == old(out)@ + open_object(Seq::empty()),
{
    push_char(out, '{');
    assert(out@ =~= old(out)@ + open_object(Seq::empty()));
}

/// Writes what parts the next member from the earlier ones, and its key.
pub(crate) fn begin_member(
    out: &mut String,
    key: &str,
    first: bool,
    Ghost(start): Ghost<Seq<char>>,
    Ghost(members): Ghost<Seq<Seq<char>>>,
)
    requires
        old(out)@ == start + open_object(members),
        first == (members.len() == 0),
    ensures
        final(out)@ == start + open_object(members) + separator(members) + member(
            key@,
            Seq::empty(),
        ),
{
    if !first {
        push_char(out, ',');
    }
    let ghost before = out@;
    assert(before =~= start + open_object(members) + separator(members));
    push_key(out, key);
}

/// Writes the member `key` with the boolean `b` as its value.
pub(crate) fn bool_member(
    out: &mut String,
    key: &str,
    b: bool,
    first: bool,
    Ghost(start): Ghost<Seq<char>>,
    Ghost(members): Ghost<Seq<Seq<char>>>,
)
    requires
        old(out)@ == start + open_object(members),
        first == (members.len() == 0),
    ensures
        final(out)@ == start + open_object(members.push(member(key@, bool_text(b)))),
{
    begin_member(out, key, first, Ghost(start), Ghost(members));
    if b {
        out.append("true");
    } else {
        out.append("false");
    }
    proof {
        lemma_member_done(start, members, key@, bool_text(b), out@);
    }
}

/// Closes an object.
pub(crate) fn end_object(
    out: &mut String,
    Ghost(start): Ghost<Seq<char>>,
    Ghost(members): Ghost<Seq<Seq<char>>>,
)
    requires
        old(out)@ == start + open_object(members),
    ensures
        final(out)@ == start + object(members),
{
    push_char(out, '}');
    assert(out@ =~= start + object(members));
}

} // verus!
