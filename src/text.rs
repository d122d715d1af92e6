//! Rendering values as text: integers in decimal, and strings and
//! characters quoted as Rust source writes them.

use vstd::prelude::*;

verus! {

/// How std's `Debug` writes a string: quoted, with escapes.
pub uninterp spec fn quoted_str(s: Seq<char>) -> Seq<char>;

/// How std's `Debug` writes a character: in single quotes, with escapes.
pub uninterp spec fn quoted_char(c: char) -> Seq<char>;

/// Relies on `<str as Debug>::fmt`: the result depends on the characters
/// alone and opens and closes with a double quote.
#[verifier::external_body]
pub fn debug_str(s: &str) -> (r: String)
    ensures
        r@ == quoted_str(s@),
        r@.len() >= 2,
        r@[0] == '"',
        r@.last() == '"',
{
    format!("{:?}", s)
}

/// How std's `Debug` writes a path: quoted, with escapes.
pub uninterp spec fn quoted_path(s: Seq<char>) -> Seq<char>;

/// Relies on `<Path as Debug>::fmt`: the result depends on the characters
/// alone and opens and closes with a double quote.
#[verifier::external_body]
pub fn debug_path(s: &str) -> (r: String)
    ensures
        r@ == quoted_path(s@),
        r@.len() >= 2,
        r@[0] == '"',
        r@.last() == '"',
{
    format!("{:?}", std::path::Path::new(s))
}

/// Relies on `<char as Debug>::fmt`: the result depends on the character
/// alone and opens and closes with a single quote.
#[verifier::external_body]
pub fn debug_char(c: char) -> (r: String)
    ensures
        r@ == quoted_char(c),
        r@.len() >= 3,
        r@[0] == '\'',
        r@.last() == '\'',
{
    format!("{:?}", c)
}

pub open spec fn digit_char(d: nat) -> char {
    if d == 0 { '0' }
    else if d == 1 { '1' }
    else if d == 2 { '2' }
    else if d == 3 { '3' }
    else if d == 4 { '4' }
    else if d == 5 { '5' }
    else if d == 6 { '6' }
    else if d == 7 { '7' }
    else if d == 8 { '8' }
    else { '9' }
}

/// `n` in decimal, without leading zeros.
pub open spec fn decimal(n: nat) -> Seq<char>
    decreases n,
{
    if n < 10 {
        seq![digit_char(n)]
    } else {
        decimal(n / 10).push(digit_char(n % 10))
    }
}

/// `n` in decimal, with a minus sign where it is negative.
pub open spec fn signed_decimal(n: int) -> Seq<char> {
    if n < 0 {
        seq!['-'] + decimal((-n) as nat)
    } else {
        decimal(n as nat)
    }
}

fn digit(d: u128) -> (c: char)
    requires
        d < 10,
    ensures
        c == digit_char(d as nat),
{
    if d == 0 { '0' }
    else if d == 1 { '1' }
    else if d == 2 { '2' }
    else if d == 3 { '3' }
    else if d == 4 { '4' }
    else if d == 5 { '5' }
    else if d == 6 { '6' }
    else if d == 7 { '7' }
    else if d == 8 { '8' }
    else { '9' }
}

/// `n` in decimal.
pub fn format_unsigned(n: u128) -> (r: String)
    ensures
        r@ == decimal(n as nat),
{
    // digits from the last one on
    let mut rev: Vec<char> = Vec::new();
    let mut m: u128 = n;
    while m >= 10
        invariant
            m <= n,
            decimal(n as nat) == decimal(m as nat) + rev@.reverse(),
        decreases m,
    {
        let c = digit(m % 10);
        let ghost before = rev@;
        rev.push(c);
        proof {
            assert(rev@.reverse() =~= seq![c] + before.reverse());
            assert(decimal(m as nat) == decimal((m / 10) as nat).push(c));
            assert(decimal(m as nat) + before.reverse() =~= decimal((m / 10) as nat) + rev@.reverse());
        }
        m = m / 10;
    }
    let c = digit(m);
    let ghost before = rev@;
    rev.push(c);
    proof {
        assert(rev@.reverse() =~= seq![c] + before.reverse());
        assert(decimal(m as nat) == seq![c]);
        assert(decimal(n as nat) =~= rev@.reverse());
    }
    let mut out = String::new();
    let mut i: usize = rev.len();
    while i > 0
        invariant
            i <= rev@.len(),
            out@ == rev@.reverse().take(rev@.len() - i),
            decimal(n as nat) == rev@.reverse(),
        decreases i,
    {
        i = i - 1;
        out = push_char(out, rev[i]);
        assert(rev@.reverse().take(rev@.len() - i) =~= rev@.reverse().take(rev@.len() - i - 1).push(
            rev@[i as int],
        ));
    }
    assert(rev@.reverse().take(rev@.len() as int) =~= rev@.reverse());
    out
}

/// Relies on `String::push`: appends the character.
#[verifier::external_body]
pub(crate) fn push_char(s: String, c: char) -> (r: String)
    ensures
        r@ == s@.push(c),
{
    let mut s = s;
    s.push(c);
    s
}

/// `n` in decimal, with a minus sign where it is negative.
pub fn format_signed(n: i128) -> (r: String)
    ensures
        r@ == signed_decimal(n as int),
{
    if n < 0 {
        let magnitude: u128 = if n == i128::MIN {
            170141183460469231731687303715884105728u128
        } else {
            (-n) as u128
        };
        let digits = format_unsigned(magnitude);
        proof { reveal_strlit("-"); }
        String::from_str("-").concat(digits.as_str())
    } else {
        format_unsigned(n as u128)
    }
}

} // verus!
