//! Building human-readable diagnostic text: decimal and hexadecimal
//! numbers and concatenation.

use vstd::prelude::*;
use vstd::string::StringExecFns;
use vstd::string::StringSliceAdditionalSpecFns;
use vstd::string::StrSliceExecFns;

verus! {

/// The character of a decimal digit.
pub open spec fn digit_char(d: nat) -> char {
    if d == 0 {
        '0'
    } else if d == 1 {
        '1'
    } else if d == 2 {
        '2'
    } else if d == 3 {
        '3'
    } else if d == 4 {
        '4'
    } else if d == 5 {
        '5'
    } else if d == 6 {
        '6'
    } else if d == 7 {
        '7'
    } else if d == 8 {
        '8'
    } else {
        '9'
    }
}

/// The decimal representation of `n`, without leading zeros.
pub open spec fn decimal(n: nat) -> Seq<char>
    decreases n,
{
    if n < 10 {
        seq![digit_char(n)]
    } else {
        decimal(n / 10).push(digit_char(n % 10))
    }
}

fn digit_str(d: u64) -> (r: &'static str)
    requires
        d < 10,
    ensures
        r@ == seq![digit_char(d as nat)],
{
    proof {
        reveal_strlit("0");
        reveal_strlit("1");
        reveal_strlit("2");
        reveal_strlit("3");
        reveal_strlit("4");
        reveal_strlit("5");
        reveal_strlit("6");
        reveal_strlit("7");
        reveal_strlit("8");
        reveal_strlit("9");
    }
    let r = if d == 0 {
        "0"
    } else if d == 1 {
        "1"
    } else if d == 2 {
        "2"
    } else if d == 3 {
        "3"
    } else if d == 4 {
        "4"
    } else if d == 5 {
        "5"
    } else if d == 6 {
        "6"
    } else if d == 7 {
        "7"
    } else if d == 8 {
        "8"
    } else {
        "9"
    };
    assert(r@ =~= seq![digit_char(d as nat)]);
    r
}

/// Renders `n` in decimal.
pub fn decimal_string(n: u64) -> (r: String)
    ensures
        r@ == decimal(n as nat),
    decreases n,
{
    if n < 10 {
        digit_str(n).to_owned()
    } else {
        let mut s = decimal_string(n / 10);
        s.append(digit_str(n % 10));
        s
    }
}

/// The character of a hexadecimal digit, in upper or lower case.
pub open spec fn hex_char(d: nat, upper: bool) -> char {
    if d < 10 {
        digit_char(d)
    } else if d == 10 {
        if upper { 'A' } else { 'a' }
    } else if d == 11 {
        if upper { 'B' } else { 'b' }
    } else if d == 12 {
        if upper { 'C' } else { 'c' }
    } else if d == 13 {
        if upper { 'D' } else { 'd' }
    } else if d == 14 {
        if upper { 'E' } else { 'e' }
    } else {
        if upper { 'F' } else { 'f' }
    }
}

/// The hexadecimal representation of `n`, without leading zeros.
pub open spec fn hex(n: nat, upper: bool) -> Seq<char>
    decreases n,
{
    if n < 16 {
        seq![hex_char(n, upper)]
    } else {
        hex(n / 16, upper).push(hex_char(n % 16, upper))
    }
}

/// `s` preceded by as many `'0'` as bring it to `width` characters.
pub open spec fn zero_padded(s: Seq<char>, width: nat) -> Seq<char> {
    if s.len() >= width {
        s
    } else {
        Seq::new((width - s.len()) as nat, |i: int| '0') + s
    }
}

/// `String::push`: appends one character, as its documentation states.
#[verifier::external_body]
pub(crate) fn push_char(s: &mut String, c: char)
    ensures
        final(s)@ == old(s)@.push(c),
{
    s.push(c)
}

/// The character of hexadecimal digit `d`.
pub fn hex_digit(d: u64, upper: bool) -> (c: char)
    requires
        d < 16,
    ensures
        c == hex_char(d as nat, upper),
{
    let lower = ['0', '1', '2', '3', '4', '5', '6', '7', '8', '9', 'a', 'b', 'c', 'd', 'e', 'f'];
    let capital = ['0', '1', '2', '3', '4', '5', '6', '7', '8', '9', 'A', 'B', 'C', 'D', 'E', 'F'];
    if upper {
        capital[d as usize]
    } else {
        lower[d as usize]
    }
}

/// Renders `n` in hexadecimal.
pub fn hex_string(n: u64, upper: bool) -> (r: String)
    ensures
        r@ == hex(n as nat, upper),
    decreases n,
{
    let mut s = if n < 16 {
        String::new()
    } else {
        hex_string(n / 16, upper)
    };
    push_char(&mut s, hex_digit(n % 16, upper));
    proof {
        if n < 16 {
            assert(s@ =~= hex(n as nat, upper));
        }
    }
    s
}

/// Left-pads `s` with `'0'` to `width` characters.
pub fn pad_zeros(s: String, width: usize) -> (r: String)
    ensures
        r@ == zero_padded(s@, width as nat),
{
    if s.as_str().unicode_len() >= width {
        return s;
    }
    let missing = width - s.as_str().unicode_len();
    let mut r = String::new();
    let mut i: usize = 0;
    while i < missing
        invariant
            0 <= i <= missing,
            r@ == Seq::new(i as nat, |k: int| '0'),
        decreases missing - i,
    {
        push_char(&mut r, '0');
        i = i + 1;
        assert(r@ =~= Seq::new(i as nat, |k: int| '0'));
    }
    r.append(s.as_str());
    r
}

/// Appends `b` to `a`.
pub fn join2(a: String, b: &str) -> (r: String)
    ensures
        r@ == a@ + b@,
{
    let mut s = a;
    s.append(b);
    s
}

/// The text that `bytes` encodes, when they are valid UTF-8.
///
/// Wraps `std::str::from_utf8`, which (as its documentation states) returns
/// the string slice over the same bytes exactly when they are well-formed
/// UTF-8 and an error otherwise.
#[verifier::external_body]
pub(crate) fn utf8_str(bytes: &[u8]) -> (r: Option<&str>)
    ensures
        r is Some <==> vstd::utf8::valid_utf8(bytes@),
        r matches Some(s) ==> s.spec_bytes() == bytes@,
{
    std::str::from_utf8(bytes).ok()
}

} // verus!
