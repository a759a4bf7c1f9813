//! Decimal text of integers and the text of booleans, as they appear in query
//! parameters and listings.

use vstd::prelude::*;

verus! {

/// The character of the decimal digit `d`, for `0 <= d <= 9`.
pub open spec fn digit(d: int) -> char {
    if d == 0 {
        '0'
    } else if d == 1 {
        '1'
    } else if d == 2 {
        '2'
    } else if d == 3 {
        '3'
    } else if d == 4 {
        '4'
    } else if d == 5 {
        '5'
    } else if d == 6 {
        '6'
    } else if d == 7 {
        '7'
    } else if d == 8 {
        '8'
    } else {
        '9'
    }
}

/// The decimal digits of a natural number, most significant first, without
/// leading zeros; `0` is written `"0"`.
pub open spec fn natural_text(n: nat) -> Seq<char>
    decreases n,
{
    if n < 10 {
        seq![digit(n as int)]
    } else {
        natural_text(n / 10).push(digit((n % 10) as int))
    }
}

/// The decimal text of an integer: a minus sign in front of the digits of a
/// negative number, the bare digits otherwise.
pub open spec fn decimal_text(n: int) -> Seq<char> {
    if n < 0 {
        seq!['-'] + natural_text((-n) as nat)
    } else {
        natural_text(n as nat)
    }
}

/// The text of a boolean: `"true"` or `"false"`.
pub open spec fn bool_text(b: bool) -> Seq<char> {
    if b {
        "true"@
    } else {
        "false"@
    }
}

/// `text` with spaces in front until it is at least `width` characters long.
pub open spec fn pad_left(text: Seq<char>, width: nat) -> Seq<char>
    decreases width - text.len(),
{
    if text.len() >= width {
        text
    } else {
        pad_left(seq![' '] + text, width)
    }
}

fn digit_str(d: u64) -> (text: &'static str)
    requires
        d < 10,
    ensures
        text@ == seq![digit(d as int)],
{
    proof {
        reveal_strlit("0");
        reveal_strlit("1");
        reveal_strlit("2");
        reveal_strlit("3");
        reveal_strlit("4");
        reveal_strlit("5");
        reveal_strlit("6");
        reveal_strlit("7");
        reveal_strlit("8");
        reveal_strlit("9");
    }
    let text = if d == 0 {
        "0"
    } else if d == 1 {
        "1"
    } else if d == 2 {
        "2"
    } else if d == 3 {
        "3"
    } else if d == 4 {
        "4"
    } else if d == 5 {
        "5"
    } else if d == 6 {
        "6"
    } else if d == 7 {
        "7"
    } else if d == 8 {
        "8"
    } else {
        "9"
    };
    assert(text@ =~= seq![digit(d as int)]);
    text
}

/// Writes an unsigned integer in decimal.
pub fn u64_to_string(n: u64) -> (text: String)
    ensures
        text@ == decimal_text(n as int),
    decreases n,
{
    if n < 10 {
        digit_str(n).to_owned()
    } else {
        let front = u64_to_string(n / 10);
        let text = front.concat(digit_str(n % 10));
        assert(text@ =~= natural_text(n as nat));
        text
    }
}

/// Writes a signed integer in decimal.
pub fn i64_to_string(n: i64) -> (text: String)
    ensures
        text@ == decimal_text(n as int),
{
    if n < 0 {
        let magnitude: u64 = if n == i64::MIN {
            9223372036854775808u64
        } else {
            (-n) as u64
        };
        let digits = u64_to_string(magnitude);
        proof {
            reveal_strlit("-");
        }
        let text = "-".to_owned().concat(digits.as_str());
        assert(text@ =~= decimal_text(n as int));
        text
    } else {
        u64_to_string(n as u64)
    }
}

/// Writes a 32-bit signed integer in decimal.
pub fn i32_to_string(n: i32) -> (text: String)
    ensures
        text@ == decimal_text(n as int),
{
    i64_to_string(n as i64)
}

/// Writes a boolean as `"true"` or `"false"`.
pub fn bool_to_string(b: bool) -> (text: String)
    ensures
        text@ == bool_text(b),
{
    if b {
        "true".to_owned()
    } else {
        "false".to_owned()
    }
}

/// Puts spaces in front of `text` until it is at least `width` characters
/// long; a text that is long enough already is returned as it is.
pub fn pad_left_to(text: String, width: usize) -> (padded: String)
    ensures
        padded@ == pad_left(text@, width as nat),
{
    let mut padded = text;
    let mut length: usize = padded.as_str().unicode_len();
    while length < width
        invariant
            length == padded@.len(),
            pad_left(padded@, width as nat) == pad_left(text@, width as nat),
        decreases width - length,
    {
        proof {
            reveal_strlit(" ");
        }
        let ghost before = padded@;
        padded = " ".to_owned().concat(padded.as_str());
        assert(padded@ =~= seq![' '] + before);
        length += 1;
    }
    padded
}

} // verus!
