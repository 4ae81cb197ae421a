use vstd::prelude::*;

verus! {

/// The character of a decimal digit.
pub open spec fn digit_char(d: nat) -> char {
    if d == 0 { '0' }
    else if d == 1 { '1' }
    else if d == 2 { '2' }
    else if d == 3 { '3' }
    else if d == 4 { '4' }
    else if d == 5 { '5' }
    else if d == 6 { '6' }
    else if d == 7 { '7' }
    else if d == 8 { '8' }
    else { '9' }
}

/// The decimal digits of a natural number, most significant first.
pub open spec fn digits_of(n: nat) -> Seq<char>
    decreases n,
{
    if n < 10 {
        seq![digit_char(n)]
    } else {
        digits_of(n / 10).push(digit_char(n % 10))
    }
}

/// The decimal form of an integer, with a leading `-` when it is negative.
pub open spec fn decimal_of(v: int) -> Seq<char> {
    if v < 0 {
        seq!['-'] + digits_of((-v) as nat)
    } else {
        digits_of(v as nat)
    }
}

/// The character that a memory cell stands for: its low byte read as a code point.
pub open spec fn cell_char(c: i32) -> char {
    (c as u8) as char
}

/// Relies on the `Display` impl of `i32` (through `ToString`): it writes the
/// decimal form, with `-` in front of a negative value.
#[verifier::external_body]
pub(crate) fn int_to_string(v: i32) -> (r: String)
    ensures
        r@ == decimal_of(v as int),
{
    v.to_string()
}

/// Relies on `String::push`: it appends one character.
#[verifier::external_body]
pub(crate) fn push_char(s: &mut String, c: char)
    ensures
        final(s)@ == old(s)@.push(c),
{
    s.push(c)
}

/// The character a memory cell stands for.
pub fn char_of_cell(c: i32) -> (r: char)
    ensures
        r == cell_char(c),
{
    (c as u8) as char
}


/// What `str::trim` leaves of a text.
pub uninterp spec fn trimmed(s: Seq<char>) -> Seq<char>;

/// The value of an ASCII decimal digit; -1 for any other character.
pub open spec fn digit_value(c: char) -> int {
    if c == '0' { 0 }
    else if c == '1' { 1 }
    else if c == '2' { 2 }
    else if c == '3' { 3 }
    else if c == '4' { 4 }
    else if c == '5' { 5 }
    else if c == '6' { 6 }
    else if c == '7' { 7 }
    else if c == '8' { 8 }
    else if c == '9' { 9 }
    else { -1 }
}

/// Whether a character is an ASCII decimal digit.
pub open spec fn is_digit(c: char) -> bool {
    digit_value(c) >= 0
}

/// The value of the ASCII decimal digits `s`, most significant first.
pub open spec fn digits_value(s: Seq<char>) -> int
    decreases s.len(),
{
    if s.len() == 0 {
        0
    } else {
        digits_value(s.drop_last()) * 10 + digit_value(s.last())
    }
}

/// What `str::parse::<i32>` makes of a text: an optional `+` or `-`, then
/// one or more ASCII digits, whose value must fit in 32 bits.
pub open spec fn parsed_i32(s: Seq<char>) -> Option<i32> {
    let signed = s.len() > 0 && (s[0] == '-' || s[0] == '+');
    let body = if signed { s.drop_first() } else { s };
    let v = if s.len() > 0 && s[0] == '-' { -digits_value(body) } else { digits_value(body) };
    if body.len() > 0 && (forall|i: int| 0 <= i < body.len() ==> is_digit(#[trigger] body[i]))
        && i32::MIN <= v <= i32::MAX {
        Some(v as i32)
    } else {
        None
    }
}

/// Relies on `str::trim`: the text without leading and trailing whitespace.
#[verifier::external_body]
pub(crate) fn trim_text(s: &str) -> (r: String)
    ensures
        r@ == trimmed(s@),
{
    s.trim().to_owned()
}

/// Relies on `str::parse::<i32>` (`i32::from_str`): an optional sign, then
/// ASCII digits, with the value in range; anything else is an error.
#[verifier::external_body]
pub(crate) fn parse_i32(s: &str) -> (r: Option<i32>)
    ensures
        r == parsed_i32(s@),
{
    s.parse::<i32>().ok()
}

/// The text stored from address `a` on: one character per cell, up to the
/// first zero cell or the end of memory.
pub open spec fn string_at(cells: Seq<i32>, a: int) -> Seq<char>
    decreases cells.len() - a,
{
    if a < 0 || a >= cells.len() || cells[a] == 0 {
        Seq::empty()
    } else {
        seq![cell_char(cells[a])] + string_at(cells, a + 1)
    }
}

/// The cell that stores a character: its code point.
pub open spec fn char_cell(c: char) -> i32 {
    (c as u32) as i32
}

/// `cells` with the text `s` stored from address `a` on, followed by a zero cell.
pub open spec fn with_string(cells: Seq<i32>, a: int, s: Seq<char>) -> Seq<i32> {
    Seq::new(
        cells.len(),
        |i: int|
            if a <= i < a + s.len() {
                char_cell(s[i - a])
            } else if i == a + s.len() {
                0i32
            } else {
                cells[i]
            },
    )
}

/// Whether the text `s` and its zero cell fit in memory from address `a` on.
pub open spec fn string_fits(len: int, a: int, s: Seq<char>) -> bool {
    0 <= a && a + s.len() < len
}

} // verus!
