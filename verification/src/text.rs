//! Small string-building helpers shared by the rest of the crate:
//! appending single characters, string equality, and rendering numbers
//! and hex digits as text.

use vstd::prelude::*;

verus! {

/// Relies on `String::push`: appends exactly the one character.
#[verifier::external_body]
pub(crate) fn push_char(s: &mut String, c: char)
    ensures
        final(s)@ == old(s)@.push(c),
{
    s.push(c)
}

/// String-slice equality, decided through owned strings.
pub(crate) fn str_equal(a: &str, b: &str) -> (r: bool)
    ensures
        r == (a@ == b@),
{
    let owned_a: String = a.to_owned();
    let owned_b: String = b.to_owned();
    owned_a == owned_b
}

/// The character for one digit value below ten.
pub open spec fn spec_digit_char(d: int) -> char
    recommends
        0 <= d < 10,
{
    seq!['0', '1', '2', '3', '4', '5', '6', '7', '8', '9'][d]
}

/// The character for one hex digit value, upper case.
pub open spec fn spec_hex_char(d: int) -> char
    recommends
        0 <= d < 16,
{
    seq![
        '0', '1', '2', '3', '4', '5', '6', '7', '8', '9', 'A', 'B', 'C', 'D', 'E', 'F',
    ][d]
}

/// The decimal rendering of a natural number, most significant digit
/// first.
pub open spec fn spec_decimal(n: nat) -> Seq<char>
    decreases n,
{
    if n < 10 {
        seq![spec_digit_char(n as int)]
    } else {
        spec_decimal(n / 10) + seq![spec_digit_char((n % 10) as int)]
    }
}

/// Appends the decimal rendering of `n` to `out`.
pub(crate) fn append_decimal(out: &mut String, n: usize)
    ensures
        final(out)@ == old(out)@ + spec_decimal(n as nat),
    decreases n,
{
    let digits: [char; 10] = ['0', '1', '2', '3', '4', '5', '6', '7', '8', '9'];
    if n < 10 {
        push_char(out, digits[n]);
    } else {
        append_decimal(out, n / 10);
        push_char(out, digits[n % 10]);
        assert(out@ =~= old(out)@ + spec_decimal(n as nat));
    }
}

/// Appends the upper-case hex rendering of one byte (two digits).
pub(crate) fn append_hex_byte(out: &mut String, b: u8)
    ensures
        final(out)@ == old(out)@ + seq![
            spec_hex_char(b as int / 16),
            spec_hex_char(b as int % 16),
        ],
{
    let digits: [char; 16] = [
        '0', '1', '2', '3', '4', '5', '6', '7', '8', '9', 'A', 'B', 'C', 'D', 'E', 'F',
    ];
    push_char(out, digits[(b / 16) as usize]);
    push_char(out, digits[(b % 16) as usize]);
    assert(out@ =~= old(out)@ + seq![
        spec_hex_char(b as int / 16),
        spec_hex_char(b as int % 16),
    ]);
}

} // verus!
