use vstd::prelude::*;

verus! {

/// The lower-case hexadecimal digit of a value below 16.
pub open spec fn lower_hex_digit(n: u8) -> char
    recommends
        n < 16,
{
    seq!['0', '1', '2', '3', '4', '5', '6', '7', '8', '9', 'a', 'b', 'c', 'd', 'e', 'f'][n as int]
}

/// Whether a character is a lower-case hexadecimal digit.
pub open spec fn is_lower_hex_digit(c: char) -> bool {
    ('0' <= c <= '9') || ('a' <= c <= 'f')
}

/// Every value below 16 has a lower-case hexadecimal digit, and that digit is printable.
pub proof fn lemma_lower_hex_digit(n: u8)
    requires
        n < 16,
    ensures
        is_lower_hex_digit(lower_hex_digit(n)),
        lower_hex_digit(n) as u32 >= 0x30,
        n == 4 ==> lower_hex_digit(n) == '4',
        n == 8 ==> lower_hex_digit(n) == '8',
        n == 9 ==> lower_hex_digit(n) == '9',
        n == 10 ==> lower_hex_digit(n) == 'a',
        n == 11 ==> lower_hex_digit(n) == 'b',
{
}

/// Distinct values below 16 have distinct digits, so a digit gives its value back.
pub proof fn lemma_lower_hex_digit_is_injective(a: u8, b: u8)
    requires
        a < 16,
        b < 16,
        lower_hex_digit(a) == lower_hex_digit(b),
    ensures
        a == b,
{
}

} // verus!
