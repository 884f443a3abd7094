//! ASCII digit bytes: recognizing them, reading small numbers out of them,
//! and recovering each digit of such a number by division.

use vstd::arithmetic::div_mod::lemma_fundamental_div_mod_converse;
use vstd::prelude::*;

verus! {

/// `b` is one of the bytes `'0'` through `'9'`.
pub open spec fn is_ascii_digit(b: u8) -> bool {
    48 <= b <= 57
}

/// Every byte of `s` is an ASCII digit.
pub open spec fn all_digits(s: Seq<u8>) -> bool {
    forall|i: int| 0 <= i < s.len() ==> is_ascii_digit(#[trigger] s[i])
}

/// Numeric value of a digit byte.
pub open spec fn digit_val(b: u8) -> int {
    b - 48
}

/// Digit byte of a value in `0..=9`.
pub open spec fn digit_char(v: int) -> u8 {
    (v + 48) as u8
}

/// Value of two digit bytes read as a decimal number.
pub open spec fn two_digit_val(a: u8, b: u8) -> int {
    10 * digit_val(a) + digit_val(b)
}

/// Value of four digit bytes read as a decimal number.
pub open spec fn four_digit_val(a: u8, b: u8, c: u8, d: u8) -> int {
    1000 * digit_val(a) + 100 * digit_val(b) + 10 * digit_val(c) + digit_val(d)
}

/// Division by ten recovers both digits of a two-digit number.
pub proof fn lemma_two_digit_recover(a: int, b: int)
    requires
        0 <= a <= 9,
        0 <= b <= 9,
    ensures
        (10 * a + b) / 10 == a,
        (10 * a + b) % 10 == b,
{
    lemma_fundamental_div_mod_converse(10 * a + b, 10, a, b);
}

/// Division by powers of ten recovers every digit of a four-digit number.
pub proof fn lemma_four_digit_recover(a: int, b: int, c: int, d: int)
    requires
        0 <= a <= 9,
        0 <= b <= 9,
        0 <= c <= 9,
        0 <= d <= 9,
    ensures
        (1000 * a + 100 * b + 10 * c + d) / 1000 == a,
        ((1000 * a + 100 * b + 10 * c + d) / 100) % 10 == b,
        ((1000 * a + 100 * b + 10 * c + d) / 10) % 10 == c,
        (1000 * a + 100 * b + 10 * c + d) % 10 == d,
{
    let y = 1000 * a + 100 * b + 10 * c + d;
    lemma_fundamental_div_mod_converse(y, 1000, a, 100 * b + 10 * c + d);
    lemma_fundamental_div_mod_converse(y, 100, 10 * a + b, 10 * c + d);
    lemma_two_digit_recover(a, b);
    lemma_fundamental_div_mod_converse(y, 10, 100 * a + 10 * b + c, d);
    lemma_fundamental_div_mod_converse(100 * a + 10 * b + c, 10, 10 * a + b, c);
}

/// Checks that every byte of `s[from..to]` is an ASCII digit.
pub fn digits_in_range(s: &[u8], from: usize, to: usize) -> (r: bool)
    requires
        from <= to <= s@.len(),
    ensures
        r == all_digits(s@.subrange(from as int, to as int)),
{
    let mut i: usize = from;
    while i < to
        invariant
            from <= i <= to <= s@.len(),
            forall|j: int| from <= j < i ==> is_ascii_digit(#[trigger] s@[j]),
        decreases to - i,
    {
        let b = s[i];
        if b < 48 || b > 57 {
            assert(!all_digits(s@.subrange(from as int, to as int))) by {
                assert(s@.subrange(from as int, to as int)[i - from] == s@[i as int]);
            }
            return false;
        }
        i = i + 1;
    }
    assert(all_digits(s@.subrange(from as int, to as int))) by {
        assert forall|j: int| 0 <= j < to - from implies is_ascii_digit(
            #[trigger] s@.subrange(from as int, to as int)[j],
        ) by {
            assert(s@.subrange(from as int, to as int)[j] == s@[from + j]);
        }
    }
    true
}

} // verus!
