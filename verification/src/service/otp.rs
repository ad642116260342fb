use vstd::prelude::*;

use crate::text::push_char;
use rand::Rng;

verus! {

/// Number of digits of a one-time code.
pub const OTP_DIGITS: usize = 6;

/// `s` is a one-time code: six ASCII digits.
pub open spec fn is_otp_code(s: Seq<char>) -> bool {
    &&& s.len() == OTP_DIGITS
    &&& forall|i: int| 0 <= i < s.len() ==> '0' <= #[trigger] s[i] <= '9'
}

/// One draw of `rand::thread_rng().gen_range(0..10)`.
/// Trusted: the value lies in `0..10`, as `gen_range` documents for a half-open range.
#[verifier::external_body]
fn random_digit() -> (r: i32)
    ensures
        0 <= r < 10,
{
    rand::thread_rng().gen_range(0..10)
}

/// The text of the digits `d` (each below ten), one character per digit.
pub open spec fn digits_text(d: Seq<i32>) -> Seq<char> {
    Seq::new(d.len(), |i: int| (d[i] + '0' as int) as char)
}

/// Writes the digits `d` as text, one character each (the digits `to_string`s
/// joined).
pub fn otp_from_digits(d: &Vec<i32>) -> (r: String)
    requires
        forall|i: int| 0 <= i < d@.len() ==> 0 <= #[trigger] d@[i] < 10,
    ensures
        r@ == digits_text(d@),
{
    let mut r = String::new();
    let mut i: usize = 0;
    while i < d.len()
        invariant
            i <= d@.len(),
            forall|j: int| 0 <= j < d@.len() ==> 0 <= #[trigger] d@[j] < 10,
            r@ == digits_text(d@.subrange(0, i as int)),
        decreases d@.len() - i,
    {
        let v = d[i];
        let c: char = if v == 0 {
            '0'
        } else if v == 1 {
            '1'
        } else if v == 2 {
            '2'
        } else if v == 3 {
            '3'
        } else if v == 4 {
            '4'
        } else if v == 5 {
            '5'
        } else if v == 6 {
            '6'
        } else if v == 7 {
            '7'
        } else if v == 8 {
            '8'
        } else {
            '9'
        };
        assert(c == (v + '0' as int) as char);
        push_char(&mut r, c);
        assert(digits_text(d@.subrange(0, i + 1)) =~= digits_text(d@.subrange(0, i as int)).push(c));
        i = i + 1;
    }
    assert(d@.subrange(0, d@.len() as int) =~= d@);
    r
}

/// A fresh one-time code: six random decimal digits.
pub fn generate_otp() -> (r: String)
    ensures
        is_otp_code(r@),
{
    let mut d: Vec<i32> = Vec::new();
    let mut k: usize = 0;
    while k < OTP_DIGITS
        invariant
            k <= OTP_DIGITS,
            d@.len() == k,
            forall|i: int| 0 <= i < d@.len() ==> 0 <= #[trigger] d@[i] < 10,
        decreases OTP_DIGITS - k,
    {
        d.push(random_digit());
        k = k + 1;
    }
    let r = otp_from_digits(&d);
    assert forall|i: int| 0 <= i < r@.len() implies '0' <= #[trigger] r@[i] <= '9' by {
        assert(0 <= d@[i] < 10);
    }
    r
}

} // verus!
