//! Decimal rendering of integers as ASCII byte strings.
//!
//! Nonces travel on the wire as decimal strings; this module renders a
//! counter value into its canonical decimal form and proves that the
//! rendering parses back to the same integer, so that string-level
//! comparisons of nonces mirror integer comparisons.

use vstd::prelude::*;

verus! {

/// ASCII code of the digit `0`.
pub open spec fn zero_digit() -> u8 {
    48
}

/// The canonical decimal rendering of `n`, as ASCII digit bytes,
/// without leading zeros (the rendering of `0` is `"0"`).
pub open spec fn dec_of(n: nat) -> Seq<u8>
    decreases n,
{
    if n < 10 {
        seq![(zero_digit() + n) as u8]
    } else {
        dec_of(n / 10).push((zero_digit() + n % 10) as u8)
    }
}

/// The integer value of a sequence of ASCII digit bytes, read in base 10.
pub open spec fn dec_val(s: Seq<u8>) -> int
    decreases s.len(),
{
    if s.len() == 0 {
        0
    } else {
        dec_val(s.drop_last()) * 10 + (s.last() - zero_digit())
    }
}

/// Every byte of `s` is an ASCII decimal digit.
pub open spec fn all_digits(s: Seq<u8>) -> bool {
    forall|i: int| 0 <= i < s.len() ==> 48 <= #[trigger] s[i] <= 57
}

/// The canonical rendering of `n` parses back to `n`, is nonempty, and
/// consists of digits only.
pub proof fn lemma_dec_of_val(n: nat)
    ensures
        dec_val(dec_of(n)) == n,
        dec_of(n).len() >= 1,
        all_digits(dec_of(n)),
    decreases n,
{
    if n < 10 {
        let s = dec_of(n);
        assert(s =~= seq![(zero_digit() + n) as u8]);
        assert(s.drop_last() =~= Seq::<u8>::empty());
        assert(dec_val(s.drop_last()) == 0);
        assert(s.last() == (zero_digit() + n) as u8);
        assert(dec_val(s) == 0 * 10 + ((zero_digit() + n) as u8 - zero_digit()));
    } else {
        lemma_dec_of_val(n / 10);
        let s = dec_of(n);
        assert(s == dec_of(n / 10).push((zero_digit() + n % 10) as u8));
        assert(s.drop_last() =~= dec_of(n / 10));
        assert(s.last() == (zero_digit() + n % 10) as u8);
        assert(dec_val(s) == (n / 10) * 10 + n % 10);
        assert((n / 10) * 10 + n % 10 == n) by (nonlinear_arith);
    }
}

/// Renders `n` as its canonical decimal digit string.
pub fn format_u128(n: u128) -> (r: Vec<u8>)
    ensures
        r@ == dec_of(n as nat),
    decreases n,
{
    if n < 10 {
        let mut v: Vec<u8> = Vec::new();
        v.push(48 + n as u8);
        proof {
            assert(v@ =~= seq![(zero_digit() + n as nat) as u8]);
        }
        v
    } else {
        let mut v = format_u128(n / 10);
        v.push(48 + (n % 10) as u8);
        proof {
            assert(v@ =~= dec_of((n / 10) as nat).push(
                (zero_digit() + (n as nat) % 10) as u8,
            ));
            assert((n as nat) / 10 == (n / 10) as nat);
        }
        v
    }
}

/// The canonical decimal rendering of a possibly negative integer: a
/// leading minus sign for negative values, then the magnitude.
pub open spec fn dec_of_int(n: int) -> Seq<u8> {
    if n < 0 {
        seq![45u8] + dec_of((-n) as nat)
    } else {
        dec_of(n as nat)
    }
}

/// Renders a signed integer as its canonical decimal digit string.
pub fn format_i64(n: i64) -> (r: Vec<u8>)
    ensures
        r@ == dec_of_int(n as int),
{
    if n >= 0 {
        format_u128(n as u128)
    } else {
        let mag: u128 = (-(n as i128)) as u128;
        let mut r: Vec<u8> = Vec::new();
        r.push(45);
        let mut digits = format_u128(mag);
        r.append(&mut digits);
        proof {
            assert(r@ =~= seq![45u8] + dec_of(mag as nat));
        }
        r
    }
}

/// Distinct integers have decimal renderings with distinct parses; in
/// particular, comparing rendered nonces as integers mirrors comparing
/// the counters they were rendered from.
pub proof fn lemma_dec_order(a: nat, b: nat)
    requires
        a < b,
    ensures
        dec_val(dec_of(a)) < dec_val(dec_of(b)),
{
    lemma_dec_of_val(a);
    lemma_dec_of_val(b);
}

} // verus!
