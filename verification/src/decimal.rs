//! Parsing decimal number text into fixed point.
//!
//! The grammar is the usual decimal one: an optional minus sign, integer
//! digits, an optional fraction, an optional exponent. The value is scaled
//! by `SCALE` and truncated toward zero; a value outside the fixed-point
//! range is rejected. Digit runs may be arbitrarily long: excess precision
//! truncates exactly, because only the significant digits down to the last
//! fixed-point place can reach the result.

use vstd::prelude::*;
use vstd::arithmetic::div_mod::{
    lemma_basic_div, lemma_div_is_ordered, lemma_div_multiples_vanish,
    lemma_fundamental_div_mod_converse,
};
use crate::fx::FX_LIM;

verus! {

/// An ASCII decimal digit.
pub open spec fn is_digit(c: u8) -> bool {
    48 <= c <= 57
}

/// The end of the run of digits starting at `i`.
pub open spec fn digit_run_end(s: Seq<u8>, i: int) -> int
    decreases s.len() - i,
{
    if i < 0 {
        i
    } else if i >= s.len() {
        i
    } else if is_digit(s[i]) {
        digit_run_end(s, i + 1)
    } else {
        i
    }
}

/// The value of a run of digits, most significant first.
pub open spec fn digits_val(s: Seq<u8>, lo: int, hi: int) -> int
    decreases hi - lo,
{
    if lo >= hi {
        0
    } else {
        digits_val(s, lo, hi - 1) * 10 + (s[hi - 1] - 48)
    }
}

/// Ten to a power.
pub open spec fn pow10(n: nat) -> int
    decreases n,
{
    if n == 0 {
        1int
    } else {
        10 * pow10((n - 1) as nat)
    }
}

/// The fixed-point value of decimal number text, or nothing when the text
/// is not a number of the accepted shape or the value does not fit.
pub open spec fn dec_fx_s(s: Seq<u8>) -> Option<i64> {
    let n = s.len() as int;
    let neg = n > 0 && s[0] == 45u8;
    let i0: int = if neg {
        1
    } else {
        0
    };
    let i1 = digit_run_end(s, i0);
    if i1 == i0 {
        None
    } else {
        let has_frac = i1 < n && s[i1] == 46u8;
        let f0 = i1 + 1;
        let i2 = if has_frac {
            digit_run_end(s, f0)
        } else {
            i1
        };
        if has_frac && i2 == f0 {
            None
        } else {
            let has_exp = i2 < n && (s[i2] == 101u8 || s[i2] == 69u8);
            let e_neg = has_exp && i2 + 1 < n && s[i2 + 1] == 45u8;
            let e_signed = has_exp && i2 + 1 < n && (s[i2 + 1] == 43u8 || s[i2 + 1] == 45u8);
            let e0 = if e_signed {
                i2 + 2
            } else {
                i2 + 1
            };
            let i3 = if has_exp {
                digit_run_end(s, e0)
            } else {
                i2
            };
            if has_exp && i3 == e0 {
                None
            } else if i3 != n {
                None
            } else {
                let fl: int = if has_frac {
                    i2 - f0
                } else {
                    0
                };
                let m = digits_val(s, i0, i1) * pow10(fl as nat) + (if has_frac {
                    digits_val(s, f0, i2)
                } else {
                    0
                });
                let ev: int = if has_exp {
                    if e_neg {
                        -digits_val(s, e0, i3)
                    } else {
                        digits_val(s, e0, i3)
                    }
                } else {
                    0
                };
                let shift = ev - fl + 6;
                let mag = if shift >= 0 {
                    m * pow10(shift as nat)
                } else {
                    m / pow10((-shift) as nat)
                };
                if mag > FX_LIM {
                    None
                } else if neg {
                    Some((-mag) as i64)
                } else {
                    Some(mag as i64)
                }
            }
        }
    }
}

/// Ten to any power is positive.
pub proof fn lemma_pow10_pos(n: nat)
    ensures
        pow10(n) >= 1,
    decreases n,
{
    if n > 0 {
        lemma_pow10_pos((n - 1) as nat);
    }
}

/// Ten to a power grows with the power.
pub proof fn lemma_pow10_mono(a: nat, b: nat)
    requires
        a <= b,
    ensures
        pow10(a) <= pow10(b),
    decreases b,
{
    if a < b {
        lemma_pow10_mono(a, (b - 1) as nat);
        lemma_pow10_pos((b - 1) as nat);
    }
}

/// Powers of ten multiply by adding exponents.
pub proof fn lemma_pow10_add(a: nat, b: nat)
    ensures
        pow10(a + b) == pow10(a) * pow10(b),
    decreases b,
{
    if b == 0 {
        assert(pow10(a) * 1 == pow10(a)) by (nonlinear_arith);
    } else {
        lemma_pow10_add(a, (b - 1) as nat);
        assert(10 * (pow10(a) * pow10((b - 1) as nat)) == pow10(a) * (10 * pow10(
            (b - 1) as nat,
        ))) by (nonlinear_arith);
    }
}

/// The run end lies between its start and the end of the text, everything
/// inside the run is a digit, and the run cannot be extended.
pub proof fn lemma_run_end(s: Seq<u8>, i: int)
    requires
        0 <= i <= s.len(),
    ensures
        i <= digit_run_end(s, i) <= s.len(),
        forall|j: int| i <= j < digit_run_end(s, i) ==> is_digit(s[j]),
        digit_run_end(s, i) == s.len() || !is_digit(s[digit_run_end(s, i)]),
    decreases s.len() - i,
{
    if i < s.len() && is_digit(s[i]) {
        lemma_run_end(s, i + 1);
    }
}

/// A digit run's value is nonnegative and below ten to its length.
pub proof fn lemma_digits_val_bound(s: Seq<u8>, lo: int, hi: int)
    requires
        lo <= hi,
        forall|j: int| lo <= j < hi ==> is_digit(s[j]),
    ensures
        0 <= digits_val(s, lo, hi) < pow10((hi - lo) as nat),
    decreases hi - lo,
{
    if lo < hi {
        lemma_digits_val_bound(s, lo, hi - 1);
        let prev = digits_val(s, lo, hi - 1);
        let p = pow10((hi - 1 - lo) as nat);
        assert(prev * 10 + (s[hi - 1] - 48) < 10 * p) by (nonlinear_arith)
            requires
                0 <= prev < p,
                0 <= s[hi - 1] - 48 < 10;
    }
}

/// A digit run's value only grows as the run extends.
pub proof fn lemma_digits_val_mono(s: Seq<u8>, lo: int, h1: int, h2: int)
    requires
        lo <= h1 <= h2,
        forall|j: int| lo <= j < h2 ==> is_digit(s[j]),
    ensures
        digits_val(s, lo, h1) <= digits_val(s, lo, h2),
    decreases h2 - h1,
{
    if h1 < h2 {
        lemma_digits_val_mono(s, lo, h1, h2 - 1);
        lemma_digits_val_bound(s, lo, h2 - 1);
        let v = digits_val(s, lo, h2 - 1);
        assert(v * 10 + (s[h2 - 1] - 48) >= v) by (nonlinear_arith)
            requires
                v >= 0,
                s[h2 - 1] - 48 >= 0;
    }
}

/// The values of the powers of ten the parser compares against directly.
proof fn lemma_pow10_values()
    ensures
        pow10(15) == 1_000_000_000_000_000,
        pow10(16) == 10_000_000_000_000_000,
        pow10(20) == 100_000_000_000_000_000_000,
        pow10(21) == 1_000_000_000_000_000_000_000,
        pow10(31) == 10_000_000_000_000_000_000_000_000_000_000,
{
    reveal_with_fuel(pow10, 33);
    assert(pow10(15) == 1_000_000_000_000_000);
    assert(pow10(20) == 100_000_000_000_000_000_000);
}

/// A value below a power of ten divides to zero by it.
proof fn lemma_small_div_zero(m: int, k: nat)
    requires
        0 <= m < pow10(k),
    ensures
        m / pow10(k) == 0,
{
    lemma_pow10_pos(k);
    lemma_basic_div(m, pow10(k));
}

/// Scaling a value bounded below by a power of ten keeps the combined
/// power as a lower bound.
proof fn lemma_mul_lower(m: int, k: nat, c: nat)
    requires
        m >= pow10(c),
    ensures
        m * pow10(k) >= pow10(c + k),
{
    lemma_pow10_add(c, k);
    lemma_pow10_pos(k);
    assert(m * pow10(k) >= pow10(c) * pow10(k)) by (nonlinear_arith)
        requires
            m >= pow10(c),
            pow10(k) >= 1;
}

/// Dividing a value bounded below by a combined power of ten keeps the
/// remaining power as a lower bound.
proof fn lemma_div_lower(m: int, k: nat, c: nat)
    requires
        m >= pow10(c + k),
    ensures
        m / pow10(k) >= pow10(c),
{
    lemma_pow10_add(c, k);
    lemma_pow10_pos(k);
    lemma_div_is_ordered(pow10(c + k), m, pow10(k));
    lemma_div_multiples_vanish(pow10(c), pow10(k));
    assert(pow10(k) * pow10(c) == pow10(c) * pow10(k)) by (nonlinear_arith);
}

/// One digit of the two runs read as one contiguous digit string, the
/// integer run first.
pub open spec fn cat_at(s: Seq<u8>, a_lo: int, a_hi: int, b_lo: int, k: int) -> u8 {
    if k < a_hi - a_lo {
        s[a_lo + k]
    } else {
        s[b_lo + (k - (a_hi - a_lo))]
    }
}

/// The value of part of the contiguous digit string.
pub open spec fn cat_val(s: Seq<u8>, a_lo: int, a_hi: int, b_lo: int, lo: int, hi: int) -> int
    decreases hi - lo,
{
    if lo >= hi {
        0
    } else {
        cat_val(s, a_lo, a_hi, b_lo, lo, hi - 1) * 10 + (cat_at(s, a_lo, a_hi, b_lo, hi - 1)
            - 48)
    }
}

/// Within the integer run, the contiguous string reads as that run.
proof fn lemma_cat_left(s: Seq<u8>, a_lo: int, a_hi: int, b_lo: int, hi: int)
    requires
        a_lo <= a_hi,
        0 <= hi <= a_hi - a_lo,
    ensures
        cat_val(s, a_lo, a_hi, b_lo, 0, hi) == digits_val(s, a_lo, a_lo + hi),
    decreases hi,
{
    if hi > 0 {
        lemma_cat_left(s, a_lo, a_hi, b_lo, hi - 1);
    }
}

/// Extending past the integer run scales it and appends the fraction run.
proof fn lemma_cat_right(s: Seq<u8>, a_lo: int, a_hi: int, b_lo: int, k: int)
    requires
        a_lo <= a_hi,
        0 <= k,
    ensures
        cat_val(s, a_lo, a_hi, b_lo, 0, (a_hi - a_lo) + k) == digits_val(s, a_lo, a_hi) * pow10(
            k as nat,
        ) + digits_val(s, b_lo, b_lo + k),
    decreases k,
{
    let da = a_hi - a_lo;
    if k == 0 {
        lemma_cat_left(s, a_lo, a_hi, b_lo, da);
        assert(digits_val(s, a_lo, a_hi) * 1 == digits_val(s, a_lo, a_hi)) by (nonlinear_arith);
    } else {
        lemma_cat_right(s, a_lo, a_hi, b_lo, k - 1);
        let a = digits_val(s, a_lo, a_hi);
        let prev = digits_val(s, b_lo, b_lo + k - 1);
        let d = s[b_lo + k - 1] - 48;
        assert((a * pow10((k - 1) as nat) + prev) * 10 + d == a * (10 * pow10((k - 1) as nat)) + (
        prev * 10 + d)) by (nonlinear_arith);
    }
}

/// The contiguous string splits at any point into a scaled head plus a
/// tail.
proof fn lemma_cat_split(s: Seq<u8>, a_lo: int, a_hi: int, b_lo: int, lo: int, mid: int, hi: int)
    requires
        lo <= mid <= hi,
    ensures
        cat_val(s, a_lo, a_hi, b_lo, lo, hi) == cat_val(s, a_lo, a_hi, b_lo, lo, mid) * pow10(
            (hi - mid) as nat,
        ) + cat_val(s, a_lo, a_hi, b_lo, mid, hi),
    decreases hi - mid,
{
    if mid == hi {
        assert(cat_val(s, a_lo, a_hi, b_lo, lo, mid) * 1 == cat_val(s, a_lo, a_hi, b_lo, lo, mid))
            by (nonlinear_arith);
    } else {
        lemma_cat_split(s, a_lo, a_hi, b_lo, lo, mid, hi - 1);
        let x = cat_val(s, a_lo, a_hi, b_lo, lo, mid);
        let y = cat_val(s, a_lo, a_hi, b_lo, mid, hi - 1);
        let d = cat_at(s, a_lo, a_hi, b_lo, hi - 1) - 48;
        assert((x * pow10((hi - 1 - mid) as nat) + y) * 10 + d == x * (10 * pow10(
            (hi - 1 - mid) as nat,
        )) + (y * 10 + d)) by (nonlinear_arith);
    }
}

/// Leading zero digits contribute nothing.
proof fn lemma_cat_zeros(s: Seq<u8>, a_lo: int, a_hi: int, b_lo: int, lo: int, mid: int, hi: int)
    requires
        lo <= mid <= hi,
        forall|k: int| lo <= k < mid ==> cat_at(s, a_lo, a_hi, b_lo, k) == 48,
    ensures
        cat_val(s, a_lo, a_hi, b_lo, lo, hi) == cat_val(s, a_lo, a_hi, b_lo, mid, hi),
{
    lemma_cat_zeros_head(s, a_lo, a_hi, b_lo, lo, mid);
    lemma_cat_split(s, a_lo, a_hi, b_lo, lo, mid, hi);
    assert(0int * pow10((hi - mid) as nat) == 0) by (nonlinear_arith);
}

proof fn lemma_cat_zeros_head(s: Seq<u8>, a_lo: int, a_hi: int, b_lo: int, lo: int, mid: int)
    requires
        lo <= mid,
        forall|k: int| lo <= k < mid ==> cat_at(s, a_lo, a_hi, b_lo, k) == 48,
    ensures
        cat_val(s, a_lo, a_hi, b_lo, lo, mid) == 0,
    decreases mid - lo,
{
    if lo < mid {
        lemma_cat_zeros_head(s, a_lo, a_hi, b_lo, lo, mid - 1);
    }
}

/// Part of the contiguous digit string is nonnegative and below ten to its
/// length.
proof fn lemma_cat_bound(s: Seq<u8>, a_lo: int, a_hi: int, b_lo: int, lo: int, hi: int)
    requires
        lo <= hi,
        forall|k: int| lo <= k < hi ==> is_digit(cat_at(s, a_lo, a_hi, b_lo, k)),
    ensures
        0 <= cat_val(s, a_lo, a_hi, b_lo, lo, hi) < pow10((hi - lo) as nat),
    decreases hi - lo,
{
    if lo < hi {
        lemma_cat_bound(s, a_lo, a_hi, b_lo, lo, hi - 1);
        let prev = cat_val(s, a_lo, a_hi, b_lo, lo, hi - 1);
        let p = pow10((hi - 1 - lo) as nat);
        assert(prev * 10 + (cat_at(s, a_lo, a_hi, b_lo, hi - 1) - 48) < 10 * p)
            by (nonlinear_arith)
            requires
                0 <= prev < p,
                0 <= cat_at(s, a_lo, a_hi, b_lo, hi - 1) - 48 < 10;
    }
}

/// A string starting with a nonzero digit is at least ten to one less than
/// its length.
proof fn lemma_cat_lower(s: Seq<u8>, a_lo: int, a_hi: int, b_lo: int, lo: int, hi: int)
    requires
        lo < hi,
        cat_at(s, a_lo, a_hi, b_lo, lo) > 48,
        forall|k: int| lo <= k < hi ==> is_digit(cat_at(s, a_lo, a_hi, b_lo, k)),
    ensures
        cat_val(s, a_lo, a_hi, b_lo, lo, hi) >= pow10((hi - lo - 1) as nat),
    decreases hi - lo,
{
    if hi == lo + 1 {
    } else {
        lemma_cat_lower(s, a_lo, a_hi, b_lo, lo, hi - 1);
        let prev = cat_val(s, a_lo, a_hi, b_lo, lo, hi - 1);
        assert(prev * 10 + (cat_at(s, a_lo, a_hi, b_lo, hi - 1) - 48) >= prev * 10)
            by (nonlinear_arith)
            requires
                cat_at(s, a_lo, a_hi, b_lo, hi - 1) - 48 >= 0;
        assert(prev * 10 >= pow10((hi - lo - 2) as nat) * 10) by (nonlinear_arith)
            requires
                prev >= pow10((hi - lo - 2) as nat);
    }
}

/// The end of the run of digits starting at `start`.
fn digit_run_end_x(bytes: &[u8], start: usize) -> (r: usize)
    requires
        start <= bytes@.len(),
    ensures
        r == digit_run_end(bytes@, start as int),
        start <= r <= bytes@.len(),
{
    let n = bytes.len();
    let mut i = start;
    while i < n && 48 <= bytes[i] && bytes[i] <= 57
        invariant
            start <= i <= n,
            n == bytes@.len(),
            digit_run_end(bytes@, start as int) == digit_run_end(bytes@, i as int),
        decreases n - i,
    {
        i = i + 1;
    }
    i
}

/// The value of a run of digits, saturating at ten to the twenty-first: a
/// saturated result reports only that the run's value is at least that.
fn digits_val_sat(bytes: &[u8], lo: usize, hi: usize) -> (r: (u128, bool))
    requires
        lo <= hi <= bytes@.len(),
        forall|j: int| lo <= j < hi ==> is_digit(bytes@[j]),
    ensures
        !r.1 ==> r.0 as int == digits_val(bytes@, lo as int, hi as int) && digits_val(
            bytes@,
            lo as int,
            hi as int,
        ) < pow10(21),
        r.1 ==> digits_val(bytes@, lo as int, hi as int) >= pow10(21),
{
    proof {
        lemma_pow10_values();
    }
    let mut acc: u128 = 0;
    let mut sat = false;
    let mut i = lo;
    while i < hi
        invariant
            lo <= i <= hi,
            hi <= bytes@.len(),
            forall|j: int| lo <= j < hi ==> is_digit(bytes@[j]),
            !sat ==> acc as int == digits_val(bytes@, lo as int, i as int) && digits_val(
                bytes@,
                lo as int,
                i as int,
            ) < pow10(21),
            sat ==> digits_val(bytes@, lo as int, i as int) >= pow10(21),
            pow10(21) == 1_000_000_000_000_000_000_000,
        decreases hi - i,
    {
        if sat {
            proof {
                lemma_digits_val_bound(bytes@, lo as int, i as int);
                lemma_digits_val_mono(bytes@, lo as int, i as int, i as int + 1);
            }
        } else {
            let d = (bytes[i] - 48) as u128;
            if acc >= 100_000_000_000_000_000_000 {
                sat = true;
                proof {
                    lemma_digits_val_mono(bytes@, lo as int, i as int, i as int + 1);
                    lemma_pow10_values();
                    assert(digits_val(bytes@, lo as int, i as int + 1) == digits_val(
                        bytes@,
                        lo as int,
                        i as int,
                    ) * 10 + (bytes@[i as int] - 48));
                    assert(digits_val(bytes@, lo as int, i as int) * 10 >= pow10(20) * 10)
                        by (nonlinear_arith)
                        requires
                            digits_val(bytes@, lo as int, i as int) >= pow10(20),
                            pow10(20) >= 0;
                }
            } else {
                acc = acc * 10 + d;
            }
        }
        i = i + 1;
    }
    (acc, sat)
}

/// One digit of the two runs read as one contiguous digit string.
fn digit_at(bytes: &[u8], a_lo: usize, a_hi: usize, b_lo: usize, b_hi: usize, k: usize) -> (r: u8)
    requires
        a_lo <= a_hi <= bytes@.len(),
        b_lo <= b_hi <= bytes@.len(),
        k < (a_hi - a_lo) + (b_hi - b_lo),
    ensures
        r == cat_at(bytes@, a_lo as int, a_hi as int, b_lo as int, k as int),
{
    let da = a_hi - a_lo;
    if k < da {
        bytes[a_lo + k]
    } else {
        bytes[b_lo + (k - da)]
    }
}

/// The value of a short window of the contiguous digit string.
fn cat_read(bytes: &[u8], a_lo: usize, a_hi: usize, b_lo: usize, b_hi: usize, lo: usize, count: usize) -> (r: u128)
    requires
        a_lo <= a_hi <= bytes@.len(),
        b_lo <= b_hi <= bytes@.len(),
        lo + count <= (a_hi - a_lo) + (b_hi - b_lo),
        lo + count <= bytes@.len(),
        count <= 16,
        forall|k: int|
            lo <= k < lo + count ==> is_digit(
                cat_at(bytes@, a_lo as int, a_hi as int, b_lo as int, k),
            ),
    ensures
        r as int == cat_val(bytes@, a_lo as int, a_hi as int, b_lo as int, lo as int, lo as int
            + count as int),
{
    let n = bytes.len();
    let mut acc: u128 = 0;
    let mut t: usize = 0;
    while t < count
        invariant
            t <= count <= 16,
            n == bytes@.len(),
            a_lo <= a_hi <= bytes@.len(),
            b_lo <= b_hi <= bytes@.len(),
            lo + count <= (a_hi - a_lo) + (b_hi - b_lo),
            lo + count <= n,
            forall|k: int|
                lo <= k < lo + count ==> is_digit(
                    cat_at(bytes@, a_lo as int, a_hi as int, b_lo as int, k),
                ),
            acc as int == cat_val(
                bytes@,
                a_lo as int,
                a_hi as int,
                b_lo as int,
                lo as int,
                lo as int + t as int,
            ),
            (acc as int) < pow10(t as nat),
        decreases count - t,
    {
        proof {
            lemma_pow10_values();
            lemma_pow10_mono(t as nat, 15);
            assert(acc as int * 10 + 9 < pow10((t + 1) as nat)) by (nonlinear_arith)
                requires
                    0 <= acc as int,
                    (acc as int) < pow10(t as nat),
                    pow10((t + 1) as nat) == 10 * pow10(t as nat);
        }
        let d = digit_at(bytes, a_lo, a_hi, b_lo, b_hi, lo + t);
        acc = acc * 10 + ((d - 48) as u128);
        t = t + 1;
    }
    acc
}

/// Parse decimal number text into fixed point: the number scaled by
/// `SCALE`, truncated toward zero; nothing when the text is not a decimal
/// number of the accepted shape or the value does not fit the range.
#[verifier::rlimit(100)]
pub fn parse_decimal_fx(bytes: &[u8]) -> (r: Option<i64>)
    ensures
        r == dec_fx_s(bytes@),
{
    let n = bytes.len();
    let neg = n > 0 && bytes[0] == 45;
    let i0: usize = if neg {
        1
    } else {
        0
    };
    let i1 = digit_run_end_x(bytes, i0);
    if i1 == i0 {
        return None;
    }
    proof {
        lemma_run_end(bytes@, i0 as int);
    }
    let has_frac = i1 < n && bytes[i1] == 46;
    let (f0, i2): (usize, usize) = if has_frac {
        let f0 = i1 + 1;
        (f0, digit_run_end_x(bytes, f0))
    } else {
        (i1, i1)
    };
    if has_frac && i2 == f0 {
        return None;
    }
    proof {
        if has_frac {
            lemma_run_end(bytes@, f0 as int);
        }
    }
    let has_exp = i2 < n && (bytes[i2] == 101 || bytes[i2] == 69);
    let (e_neg, e0, i3): (bool, usize, usize) = if has_exp {
        let e_neg = i2 + 1 < n && bytes[i2 + 1] == 45;
        let e_signed = i2 + 1 < n && (bytes[i2 + 1] == 43 || bytes[i2 + 1] == 45);
        let e0 = if e_signed {
            i2 + 2
        } else {
            i2 + 1
        };
        (e_neg, e0, digit_run_end_x(bytes, e0))
    } else {
        (false, i2, i2)
    };
    if has_exp && i3 == e0 {
        return None;
    }
    if i3 != n {
        return None;
    }
    proof {
        if has_exp {
            lemma_run_end(bytes@, e0 as int);
        }
    }

    let fl: usize = if has_frac {
        i2 - f0
    } else {
        0
    };
    let fr_lo: usize = if has_frac {
        f0
    } else {
        i1
    };
    let (e_lo, e_hi): (usize, usize) = if has_exp {
        (e0, i3)
    } else {
        (i2, i2)
    };
    match decimal_mag(bytes, i0, i1, fr_lo, fl, e_lo, e_hi, has_exp && e_neg) {
        Some(v) => if neg {
            Some(-(v as i64))
        } else {
            Some(v as i64)
        },
        None => None,
    }
}

/// The fixed-point magnitude of a parsed number: the digit string's value
/// scaled by the exponent and the fixed-point scale, truncated toward
/// zero; nothing when it is past the representable range. Works on the
/// significant window of the digits, so the runs may be arbitrarily long.
#[verifier::rlimit(100)]
fn decimal_mag(
    bytes: &[u8],
    i0: usize,
    i1: usize,
    fr_lo: usize,
    fl: usize,
    e_lo: usize,
    e_hi: usize,
    e_neg: bool,
) -> (r: Option<u128>)
    requires
        i0 <= i1 <= bytes@.len(),
        fr_lo + fl <= bytes@.len(),
        (i1 - i0) + fl <= bytes@.len(),
        e_lo <= e_hi <= bytes@.len(),
        forall|j: int| i0 <= j < i1 ==> is_digit(bytes@[j]),
        forall|j: int| fr_lo <= j < fr_lo + fl ==> is_digit(bytes@[j]),
        forall|j: int| e_lo <= j < e_hi ==> is_digit(bytes@[j]),
    ensures
        ({
            let m = digits_val(bytes@, i0 as int, i1 as int) * pow10(fl as nat) + digits_val(
                bytes@,
                fr_lo as int,
                fr_lo as int + fl as int,
            );
            let ev: int = if e_neg {
                -digits_val(bytes@, e_lo as int, e_hi as int)
            } else {
                digits_val(bytes@, e_lo as int, e_hi as int)
            };
            let shift = ev - fl + 6;
            let mag = if shift >= 0 {
                m * pow10(shift as nat)
            } else {
                m / pow10((-shift) as nat)
            };
            match r {
                Some(v) => v as int == mag && mag <= FX_LIM,
                None => mag > FX_LIM,
            }
        }),
{
    // the two digit runs as one contiguous digit string
    let n = bytes.len();
    let di: usize = i1 - i0;
    let n_d: usize = di + fl;
    let ghost sv = bytes@;
    let ghost iv = digits_val(sv, i0 as int, i1 as int);
    let ghost fv: int = digits_val(sv, fr_lo as int, fr_lo as int + fl as int);
    let ghost m = iv * pow10(fl as nat) + fv;
    proof {
        lemma_cat_right(sv, i0 as int, i1 as int, fr_lo as int, fl as int);
        assert(cat_val(sv, i0 as int, i1 as int, fr_lo as int, 0, n_d as int) == m);
        assert forall|k: int|
            0 <= k < n_d as int implies is_digit(
            #[trigger] cat_at(sv, i0 as int, i1 as int, fr_lo as int, k),
        ) by {}
        lemma_cat_bound(sv, i0 as int, i1 as int, fr_lo as int, 0, n_d as int);
    }

    // first significant digit of the string
    let mut s1: usize = 0;
    let mut found = false;
    while s1 < n_d && !found
        invariant
            s1 <= n_d,
            sv == bytes@,
            n == sv.len(),
            i0 <= i1 <= n,
            fr_lo <= fr_lo + fl <= n,
            n_d == di + fl && di == i1 - i0,
            found ==> s1 < n_d && cat_at(sv, i0 as int, i1 as int, fr_lo as int, s1 as int)
                != 48,
            forall|k: int|
                0 <= k < s1 ==> cat_at(sv, i0 as int, i1 as int, fr_lo as int, k) == 48,
        decreases n_d - s1 + (if found {
            0int
        } else {
            1int
        }),
    {
        if digit_at(bytes, i0, i1, fr_lo, fr_lo + fl, s1) == 48 {
            s1 = s1 + 1;
        } else {
            found = true;
        }
    }
    proof {
        if !found {
            lemma_cat_zeros(sv, i0 as int, i1 as int, fr_lo as int, 0, s1 as int, n_d as int);
        }
        lemma_pow10_values();
    }
    if !found {
        // every digit is zero: the value is exactly zero
        proof {
            assert(m == 0);
            let ev0: int = if e_neg {
                -digits_val(sv, e_lo as int, e_hi as int)
            } else {
                digits_val(sv, e_lo as int, e_hi as int)
            };
            let shift0 = ev0 - fl + 6;
            if shift0 >= 0 {
                assert(0int * pow10(shift0 as nat) == 0) by (nonlinear_arith);
            } else {
                lemma_pow10_pos((-shift0) as nat);
                lemma_small_div_zero(0, (-shift0) as nat);
            }
        }
        return Some(0);
    }
    let ghost w = n_d as int - s1 as int;
    proof {
        lemma_cat_zeros(sv, i0 as int, i1 as int, fr_lo as int, 0, s1 as int, n_d as int);
        lemma_cat_lower(sv, i0 as int, i1 as int, fr_lo as int, s1 as int, n_d as int);
        lemma_cat_bound(sv, i0 as int, i1 as int, fr_lo as int, s1 as int, n_d as int);
        assert(m >= pow10((w - 1) as nat));
        assert(m < pow10(w as nat));
    }

    // the exponent, saturated far beyond any digit count
    let (e_mag, e_sat) = digits_val_sat(bytes, e_lo, e_hi);
    let ghost ev: int = if e_neg {
        -digits_val(sv, e_lo as int, e_hi as int)
    } else {
        digits_val(sv, e_lo as int, e_hi as int)
    };
    let ghost shift = ev - fl + 6;
    if e_sat {
        proof {
            lemma_pow10_values();
        }
        if e_neg {
            // the divisor dwarfs every possible digit string: zero
            proof {
                assert(shift < 0);
                lemma_pow10_mono(w as nat, ((-shift)) as nat);
                lemma_small_div_zero(m, (-shift) as nat);
            }
            return Some(0);
        } else {
            // a nonzero value scaled beyond any representable magnitude
            proof {
                assert(shift >= 0);
                lemma_mul_lower(m, shift as nat, (w - 1) as nat);
                lemma_pow10_mono(16, ((w - 1) + shift) as nat);
            }
            return None;
        }
    }
    let ev_mag: i128 = e_mag as i128;
    let ev_x: i128 = if e_neg {
        -ev_mag
    } else {
        ev_mag
    };
    let shift_x: i128 = ev_x - (fl as i128) + 6;
    let h: i128 = (n_d as i128) - (s1 as i128) - 1 + shift_x;
    proof {
        assert(shift_x as int == shift);
        assert(h as int == w - 1 + shift);
    }
    if h > 15 {
        // the leading significant digit alone is past the range
        proof {
            lemma_pow10_values();
            lemma_pow10_mono(16, (w - 1 + shift) as nat);
            if shift >= 0 {
                lemma_mul_lower(m, shift as nat, (w - 1) as nat);
            } else {
                lemma_div_lower(m, (-shift) as nat, (w - 1 + shift) as nat);
            }
        }
        return None;
    }
    if h < 0 {
        // even the leading significant digit is below the last fixed-point
        // place: truncation to zero
        proof {
            assert(shift < 0);
            lemma_pow10_mono(w as nat, (-shift) as nat);
            lemma_small_div_zero(m, (-shift) as nat);
        }
        return Some(0);
    }
    // 0 <= h <= 15: the result is the significant window
    let mag: u128 = if shift_x >= 0 {
        // every digit is significant and the whole string fits the window
        let msig = cat_read(bytes, i0, i1, fr_lo, fr_lo + fl, s1, n_d - s1);
        proof {
            lemma_pow10_values();
            lemma_pow10_mono(shift as nat, 15);
            lemma_pow10_mono(w as nat, 16);
            lemma_pow10_pos(shift as nat);
            assert(m * pow10(shift as nat) <= pow10(16) * pow10(15)) by (nonlinear_arith)
                requires
                    0 <= m,
                    m <= pow10(16),
                    0 < pow10(shift as nat),
                    pow10(shift as nat) <= pow10(15);
            assert(pow10(16) * pow10(15) == pow10(31)) by {
                lemma_pow10_add(16, 15);
            }
        }
        let p = pow10_x(shift_x as usize);
        msig * p
    } else {
        // the window holds the digits down to the last fixed-point place;
        // the dropped tail is the division's remainder
        let wl: usize = (h + 1) as usize;
        let wv = cat_read(bytes, i0, i1, fr_lo, fr_lo + fl, s1, wl);
        proof {
            lemma_cat_split(
                sv,
                i0 as int,
                i1 as int,
                fr_lo as int,
                s1 as int,
                s1 as int + wl as int,
                n_d as int,
            );
            lemma_cat_bound(
                sv,
                i0 as int,
                i1 as int,
                fr_lo as int,
                s1 as int + wl as int,
                n_d as int,
            );
            lemma_cat_bound(sv, i0 as int, i1 as int, fr_lo as int, s1 as int, s1 as int
                + wl as int);
            lemma_pow10_pos((-shift) as nat);
            lemma_fundamental_div_mod_converse(
                m,
                pow10((-shift) as nat),
                wv as int,
                cat_val(sv, i0 as int, i1 as int, fr_lo as int, s1 as int + wl as int, n_d as int),
            );
        }
        wv
    };
    if mag > FX_LIM as u128 {
        None
    } else {
        Some(mag)
    }
}

/// Ten to a small power, exactly.
fn pow10_x(k: usize) -> (r: u128)
    requires
        k <= 15,
    ensures
        r as int == pow10(k as nat),
{
    proof {
        lemma_pow10_values();
    }
    let mut r: u128 = 1;
    let mut i: usize = 0;
    while i < k
        invariant
            i <= k <= 15,
            r as int == pow10(i as nat),
        decreases k - i,
    {
        proof {
            lemma_pow10_mono(i as nat, 15);
            lemma_pow10_values();
            lemma_pow10_pos(i as nat);
            assert(r * 10 <= pow10(15) * 10) by (nonlinear_arith)
                requires
                    0 <= r as int,
                    r as int <= pow10(15);
        }
        r = r * 10;
        i = i + 1;
    }
    r
}

} // verus!
