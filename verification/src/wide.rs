//! Double-width unsigned arithmetic: the product of two 128-bit numbers, held as
//! a pair of 128-bit words, and its floor division by a third.

use vstd::arithmetic::div_mod::{
    lemma_div_is_ordered, lemma_div_multiples_vanish, lemma_fundamental_div_mod,
    lemma_fundamental_div_mod_converse,
};
use vstd::arithmetic::power2::{lemma2_to64, lemma_pow2_adds, lemma_pow2_unfold, pow2};
use vstd::prelude::*;

verus! {

/// 2^64, the weight of the upper half of a 128-bit word.
pub const HALF_WORD: u128 = 0x1_0000_0000_0000_0000;

/// 2^127, the weight of the top bit of a 128-bit word.
pub const TOP_BIT: u128 = 0x8000_0000_0000_0000_0000_0000_0000_0000;

/// 2^128, the weight of the upper word of a pair.
pub open spec fn word() -> int {
    0x1_0000_0000_0000_0000_0000_0000_0000_0000int
}

/// The number that the pair `(hi, lo)` stands for.
pub open spec fn wide_value(hi: u128, lo: u128) -> int {
    hi * word() + lo
}

/// `floor(a * b / c)` over the unbounded integers.
pub open spec fn mul_div_floor(a: u128, b: u128, c: u128) -> int
    recommends
        c > 0,
{
    (a * b) / (c as int)
}

/// `floor(a * b / c)` is the one number `q` with `q * c <= a * b < (q + 1) * c`.
pub proof fn lemma_mul_div_floor_bounds(a: u128, b: u128, c: u128)
    requires
        c > 0,
    ensures
        0 <= mul_div_floor(a, b, c),
        mul_div_floor(a, b, c) * c <= a * b < mul_div_floor(a, b, c) * c + c,
{
    let x: int = a * b;
    let d: int = c as int;
    assert(0 <= x) by (nonlinear_arith)
        requires
            x == a * b,
    ;
    lemma_fundamental_div_mod(x, d);
    assert(d * (x / d) == (x / d) * d) by (nonlinear_arith);
    assert(0 <= x / d) by (nonlinear_arith)
        requires
            0 <= x,
            0 < d,
            x < (x / d) * d + d,
    ;
}

proof fn lemma_half_product(x: u128, y: u128)
    by (nonlinear_arith)
    requires
        x < HALF_WORD,
        y < HALF_WORD,
    ensures
        x * y <= 0xFFFF_FFFF_FFFF_FFFE_0000_0000_0000_0001,
{
}

proof fn lemma_split_product(a: int, b: int, ah: int, al: int, bh: int, bl: int, h: int)
    requires
        a == ah * h + al,
        b == bh * h + bl,
    ensures
        a * b == (ah * bh) * (h * h) + (al * bh + ah * bl) * h + al * bl,
{
    let x = ah * h;
    let y = bh * h;
    assert(a * b == x * b + al * b) by (nonlinear_arith)
        requires
            a == x + al,
    ;
    assert(x * b == x * y + x * bl) by (nonlinear_arith)
        requires
            b == y + bl,
    ;
    assert(al * b == al * y + al * bl) by (nonlinear_arith)
        requires
            b == y + bl,
    ;
    assert(x * y == (ah * bh) * (h * h)) by (nonlinear_arith)
        requires
            x == ah * h,
            y == bh * h,
    ;
    assert(x * bl == (ah * bl) * h) by (nonlinear_arith)
        requires
            x == ah * h,
    ;
    assert(al * y == (al * bh) * h) by (nonlinear_arith)
        requires
            y == bh * h,
    ;
    assert((al * bh + ah * bl) * h == (al * bh) * h + (ah * bl) * h) by (nonlinear_arith);
}

proof fn lemma_pow2_128()
    ensures
        pow2(128) == word(),
        pow2(0) == 1,
{
    lemma2_to64();
    lemma_pow2_adds(64, 64);
    assert(pow2(64) * pow2(64) == word()) by (nonlinear_arith)
        requires
            pow2(64) == 0x1_0000_0000_0000_0000;
}

/// One step of the long division: taking the top bit off `rest` halves the weight
/// `p` of what has been consumed and leaves the lower bits, `low - top * p / 2`.
proof fn lemma_take_top_bit(rest: int, low: int, p: int, half_p: int, top: int, r0: int)
    by (nonlinear_arith)
    requires
        p == 2 * half_p,
        half_p >= 1,
        0 <= low < p,
        rest * p == low * 0x1_0000_0000_0000_0000_0000_0000_0000_0000int,
        rest == top * 0x8000_0000_0000_0000_0000_0000_0000_0000 + r0,
        0 <= r0 < 0x8000_0000_0000_0000_0000_0000_0000_0000,
        0 <= top,
    ensures
        0 <= low - top * half_p < half_p,
        (2 * r0) * half_p == (low - top * half_p) * 0x1_0000_0000_0000_0000_0000_0000_0000_0000int,
{
}

/// The quotient and remainder after one more bit, from those before it.
proof fn lemma_extend_quotient(
    n: int,
    c: int,
    quo: int,
    rem: int,
    p: int,
    half_p: int,
    low: int,
    top: int,
    new_quo: int,
    new_rem: int,
)
    by (nonlinear_arith)
    requires
        p == 2 * half_p,
        half_p >= 1,
        quo >= 0,
        n == (quo * c + rem) * p + low,
        (quo + 1) * p <= 0x1_0000_0000_0000_0000_0000_0000_0000_0000int,
        (new_quo == 2 * quo + 1 && new_rem == 2 * rem + top - c) || (new_quo == 2 * quo
            && new_rem == 2 * rem + top),
    ensures
        n == (new_quo * c + new_rem) * half_p + (low - top * half_p),
        (new_quo + 1) * half_p <= 0x1_0000_0000_0000_0000_0000_0000_0000_0000int,
        new_quo + 1 <= 0x1_0000_0000_0000_0000_0000_0000_0000_0000int,
{
}

/// A pair whose upper word is not less than `c` holds at least `c` times 2^128.
proof fn lemma_quotient_needs_two_words(hi: u128, lo: u128, c: u128)
    requires
        0 < c <= hi,
    ensures
        wide_value(hi, lo) / (c as int) >= word(),
{
    let n = wide_value(hi, lo);
    assert(c * word() <= n) by (nonlinear_arith)
        requires
            n == hi * word() + lo,
            hi >= c,
            lo >= 0,
            word() > 0,
    ;
    lemma_div_is_ordered(c * word(), n, c as int);
    lemma_div_multiples_vanish(word(), c as int);
    assert((c as int) * word() == word() * (c as int)) by (nonlinear_arith);
}

/// The full 256-bit product of two 128-bit numbers, as `(hi, lo)`.
pub fn mul_wide(a: u128, b: u128) -> (r: (u128, u128))
    ensures
        wide_value(r.0, r.1) == a * b,
{
    let al: u128 = a % HALF_WORD;
    let ah: u128 = a / HALF_WORD;
    let bl: u128 = b % HALF_WORD;
    let bh: u128 = b / HALF_WORD;
    proof {
        lemma_half_product(al, bl);
        lemma_half_product(al, bh);
        lemma_half_product(ah, bl);
        lemma_half_product(ah, bh);
        lemma_split_product(
            a as int,
            b as int,
            ah as int,
            al as int,
            bh as int,
            bl as int,
            HALF_WORD as int,
        );
    }
    let ll: u128 = al * bl;
    let lh: u128 = al * bh;
    let hl: u128 = ah * bl;
    let hh: u128 = ah * bh;
    let mid: u128 = ll / HALF_WORD + lh % HALF_WORD + hl % HALF_WORD;
    let lo: u128 = (mid % HALF_WORD) * HALF_WORD + ll % HALF_WORD;
    let hi: u128 = hh + lh / HALF_WORD + hl / HALF_WORD + mid / HALF_WORD;
    (hi, lo)
}

/// Floor division of the pair `(hi, lo)` by `c`: `None` where `c` is zero or the
/// quotient does not fit one word, which is where `hi` is not less than `c`.
pub fn div_wide(hi: u128, lo: u128, c: u128) -> (q: Option<u128>)
    ensures
        q is Some <==> hi < c,
        q is Some <==> c > 0 && wide_value(hi, lo) / (c as int) <= u128::MAX,
        q is Some ==> q->0 == wide_value(hi, lo) / (c as int),
{
    let ghost n: int = wide_value(hi, lo);
    if hi >= c {
        proof {
            if c > 0 {
                lemma_quotient_needs_two_words(hi, lo, c);
            }
        }
        return None;
    }
    let ghost mut low: int = lo as int;
    let mut rem: u128 = hi;
    let mut quo: u128 = 0;
    let mut rest: u128 = lo;
    let mut i: u32 = 0;
    proof {
        lemma_pow2_128();
    }
    while i < 128
        invariant
            i <= 128,
            rem < c,
            0 <= low < pow2((128 - i) as nat),
            n == (quo * c + rem) * pow2((128 - i) as nat) + low,
            rest * pow2((128 - i) as nat) == low * word(),
            (quo + 1) * pow2((128 - i) as nat) <= word(),
        decreases 128 - i,
    {
        let top: u128 = rest / TOP_BIT;
        let kept: u128 = rest % TOP_BIT;
        let gap: u128 = c - rem - top;
        let ghost p: int = pow2((128 - i) as nat) as int;
        let ghost half_p: int = pow2((127 - i) as nat) as int;
        let ghost old_quo: int = quo as int;
        let ghost old_rem: int = rem as int;
        proof {
            lemma_pow2_unfold((128 - i) as nat);
            lemma_take_top_bit(rest as int, low, p, half_p, top as int, kept as int);
            if rem >= gap {
                lemma_extend_quotient(
                    n,
                    c as int,
                    old_quo,
                    old_rem,
                    p,
                    half_p,
                    low,
                    top as int,
                    2 * old_quo + 1,
                    old_rem - gap,
                );
            } else {
                lemma_extend_quotient(
                    n,
                    c as int,
                    old_quo,
                    old_rem,
                    p,
                    half_p,
                    low,
                    top as int,
                    2 * old_quo,
                    2 * old_rem + top,
                );
            }
        }
        if rem >= gap {
            rem = rem - gap;
            quo = quo * 2 + 1;
        } else {
            rem = rem + rem + top;
            quo = quo * 2;
        }
        rest = kept * 2;
        i = i + 1;
        proof {
            low = low - top * half_p;
        }
    }
    proof {
        assert(n == quo * c + rem) by (nonlinear_arith)
            requires
                n == (quo * c + rem) * 1 + 0,
        ;
        lemma_fundamental_div_mod_converse(n, c as int, quo as int, rem as int);
    }
    Some(quo)
}

/// `floor(a * b / c)` with a 256-bit intermediate product: `None` where `c` is
/// zero or the quotient does not fit 128 bits.
pub fn mul_div(a: u128, b: u128, c: u128) -> (r: Option<u128>)
    ensures
        r is Some <==> c > 0 && mul_div_floor(a, b, c) <= u128::MAX,
        r is Some ==> r->0 == mul_div_floor(a, b, c),
{
    let (hi, lo) = mul_wide(a, b);
    div_wide(hi, lo, c)
}

} // verus!
