//! Fixed-width integer arithmetic used by the arithmetization: powers of two,
//! 16-bit limb decompositions, and the tailing/picked/leading split of a
//! double-block value at an arbitrary byte position.

use vstd::prelude::*;
use vstd::arithmetic::power2::pow2;
use vstd::arithmetic::power2::lemma_pow2_adds;
use vstd::arithmetic::power2::lemma_pow2_pos;
use vstd::arithmetic::power2::lemma_pow2_strictly_increases;
use vstd::arithmetic::power2::lemma2_to64;
use vstd::arithmetic::power2::lemma2_to64_rest;
use vstd::arithmetic::div_mod::lemma_fundamental_div_mod;
use vstd::arithmetic::div_mod::lemma_div_denominator;
use vstd::arithmetic::div_mod::lemma_mod_multiples_vanish;
use vstd::arithmetic::div_mod::lemma_multiply_divide_lt;
use vstd::arithmetic::div_mod::lemma_div_multiples_vanish_fancy;
use vstd::arithmetic::mul::lemma_mul_inequality;

verus! {

/// Computes `2^e` as a 128-bit integer.
pub fn pow2_u128(e: u64) -> (r: u128)
    requires
        e < 128,
    ensures
        r as nat == pow2(e as nat),
        r >= 1,
{
    proof {
        lemma2_to64();
    }
    let mut r: u128 = 1;
    let mut i: u64 = 0;
    while i < e
        invariant
            i <= e < 128,
            r as nat == pow2(i as nat),
        decreases e - i,
    {
        proof {
            lemma_pow2_adds(i as nat, 1);
            lemma2_to64();
            if i + 1 < 128 {
                lemma_pow2_strictly_increases((i + 1) as nat, 128);
            }
            lemma2_to64_rest();
            assert(pow2(128) == 0x100000000000000000000000000000000) by {
                lemma_pow2_adds(64, 64);
                lemma2_to64();
            }
        }
        r = r * 2;
        i = i + 1;
    }
    proof {
        lemma_pow2_pos(e as nat);
    }
    r
}

/// The `k`-th little-endian 16-bit limb of `v` is `(v / 2^(16k)) % 2^16`;
/// a 64-bit value is the weighted sum of its four limbs.
pub proof fn lemma_u64_limbs(v: u64)
    ensures
        v == (v as int % 0x10000) + 0x10000 * ((v as int / 0x10000) % 0x10000) + 0x100000000 * ((
        v as int / 0x100000000) % 0x10000) + 0x1000000000000 * (v as int / 0x1000000000000),
        v as int / 0x1000000000000 < 0x10000,
{
    let x = v as int;
    lemma_fundamental_div_mod(x, 0x10000);
    lemma_fundamental_div_mod(x / 0x10000, 0x10000);
    lemma_fundamental_div_mod(x / 0x100000000, 0x10000);
    lemma_div_denominator(x, 0x10000, 0x10000);
    lemma_div_denominator(x, 0x100000000, 0x10000);
    assert(x / 0x1000000000000 < 0x10000) by {
        lemma_multiply_divide_lt(x, 0x1000000000000, 0x10000);
    }
}

/// A 32-bit value is the weighted sum of its two 16-bit limbs.
pub proof fn lemma_u32_limbs(v: u32)
    ensures
        v == (v as int % 0x10000) + 0x10000 * (v as int / 0x10000),
        v as int / 0x10000 < 0x10000,
{
    lemma_fundamental_div_mod(v as int, 0x10000);
    lemma_multiply_divide_lt(v as int, 0x10000, 0x10000);
}

/// Splits `v` at bit positions `a` and `a + b` into a low part, a middle
/// part, and a high part: `v = low + 2^a * mid + 2^(a+b) * high`.
pub proof fn lemma_three_part_split(v: int, a: nat, b: nat)
    requires
        0 <= v,
    ensures
        v == v % (pow2(a) as int) + pow2(a) * ((v / (pow2(a) as int)) % (pow2(b) as int)) + pow2(
            (a + b) as nat,
        ) * (v / (pow2((a + b) as nat) as int)),
        0 <= v % (pow2(a) as int) < pow2(a),
        0 <= (v / (pow2(a) as int)) % (pow2(b) as int) < pow2(b),
        0 <= v / (pow2((a + b) as nat) as int),
{
    lemma_pow2_pos(a);
    lemma_pow2_pos(b);
    lemma_pow2_pos((a + b) as nat);
    lemma_pow2_adds(a, b);
    let pa = pow2(a) as int;
    let pb = pow2(b) as int;
    let q = v / pa;
    lemma_fundamental_div_mod(v, pa);
    lemma_fundamental_div_mod(q, pb);
    lemma_div_denominator(v, pa, pb);
    assert(0 <= q) by {
        vstd::arithmetic::div_mod::lemma_div_pos_is_pos(v, pa);
    }
    assert(0 <= v / (pa * pb)) by {
        vstd::arithmetic::div_mod::lemma_div_pos_is_pos(v, pa * pb);
    }
    // v = pa * q + v % pa and q = pb * (q / pb) + q % pb, with q / pb = v / (pa * pb)
    assert(pa * q == pa * (pb * (q / pb)) + pa * (q % pb)) by (nonlinear_arith)
        requires
            q == pb * (q / pb) + q % pb,
    ;
    assert(pa * (pb * (q / pb)) == (pa * pb) * (q / pb)) by (nonlinear_arith);
}

/// If `v < 2^n`, the high part of the split above is bounded by
/// `2^(n - (a+b))` when `a + b <= n`.
pub proof fn lemma_div_pow2_bound(v: int, c: nat, n: nat)
    requires
        0 <= v < pow2(n),
        c <= n,
    ensures
        v / (pow2(c) as int) < pow2((n - c) as nat),
{
    lemma_pow2_pos(c);
    lemma_pow2_pos((n - c) as nat);
    lemma_pow2_adds(c, (n - c) as nat);
    lemma_multiply_divide_lt(v, pow2(c) as int, pow2((n - c) as nat) as int);
}

/// Byte `i` of a non-negative integer, little-endian.
pub open spec fn byte_of(v: int, i: nat) -> int {
    (v / (pow2((8 * i) as nat) as int)) % 256
}

/// Splitting a value as `lo + 2^(8m) * hi` with `lo < 2^(8m)` splits its
/// bytes: the first `m` bytes come from `lo`, the rest from `hi`.
pub proof fn lemma_byte_of_split(lo: int, hi: int, m: nat, i: nat)
    requires
        0 <= lo < pow2((8 * m) as nat),
        0 <= hi,
    ensures
        i < m ==> byte_of(lo + pow2((8 * m) as nat) * hi, i) == byte_of(lo, i),
        i >= m ==> byte_of(lo + pow2((8 * m) as nat) * hi, i) == byte_of(hi, (i - m) as nat),
{
    let pm = pow2((8 * m) as nat) as int;
    let v = lo + pm * hi;
    lemma_pow2_pos((8 * m) as nat);
    lemma_pow2_pos((8 * i) as nat);
    if i < m {
        let pi = pow2((8 * i) as nat) as int;
        let d = pow2((8 * (m - i)) as nat) as int;
        lemma_pow2_adds((8 * i) as nat, (8 * (m - i)) as nat);
        assert(pm == pi * d);
        // v / 2^(8i) == lo / 2^(8i) + hi * 2^(8(m-i))
        assert(v / pi == lo / pi + hi * d) by {
            assert(v == pi * (hi * d) + lo) by (nonlinear_arith)
                requires
                    v == lo + (pi * d) * hi,
            ;
            lemma_pow2_pos((8 * (m - i)) as nat);
            vstd::arithmetic::div_mod::lemma_hoist_over_denominator(lo, hi * d, pow2(
                (8 * i) as nat,
            ));
        }
        // hi * 2^(8(m-i)) is a multiple of 256 because m - i >= 1
        let e = pow2((8 * (m - i) - 8) as nat) as int;
        lemma_pow2_adds(8, (8 * (m - i) - 8) as nat);
        lemma2_to64();
        assert(d == 256 * e);
        assert((lo / pi + hi * (256 * e)) % 256 == (lo / pi) % 256) by {
            assert(hi * (256 * e) == 256 * (hi * e)) by (nonlinear_arith);
            lemma_mod_multiples_vanish(hi * e, lo / pi, 256);
        }
    } else {
        let pj = pow2((8 * (i - m)) as nat) as int;
        lemma_pow2_pos((8 * (i - m)) as nat);
        lemma_pow2_adds((8 * m) as nat, (8 * (i - m)) as nat);
        assert(pow2((8 * i) as nat) as int == pm * pj);
        // v / 2^(8m) == hi, then divide again by 2^(8(i-m))
        assert(v / pm == hi) by {
            lemma_div_multiples_vanish_fancy(hi, lo, pm);
            assert(pm * hi + lo == lo + pm * hi);
        }
        lemma_div_denominator(v, pm, pj);
        assert(v / (pm * pj) == hi / pj);
    }
}

/// Bytes below the width survive truncation: byte `i` of `v % 2^(8w)` is
/// byte `i` of `v` when `i < w`.
pub proof fn lemma_byte_of_mod(v: int, w: nat, i: nat)
    requires
        0 <= v,
        i < w,
    ensures
        byte_of(v % (pow2((8 * w) as nat) as int), i) == byte_of(v, i),
{
    let pw = pow2((8 * w) as nat) as int;
    lemma_pow2_pos((8 * w) as nat);
    lemma_fundamental_div_mod(v, pw);
    let lo = v % pw;
    let hi = v / pw;
    assert(0 <= hi) by {
        vstd::arithmetic::div_mod::lemma_div_pos_is_pos(v, pw);
    }
    assert(v == lo + pw * hi);
    lemma_byte_of_split(lo, hi, w, i);
}

/// Multiplying both sides preserves `<=` (re-export convenience).
pub proof fn lemma_mul_le(a: int, b: int, c: int)
    requires
        0 <= a <= b,
        0 <= c,
    ensures
        a * c <= b * c,
{
    lemma_mul_inequality(a, b, c);
}


} // verus!
