//! 68.60 binary fixed-point arithmetic.
//!
//! A `Fraction` stores a non-negative number as `bits / 2^60` in a `u128`
//! (68 integer bits, 60 fractional bits). Every intermediate Kamino
//! valuation step runs on this type. All operations are checked: on
//! overflow they return `None`, never wrap and never panic.
//!
//! `from_bits` interprets a raw 128-bit value directly as fixed-point
//! storage (not as a decimal scaling); call sites that feed plain base-10
//! magnitudes through it rely on that bit-for-bit reading.

use vstd::prelude::*;
use vstd::arithmetic::div_mod::{
    lemma_fundamental_div_mod,
    lemma_fundamental_div_mod_converse_div,
    lemma_div_denominator,
    lemma_div_multiples_vanish,
    lemma_mod_multiples_vanish,
    lemma_multiply_divide_lt,
    lemma_div_is_ordered,
};
use vstd::arithmetic::mul::{lemma_mul_upper_bound, lemma_mul_inequality};

verus! {

/// 2^60: one whole unit in fixed-point storage.
pub const FRACTION_ONE_BITS: u128 = 0x1000_0000_0000_0000;

/// 2^64, the limb base used by the wide-arithmetic helpers.
pub const LIMB_BASE: u128 = 0x1_0000_0000_0000_0000;

/// 2^68 = 2^128 / 2^60.
pub const TWO_POW_68: u128 = 0x10_0000_0000_0000_0000;

/// 2^127.
pub const TWO_POW_127: u128 = 0x8000_0000_0000_0000_0000_0000_0000_0000;

/// 2^n as a mathematical integer.
pub open spec fn pow2_int(n: nat) -> int
    decreases n,
{
    if n == 0 {
        1
    } else {
        2 * pow2_int((n - 1) as nat)
    }
}

/// 2^128 as a mathematical integer (one more than `u128::MAX`).
pub open spec fn two_pow_128() -> int {
    0x1_0000_0000_0000_0000_0000_0000_0000_0000int
}

/// The value of a 256-bit quantity held as two 128-bit halves.
pub open spec fn wide_val(hi: u128, lo: u128) -> int {
    hi * two_pow_128() + lo
}

proof fn lemma_pow2_int_pos(n: nat)
    ensures
        pow2_int(n) >= 1,
    decreases n,
{
    if n > 0 {
        lemma_pow2_int_pos((n - 1) as nat);
    }
}

proof fn lemma_pow2_int_adds(a: nat, b: nat)
    ensures
        pow2_int(a) * pow2_int(b) == pow2_int((a + b) as nat),
    decreases a,
{
    if a == 0 {
        assert(pow2_int(0) * pow2_int(b) == pow2_int(b)) by (nonlinear_arith)
            requires
                pow2_int(0) == 1,
        ;
    } else {
        lemma_pow2_int_adds((a - 1) as nat, b);
        assert((2 * pow2_int((a - 1) as nat)) * pow2_int(b) == 2 * (pow2_int((a - 1) as nat)
            * pow2_int(b))) by (nonlinear_arith);
    }
}

/// The handful of concrete powers of two the executable code works with.
proof fn lemma_pow2_int_values()
    ensures
        pow2_int(60) == FRACTION_ONE_BITS,
        pow2_int(64) == LIMB_BASE,
        pow2_int(68) == TWO_POW_68,
        pow2_int(127) == TWO_POW_127,
        pow2_int(128) == two_pow_128(),
{
    reveal_with_fuel(pow2_int, 17);
    assert(pow2_int(4) == 0x10);
    assert(pow2_int(12) == 0x1000);
    assert(pow2_int(15) == 0x8000);
    assert(pow2_int(16) == 0x10000);
    lemma_pow2_int_adds(16, 16);
    assert(pow2_int(32) == 0x1_0000_0000);
    lemma_pow2_int_adds(32, 16);
    assert(pow2_int(48) == 0x1_0000_0000_0000);
    lemma_pow2_int_adds(32, 32);
    assert(pow2_int(64) == LIMB_BASE);
    lemma_pow2_int_adds(48, 12);
    assert(pow2_int(60) == FRACTION_ONE_BITS);
    lemma_pow2_int_adds(48, 15);
    assert(pow2_int(63) == 0x8000_0000_0000_0000);
    lemma_pow2_int_adds(64, 4);
    assert(pow2_int(68) == TWO_POW_68);
    lemma_pow2_int_adds(64, 63);
    assert(pow2_int(127) == TWO_POW_127);
    lemma_pow2_int_adds(64, 64);
    assert(pow2_int(128) == two_pow_128());
}

/// Powers of two are monotone in the exponent.
proof fn lemma_pow2_int_mono(a: nat, b: nat)
    requires
        a <= b,
    ensures
        pow2_int(a) <= pow2_int(b),
    decreases b,
{
    if a < b {
        lemma_pow2_int_mono(a, (b - 1) as nat);
        lemma_pow2_int_pos((b - 1) as nat);
    }
}

proof fn lemma_pow2_int_below_128(n: nat)
    requires
        n <= 128,
    ensures
        pow2_int(n) <= two_pow_128(),
        n < 128 ==> 2 * pow2_int(n) <= two_pow_128(),
{
    lemma_pow2_int_values();
    lemma_pow2_int_mono(n, 128);
    if n < 128 {
        lemma_pow2_int_mono((n + 1) as nat, 128);
    }
}

/// `(d * c + b) / d == c + b / d` for a non-negative numerator.
proof fn lemma_div_plus_multiple(b: int, c: int, d: int)
    requires
        0 < d,
        0 <= b,
        0 <= c,
    ensures
        (d * c + b) / d == c + b / d,
{
    lemma_fundamental_div_mod(b, d);
    assert(d * c + b == d * (c + b / d) + b % d) by (nonlinear_arith)
        requires
            b == d * (b / d) + b % d,
    ;
    lemma_fundamental_div_mod_converse_div(d * c + b, d, c + b / d, b % d);
}

/// Bit `j` of the low half is bit `j` of the whole 256-bit value.
proof fn lemma_low_bit_of_wide(hi: u128, lo: u128, j: nat)
    requires
        j < 128,
    ensures
        (lo as int / pow2_int(j)) % 2 == (wide_val(hi, lo) / pow2_int(j)) % 2,
        wide_val(hi, lo) / pow2_int(j) == hi * pow2_int((128 - j) as nat) + lo as int / pow2_int(
            j,
        ),
{
    let p = pow2_int(j);
    let k = (128 - j) as nat;
    lemma_pow2_int_pos(j);
    lemma_pow2_int_pos((k - 1) as nat);
    lemma_pow2_int_values();
    lemma_pow2_int_adds(j, k);
    assert(hi * (pow2_int(j) * pow2_int(k)) == pow2_int(j) * (hi * pow2_int(k)))
        by (nonlinear_arith);
    assert(wide_val(hi, lo) == p * (hi * pow2_int(k)) + lo);
    assert(hi * pow2_int(k) >= 0) by (nonlinear_arith)
        requires
            pow2_int(k) >= 1,
    ;
    lemma_div_plus_multiple(lo as int, hi * pow2_int(k), p);
    assert(wide_val(hi, lo) / p == hi * pow2_int(k) + lo as int / p);
    assert(hi * pow2_int(k) == 2 * (hi * pow2_int((k - 1) as nat))) by (nonlinear_arith)
        requires
            pow2_int(k) == 2 * pow2_int((k - 1) as nat),
    ;
    lemma_mod_multiples_vanish(hi as int * pow2_int((k - 1) as nat), lo as int / p, 2);
}

/// Full 256-bit product of two 128-bit values, as (high, low) halves.
pub fn mul_wide(a: u128, b: u128) -> (r: (u128, u128))
    ensures
        wide_val(r.0, r.1) == a * b,
{
    proof {
        assert(LIMB_BASE * LIMB_BASE == two_pow_128());
    }
    let a_hi = a / LIMB_BASE;
    let a_lo = a % LIMB_BASE;
    let b_hi = b / LIMB_BASE;
    let b_lo = b % LIMB_BASE;
    proof {
        lemma_fundamental_div_mod(a as int, LIMB_BASE as int);
        lemma_fundamental_div_mod(b as int, LIMB_BASE as int);
        lemma_multiply_divide_lt(a as int, LIMB_BASE as int, LIMB_BASE as int);
        lemma_multiply_divide_lt(b as int, LIMB_BASE as int, LIMB_BASE as int);
        lemma_mul_upper_bound(a_hi as int, LIMB_BASE - 1, b_hi as int, LIMB_BASE - 1);
        lemma_mul_upper_bound(a_hi as int, LIMB_BASE - 1, b_lo as int, LIMB_BASE - 1);
        lemma_mul_upper_bound(a_lo as int, LIMB_BASE - 1, b_hi as int, LIMB_BASE - 1);
        lemma_mul_upper_bound(a_lo as int, LIMB_BASE - 1, b_lo as int, LIMB_BASE - 1);
        assert((LIMB_BASE - 1) * (LIMB_BASE - 1) < two_pow_128());
    }
    let p_hh = a_hi * b_hi;
    let p_hl = a_hi * b_lo;
    let p_lh = a_lo * b_hi;
    let p_ll = a_lo * b_lo;
    proof {
        // Each partial product is under 2^64 * (2^64 - 1), so its high limb
        // is at most 2^64 - 2.
        assert((LIMB_BASE - 1) * (LIMB_BASE - 1) < LIMB_BASE * (LIMB_BASE - 1))
            ;
        lemma_multiply_divide_lt(p_hl as int, LIMB_BASE as int, LIMB_BASE - 1);
        lemma_multiply_divide_lt(p_lh as int, LIMB_BASE as int, LIMB_BASE - 1);
        lemma_multiply_divide_lt(p_ll as int, LIMB_BASE as int, LIMB_BASE - 1);
        lemma_fundamental_div_mod(p_hl as int, LIMB_BASE as int);
        lemma_fundamental_div_mod(p_lh as int, LIMB_BASE as int);
        lemma_fundamental_div_mod(p_ll as int, LIMB_BASE as int);
    }
    let t = p_ll / LIMB_BASE + p_lh % LIMB_BASE + p_hl % LIMB_BASE;
    proof {
        lemma_fundamental_div_mod(t as int, LIMB_BASE as int);
        assert(t < 3 * LIMB_BASE);
        lemma_multiply_divide_lt(t as int, LIMB_BASE as int, 3);
        lemma_mul_inequality(t as int % LIMB_BASE as int, LIMB_BASE - 1, LIMB_BASE as int);
        assert((LIMB_BASE - 1) * LIMB_BASE + (LIMB_BASE - 1) == u128::MAX);
        assert((LIMB_BASE - 1) * (LIMB_BASE - 1) + 2 * (LIMB_BASE - 2) + 2 == u128::MAX)
            ;
    }
    let lo = p_ll % LIMB_BASE + (t % LIMB_BASE) * LIMB_BASE;
    let hi = p_hh + p_lh / LIMB_BASE + p_hl / LIMB_BASE + t / LIMB_BASE;
    proof {
        let la = LIMB_BASE as int;
        let kk = two_pow_128();
        assert(a * b == (p_hh as int) * kk + (p_lh as int) * la + (p_hl as int) * la
            + p_ll as int) by (nonlinear_arith)
            requires
                a == a_hi * la + a_lo,
                b == b_hi * la + b_lo,
                p_hh == a_hi * b_hi,
                p_lh == a_lo * b_hi,
                p_hl == a_hi * b_lo,
                p_ll == a_lo * b_lo,
                kk == la * la,
        ;
        assert(hi as int * kk + lo == (p_hh as int) * kk + (p_lh as int) * la + (p_hl as int)
            * la + p_ll as int) by (nonlinear_arith)
            requires
                hi == p_hh as int + p_lh as int / la + p_hl as int / la + t as int / la,
                lo == p_ll as int % la + (t as int % la) * la,
                t == p_ll as int / la + p_lh as int % la + p_hl as int % la,
                t == (t as int / la) * la + t as int % la,
                p_ll == (p_ll as int / la) * la + p_ll as int % la,
                p_lh == (p_lh as int / la) * la + p_lh as int % la,
                p_hl == (p_hl as int / la) * la + p_hl as int % la,
                kk == la * la,
        ;
    }
    (hi, lo)
}

/// Quotient of a 256-bit value by a 128-bit divisor, by restoring binary
/// division over the low half. The quotient fits in 128 bits exactly when
/// `hi < d`, which callers must establish.
pub fn div_wide(hi: u128, lo: u128, d: u128) -> (q: u128)
    requires
        0 < d,
        hi < d,
    ensures
        q == wide_val(hi, lo) / (d as int),
{
    let ghost v = wide_val(hi, lo);
    let mut q: u128 = 0;
    let mut r: u128 = hi;
    let mut mask: u128 = TWO_POW_127;
    let mut i: usize = 0;
    proof {
        lemma_pow2_int_values();
        assert(v / pow2_int(128) == hi) by {
            lemma_div_plus_multiple(lo as int, hi as int, two_pow_128());
            assert(v == two_pow_128() * hi + lo) by (nonlinear_arith)
                requires
                    v == hi * two_pow_128() + lo,
            ;
            assert(lo as int / two_pow_128() == 0);
        };
        assert(pow2_int(0) * d == d) by (nonlinear_arith)
            requires
                pow2_int(0) == 1,
        ;
    }
    while i < 128
        invariant
            0 < d,
            i <= 128,
            v == wide_val(hi, lo),
            i < 128 ==> mask as int == pow2_int((127 - i) as nat),
            r < d,
            q < pow2_int(i as nat),
            pow2_int(i as nat) <= two_pow_128(),
            q * d + r == v / pow2_int((128 - i) as nat),
            v / pow2_int((128 - i) as nat) < pow2_int(i as nat) * d,
        decreases 128 - i,
    {
        let ghost m = (128 - i) as nat;
        let ghost j = (m - 1) as nat;
        let ghost w0 = v / pow2_int(m);
        let ghost q0 = q as int;
        let ghost r0 = r as int;
        proof {
            lemma_pow2_int_pos((127 - i) as nat);
        }
        let bit: u128 = (lo / mask) % 2;
        proof {
            lemma_pow2_int_pos(j);
            lemma_low_bit_of_wide(hi, lo, j);
            assert(bit == (v / pow2_int(j)) % 2);
            assert(pow2_int(j) * 2 == pow2_int(m)) by (nonlinear_arith)
                requires
                    pow2_int(m) == 2 * pow2_int(j),
            ;
            lemma_div_denominator(v, pow2_int(j), 2);
            lemma_fundamental_div_mod(v / pow2_int(j), 2);
            assert(v / pow2_int(j) == 2 * w0 + bit);
            assert(2 * w0 + bit < 2 * (pow2_int(i as nat) * d));
            assert(2 * (pow2_int(i as nat) * d) == pow2_int((i + 1) as nat) * d)
                by (nonlinear_arith)
                requires
                    pow2_int((i + 1) as nat) == 2 * pow2_int(i as nat),
            ;
            lemma_pow2_int_below_128((i + 1) as nat);
        }
        let ghost w1 = v / pow2_int(j);
        if r >= TWO_POW_127 {
            // 2r + bit is at least 2^128 > d, so the next quotient bit is 1.
            proof {
                lemma_fundamental_div_mod(d as int, 2);
                lemma_div_is_ordered(d as int, u128::MAX as int, 2);
            }
            let s = r - d / 2;
            let t2 = s + s;
            r = t2 + bit - d % 2;
            q = q * 2 + 1;
            proof {
                assert(r == 2 * r0 + bit - d);
                assert(q * d + r == 2 * (q0 * d + r0) + bit) by (nonlinear_arith)
                    requires
                        q == 2 * q0 + 1,
                        r == 2 * r0 + bit - d,
                ;
            }
        } else {
            let t2 = r * 2 + bit;
            if t2 >= d {
                r = t2 - d;
                q = q * 2 + 1;
                proof {
                    assert(q * d + r == 2 * (q0 * d + r0) + bit) by (nonlinear_arith)
                        requires
                            q == 2 * q0 + 1,
                            r == 2 * r0 + bit - d,
                    ;
                }
            } else {
                r = t2;
                q = q * 2;
                proof {
                    assert(q * d + r == 2 * (q0 * d + r0) + bit) by (nonlinear_arith)
                        requires
                            q == 2 * q0,
                            r == 2 * r0 + bit,
                    ;
                }
            }
        }
        proof {
            assert(q * d + r == w1);
            assert(q < pow2_int((i + 1) as nat)) by {
                if q >= pow2_int((i + 1) as nat) {
                    lemma_mul_inequality(pow2_int((i + 1) as nat), q as int, d as int);
                }
            };
        }
        let ghost mask0 = mask as int;
        i = i + 1;
        mask = mask / 2;
        proof {
            if i < 128 {
                assert(mask0 == 2 * pow2_int((127 - i) as nat));
                lemma_div_multiples_vanish(pow2_int((127 - i) as nat), 2);
                assert(mask as int == pow2_int((127 - i) as nat));
            }
        }
    }
    proof {
        assert(pow2_int(0) == 1);
        vstd::arithmetic::div_mod::lemma_div_basics(v);
        assert(q * d + r == v);
        lemma_fundamental_div_mod_converse_div(v, d as int, q as int, r as int);
    }
    q
}

} // verus!

use vstd::arithmetic::div_mod::lemma_div_by_multiple;

verus! {

/// A 68.60 fixed-point number holding `bits / 2^60`.
#[derive(Clone, Copy, Debug, PartialEq, Eq, Structural)]
pub struct Fraction {
    pub bits: u128,
}

/// Raw storage of the fixed-point product `(a/2^60) * (b/2^60)`,
/// truncated toward zero.
pub open spec fn frac_mul_val(a: u128, b: u128) -> int {
    (a * b) / (FRACTION_ONE_BITS as int)
}

/// Raw storage of the fixed-point quotient `(a/2^60) / (b/2^60)`,
/// truncated toward zero.
pub open spec fn frac_div_val(a: u128, b: u128) -> int
    recommends
        b > 0,
{
    (a * FRACTION_ONE_BITS) / (b as int)
}

impl Fraction {
    /// Zero.
    pub fn zero() -> (r: Fraction)
        ensures
            r.bits == 0,
    {
        Fraction { bits: 0 }
    }

    /// Exactly one.
    pub fn one() -> (r: Fraction)
        ensures
            r.bits == FRACTION_ONE_BITS,
    {
        Fraction { bits: FRACTION_ONE_BITS }
    }

    /// Reinterprets a raw 128-bit value as fixed-point storage.
    pub fn from_bits(b: u128) -> (r: Fraction)
        ensures
            r.bits == b,
    {
        Fraction { bits: b }
    }

    /// The whole number `n`.
    pub fn from_u64(n: u64) -> (r: Fraction)
        ensures
            r.bits == n * FRACTION_ONE_BITS,
    {
        proof {
            lemma_mul_inequality(n as int, u64::MAX as int, FRACTION_ONE_BITS as int);
        }
        Fraction { bits: (n as u128) * FRACTION_ONE_BITS }
    }

    /// `n` percent, that is `n / 100`, truncated toward zero.
    pub fn from_percent(n: u64) -> (r: Fraction)
        ensures
            r.bits == n * FRACTION_ONE_BITS / 100,
    {
        proof {
            lemma_mul_inequality(n as int, u64::MAX as int, FRACTION_ONE_BITS as int);
        }
        Fraction { bits: (n as u128) * FRACTION_ONE_BITS / 100 }
    }

    /// `n` basis points, that is `n / 10000`, truncated toward zero.
    pub fn from_bps(n: u64) -> (r: Fraction)
        ensures
            r.bits == n * FRACTION_ONE_BITS / 10000,
    {
        proof {
            lemma_mul_inequality(n as int, u64::MAX as int, FRACTION_ONE_BITS as int);
        }
        Fraction { bits: (n as u128) * FRACTION_ONE_BITS / 10000 }
    }

    /// Whether this is exactly zero.
    pub fn is_zero(&self) -> (r: bool)
        ensures
            r == (self.bits == 0),
    {
        self.bits == 0
    }

    /// Checked addition on the underlying storage.
    pub fn checked_add(self, other: Fraction) -> (r: Option<Fraction>)
        ensures
            match r {
                Some(f) => f.bits == self.bits + other.bits,
                None => self.bits + other.bits > u128::MAX,
            },
    {
        match self.bits.checked_add(other.bits) {
            Some(b) => Some(Fraction { bits: b }),
            None => None,
        }
    }

    /// Checked subtraction on the underlying storage.
    pub fn checked_sub(self, other: Fraction) -> (r: Option<Fraction>)
        ensures
            match r {
                Some(f) => f.bits == self.bits - other.bits,
                None => other.bits > self.bits,
            },
    {
        match self.bits.checked_sub(other.bits) {
            Some(b) => Some(Fraction { bits: b }),
            None => None,
        }
    }

    /// Checked fixed-point multiplication: `a * b / 2^60` on storage,
    /// truncated, `None` exactly when the result needs more than 128 bits.
    pub fn checked_mul(self, other: Fraction) -> (r: Option<Fraction>)
        ensures
            match r {
                Some(f) => f.bits == frac_mul_val(self.bits, other.bits),
                None => frac_mul_val(self.bits, other.bits) > u128::MAX,
            },
    {
        let (hi, lo) = mul_wide(self.bits, other.bits);
        proof {
            lemma_pow2_int_values();
        }
        if hi >= FRACTION_ONE_BITS {
            proof {
                let prod = self.bits as int * other.bits as int;
                let f1 = FRACTION_ONE_BITS as int;
                assert(prod >= f1 * two_pow_128()) by (nonlinear_arith)
                    requires
                        prod == hi * two_pow_128() + lo,
                        hi >= f1,
                        lo >= 0,
                        f1 > 0,
                ;
                lemma_div_by_multiple(two_pow_128(), f1);
                lemma_div_is_ordered(f1 * two_pow_128(), prod, f1);
                assert(two_pow_128() * f1 == f1 * two_pow_128()) by (nonlinear_arith);
            }
            None
        } else {
            proof {
                let f1 = FRACTION_ONE_BITS as int;
                lemma_mul_inequality(hi as int, f1 - 1, TWO_POW_68 as int);
                assert((f1 - 1) * TWO_POW_68 + (TWO_POW_68 - 1) == u128::MAX);
                lemma_multiply_divide_lt(lo as int, f1, TWO_POW_68 as int);
                assert(hi * two_pow_128() + lo == f1 * (hi * TWO_POW_68) + lo)
                    by (nonlinear_arith)
                    requires
                        f1 * TWO_POW_68 == two_pow_128(),
                        f1 == FRACTION_ONE_BITS as int,
                ;
                assert(hi * TWO_POW_68 >= 0) by (nonlinear_arith)
                    requires
                        hi >= 0,
                ;
                lemma_div_plus_multiple(lo as int, hi as int * TWO_POW_68 as int, f1);
            }
            Some(Fraction { bits: hi * TWO_POW_68 + lo / FRACTION_ONE_BITS })
        }
    }

    /// Checked fixed-point division: `a * 2^60 / b` on storage, truncated.
    /// `None` when the divisor is zero or the quotient needs more than
    /// 128 bits.
    pub fn checked_div(self, other: Fraction) -> (r: Option<Fraction>)
        ensures
            other.bits == 0 ==> r is None,
            other.bits != 0 ==> match r {
                Some(f) => f.bits == frac_div_val(self.bits, other.bits),
                None => frac_div_val(self.bits, other.bits) > u128::MAX,
            },
    {
        if other.bits == 0 {
            return None;
        }
        let hi = self.bits / TWO_POW_68;
        let lo = (self.bits % TWO_POW_68) * FRACTION_ONE_BITS;
        proof {
            lemma_pow2_int_values();
            lemma_fundamental_div_mod(self.bits as int, TWO_POW_68 as int);
            lemma_mul_inequality(
                self.bits as int % TWO_POW_68 as int,
                TWO_POW_68 - 1,
                FRACTION_ONE_BITS as int,
            );
            assert((TWO_POW_68 - 1) * FRACTION_ONE_BITS <= u128::MAX);
            assert(wide_val(hi, lo) == self.bits * FRACTION_ONE_BITS) by (nonlinear_arith)
                requires
                    self.bits == TWO_POW_68 * hi + self.bits as int % TWO_POW_68 as int,
                    lo == (self.bits as int % TWO_POW_68 as int) * FRACTION_ONE_BITS,
                    wide_val(hi, lo) == hi * two_pow_128() + lo,
                    two_pow_128() == TWO_POW_68 * FRACTION_ONE_BITS,
            ;
        }
        if hi >= other.bits {
            proof {
                let num = self.bits as int * FRACTION_ONE_BITS as int;
                let d = other.bits as int;
                assert(num >= d * two_pow_128()) by (nonlinear_arith)
                    requires
                        num == hi * two_pow_128() + lo,
                        hi >= d,
                        lo >= 0,
                        d > 0,
                ;
                lemma_div_by_multiple(two_pow_128(), d);
                lemma_div_is_ordered(d * two_pow_128(), num, d);
                assert(two_pow_128() * d == d * two_pow_128()) by (nonlinear_arith);
            }
            None
        } else {
            Some(Fraction { bits: div_wide(hi, lo, other.bits) })
        }
    }

    /// The integer part, when it fits in a `u64`.
    pub fn try_to_floor_u64(self) -> (r: Option<u64>)
        ensures
            match r {
                Some(v) => v == self.bits / FRACTION_ONE_BITS,
                None => self.bits / FRACTION_ONE_BITS > u64::MAX,
            },
    {
        let v = self.bits / FRACTION_ONE_BITS;
        if v <= u64::MAX as u128 {
            Some(v as u64)
        } else {
            None
        }
    }
}

} // verus!
