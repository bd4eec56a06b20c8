//! Fixed-point decimal values and the CLDR numeric operands derived from them.
//!
//! A quantity is held as a sign, an integer part, and the fraction rendered to
//! exactly six decimal digits (`micros`, in millionths).  Precision beyond six
//! fraction digits is lost by design; callers that need to distinguish, say,
//! `1.5` from `1.50` are not supported at this fixed precision.

use vstd::prelude::*;

verus! {

/// How many millionths make one whole: the fraction is always rendered to six
/// decimal digits.
pub const MICROS_PER_UNIT: u32 = 1000000;

/// A signed quantity with a six-digit decimal fraction.
///
/// `micros` holds the fraction digits scaled to millionths, so `1.5` is
/// `Decimal { negative: false, int_part: 1, micros: 500000 }`.
#[derive(Clone, Copy, Debug, PartialEq, Eq, Structural)]
pub struct Decimal {
    pub negative: bool,
    pub int_part: u64,
    pub micros: u32,
}

/// The CLDR operands of a quantity, per the Unicode plural-rules definitions:
/// `i` the integer part, `v`/`w` the count of visible fraction digits with and
/// without trailing zeros, `f`/`t` the fraction digits as integers with and
/// without trailing zeros.
#[derive(Clone, Copy, Debug, PartialEq, Eq, Structural)]
pub struct PluralOperands {
    pub i: u64,
    pub v: usize,
    pub w: usize,
    pub f: u64,
    pub t: u64,
}

/// `10^e`.
pub open spec fn pow10(e: nat) -> nat
    decreases e,
{
    if e == 0 {
        1
    } else {
        10 * pow10((e - 1) as nat)
    }
}

/// `m` with its trailing decimal zeros removed (`0` stays `0`).
pub open spec fn strip_zeros(m: nat) -> nat
    decreases m,
{
    if m == 0 {
        0
    } else if m % 10 == 0 {
        strip_zeros((m / 10) as nat)
    } else {
        m
    }
}

/// How many trailing decimal zeros `m` carries (`0` has none).
pub open spec fn trailing_zeros(m: nat) -> nat
    decreases m,
{
    if m == 0 {
        0
    } else if m % 10 == 0 {
        1 + trailing_zeros((m / 10) as nat)
    } else {
        0
    }
}

impl Decimal {
    /// The fraction digits fit in six decimal places.
    pub open spec fn wf(self) -> bool {
        self.micros < MICROS_PER_UNIT
    }

    /// The same magnitude with the opposite sign.
    pub open spec fn spec_negated(self) -> Decimal {
        Decimal { negative: !self.negative, int_part: self.int_part, micros: self.micros }
    }

    /// Builds a value from its sign, integer part, and fraction in millionths.
    pub fn new(negative: bool, int_part: u64, micros: u32) -> (d: Decimal)
        requires
            micros < MICROS_PER_UNIT,
        ensures
            d == (Decimal { negative, int_part, micros }),
            d.wf(),
    {
        Decimal { negative, int_part, micros }
    }

    /// Builds a whole number.
    pub fn from_int(negative: bool, int_part: u64) -> (d: Decimal)
        ensures
            d == (Decimal { negative, int_part, micros: 0u32 }),
            d.wf(),
    {
        Decimal { negative, int_part, micros: 0 }
    }

    /// The same magnitude with the opposite sign.
    pub fn negated(self) -> (d: Decimal)
        ensures
            d == self.spec_negated(),
    {
        Decimal { negative: !self.negative, int_part: self.int_part, micros: self.micros }
    }
}

/// The operand `v`: six visible fraction digits unless they are all zero, in
/// which case none are visible.
pub open spec fn spec_v(d: Decimal) -> nat {
    if d.micros == 0 {
        0
    } else {
        6
    }
}

/// The operand `w`: visible fraction digits without trailing zeros.
pub open spec fn spec_w(d: Decimal) -> int {
    if d.micros == 0 {
        0
    } else {
        6 - trailing_zeros(d.micros as nat)
    }
}

/// The operand `t`: the fraction digits without trailing zeros, read as an
/// integer.
pub open spec fn spec_t(d: Decimal) -> nat {
    strip_zeros(d.micros as nat)
}

impl PluralOperands {
    /// The operands a well-formed quantity yields, as one record.
    pub open spec fn spec_of(d: Decimal) -> PluralOperands {
        PluralOperands {
            i: d.int_part,
            v: spec_v(d) as usize,
            w: spec_w(d) as usize,
            f: d.micros as u64,
            t: spec_t(d) as u64,
        }
    }

    /// The shape every extracted record has: `w <= v <= 6`, the fraction
    /// integers fit their digit counts, and `t` carries no trailing zero.
    pub open spec fn wf(self) -> bool {
        &&& self.w <= self.v <= 6
        &&& (self.f as nat) < pow10(self.v as nat)
        &&& (self.t as nat) < pow10(self.w as nat)
        &&& (self.w > 0 ==> self.t % 10 != 0)
        &&& self.t <= self.f
    }
}

proof fn lemma_pow10_mono(a: nat, b: nat)
    requires
        a <= b,
    ensures
        pow10(a) <= pow10(b),
        pow10(a) >= 1,
    decreases b,
{
    if b > 0 {
        if a == b {
            lemma_pow10_mono((a - 1) as nat, (b - 1) as nat);
        } else {
            lemma_pow10_mono(a, (b - 1) as nat);
        }
    }
}

/// A positive number is its stripped form times the power of ten given by its
/// trailing-zero count, and the stripped form ends in a nonzero digit.
proof fn lemma_strip(m: nat)
    requires
        m > 0,
    ensures
        strip_zeros(m) >= 1,
        strip_zeros(m) % 10 != 0,
        m == strip_zeros(m) * pow10(trailing_zeros(m)),
        strip_zeros(m) <= m,
    decreases m,
{
    if m % 10 == 0 {
        let m10 = (m / 10) as nat;
        lemma_strip(m10);
        assert(m == 10 * m10);
        let s = strip_zeros(m10);
        let p = pow10(trailing_zeros(m10));
        assert(pow10(trailing_zeros(m10) + 1) == 10 * p);
        assert(s * (10 * p) == 10 * (s * p)) by (nonlinear_arith);
        assert(strip_zeros(m) == s);
        assert(trailing_zeros(m) == trailing_zeros(m10) + 1);
        assert(m == 10 * (s * p));
        assert(m == s * pow10(trailing_zeros(m)));
    } else {
        assert(strip_zeros(m) == m);
        assert(trailing_zeros(m) == 0);
        assert(pow10(0) == 1);
        assert(m * 1 == m) by (nonlinear_arith);
    }
}

/// Fewer than `10^k` admits at most `k - 1` trailing zeros (for positive `m`).
proof fn lemma_trailing_zeros_bound(m: nat, k: nat)
    requires
        0 < m < pow10(k),
        k > 0,
    ensures
        trailing_zeros(m) < k,
{
    lemma_strip(m);
    if trailing_zeros(m) >= k {
        lemma_pow10_mono(k, trailing_zeros(m));
        assert(strip_zeros(m) * pow10(trailing_zeros(m)) >= 1 * pow10(trailing_zeros(m)))
            by (nonlinear_arith)
            requires
                strip_zeros(m) >= 1,
                pow10(trailing_zeros(m)) >= 0,
        ;
    }
}

/// The stripped form fits in the digit count that remains after dropping the
/// trailing zeros.
proof fn lemma_strip_bound(m: nat, k: nat)
    requires
        0 < m < pow10(k),
    ensures
        strip_zeros(m) < pow10((k - trailing_zeros(m)) as nat),
    decreases m,
{
    if k == 0 {
        lemma_pow10_mono(0, 0);
    } else {
        lemma_trailing_zeros_bound(m, k);
        lemma_strip(m);
        let z = trailing_zeros(m);
        let s = strip_zeros(m);
        let r = (k - z) as nat;
        assert(pow10(k) == pow10(r) * pow10(z)) by {
            lemma_pow10_add(r, z);
        }
        if s >= pow10(r) {
            assert(s * pow10(z) >= pow10(r) * pow10(z)) by (nonlinear_arith)
                requires
                    s >= pow10(r),
                    pow10(z) >= 0,
            ;
        }
    }
}

proof fn lemma_pow10_6()
    ensures
        pow10(6) == 1000000,
{
    reveal_with_fuel(pow10, 7);
}

proof fn lemma_pow10_add(a: nat, b: nat)
    ensures
        pow10(a + b) == pow10(a) * pow10(b),
    decreases a,
{
    if a == 0 {
        assert(pow10(0) == 1);
        assert(a + b == b);
        assert(pow10(a + b) == 1 * pow10(b));
    } else {
        lemma_pow10_add((a - 1) as nat, b);
        let p = pow10((a - 1) as nat);
        let q = pow10(b);
        assert((a + b - 1) as nat == (a - 1) as nat + b);
        assert(pow10(a + b) == 10 * pow10((a - 1) as nat + b));
        assert(10 * (p * q) == (10 * p) * q) by (nonlinear_arith);
        assert(pow10(a) == 10 * p);
        assert(pow10(a + b) == 10 * (p * q));
        assert(pow10(a + b) == pow10(a) * q);
    }
}

/// Derives the six CLDR operands from a quantity.  The sign is ignored: the
/// plural category of a number depends on its magnitude only.
pub fn extract_operands(d: Decimal) -> (op: PluralOperands)
    requires
        d.wf(),
    ensures
        op == PluralOperands::spec_of(d),
        op.wf(),
{
    if d.micros == 0 {
        let op = PluralOperands { i: d.int_part, v: 0, w: 0, f: 0, t: 0 };
        assert(op.wf());
        op
    } else {
        let ghost m: nat = d.micros as nat;
        let mut t: u64 = d.micros as u64;
        let mut w: usize = 6;
        proof {
            lemma_strip(m);
            lemma_pow10_6();
            lemma_trailing_zeros_bound(m, 6);
        }
        while t % 10 == 0
            invariant
                m == d.micros as nat,
                0 < m < 1000000,
                t >= 1,
                strip_zeros(m) == strip_zeros(t as nat),
                trailing_zeros(m) == (6 - w) + trailing_zeros(t as nat),
                1 <= w <= 6,
                t <= d.micros,
            decreases t,
        {
            proof {
                lemma_strip(t as nat);
                lemma_pow10_6();
                lemma_trailing_zeros_bound(m, 6);
            }
            t = t / 10;
            w = w - 1;
        }
        proof {
            lemma_strip(m);
            lemma_pow10_6();
            lemma_strip_bound(m, 6);
            assert(strip_zeros(t as nat) == t);
            assert(trailing_zeros(t as nat) == 0);
            lemma_pow10_mono(w as nat, 6);
        }
        let op = PluralOperands { i: d.int_part, v: 6, w, f: d.micros as u64, t };
        assert(op.wf());
        op
    }
}

} // verus!
