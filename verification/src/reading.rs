//! Percentages measured by the system monitor, held by their IEEE 754 single
//! precision bit pattern, and their comparison with whole limits.
use vstd::arithmetic::power2::*;
use vstd::prelude::*;

verus! {

/// The sign bit: patterns from here on stand for negative numbers.
pub const SIGN_BIT: u32 = 0x8000_0000;

/// The pattern of infinity: larger magnitudes are not numbers.
pub const INFINITY_BITS: u32 = 0x7F80_0000;

/// The number of patterns that share one exponent.
pub const FRACTION_SPAN: u32 = 0x0080_0000;

/// The patterns of the limits that the bar compares with.
pub const BITS_20: u32 = 0x41A0_0000;

pub const BITS_30: u32 = 0x41F0_0000;

pub const BITS_50: u32 = 0x4248_0000;

pub const BITS_60: u32 = 0x4270_0000;

pub const BITS_80: u32 = 0x42A0_0000;

/// The exponent of the smallest positive number: every finite number is a
/// multiple of two to the minus this.
pub open spec fn unit_exponent() -> nat {
    149
}

/// The number with the bit pattern `m`, its sign bit clear, in multiples of
/// the smallest positive number. Infinity counts as larger than every number.
pub open spec fn scaled_magnitude(m: nat) -> nat {
    let exponent = m / (FRACTION_SPAN as nat);
    let fraction = m % (FRACTION_SPAN as nat);
    if exponent == 0 {
        fraction
    } else {
        (fraction + FRACTION_SPAN as nat) * pow2((exponent - 1) as nat)
    }
}

/// A measured percentage.
#[derive(Clone, Copy, Debug, PartialEq, Eq, Structural)]
pub struct Reading {
    /// The bit pattern of the single precision number.
    pub bits: u32,
}

impl Reading {
    /// Whether the number is below zero, or minus zero.
    pub open spec fn negative(self) -> bool {
        self.bits >= SIGN_BIT
    }

    /// The pattern without its sign.
    pub open spec fn magnitude_bits(self) -> nat {
        if self.negative() {
            (self.bits - SIGN_BIT) as nat
        } else {
            self.bits as nat
        }
    }

    /// Whether the pattern stands for no number at all.
    pub open spec fn is_nan(self) -> bool {
        self.magnitude_bits() > INFINITY_BITS
    }

    /// The number in multiples of the smallest positive one.
    pub open spec fn scaled(self) -> int {
        if self.negative() {
            -(scaled_magnitude(self.magnitude_bits()) as int)
        } else {
            scaled_magnitude(self.magnitude_bits()) as int
        }
    }

    /// Whether the reading is a number and at most `limit` percent.
    pub open spec fn at_most(self, limit: int) -> bool {
        !self.is_nan() && self.scaled() <= limit * pow2(unit_exponent())
    }

    /// Whether the reading is a number and above `limit` percent.
    pub open spec fn above(self, limit: int) -> bool {
        !self.is_nan() && self.scaled() > limit * pow2(unit_exponent())
    }

    /// Whether the reading is at most the limit with a bit pattern, `None` if the
    /// reading is not a number.
    pub fn at_most_bits(self, limit_bits: u32) -> (res: Option<bool>)
        requires
            limit_bits <= INFINITY_BITS,
        ensures
            res == (if self.is_nan() {
                None::<bool>
            } else {
                Some(self.scaled() <= scaled_magnitude(limit_bits as nat))
            }),
    {
        if self.bits >= SIGN_BIT {
            if self.bits - SIGN_BIT > INFINITY_BITS {
                None
            } else {
                Some(true)
            }
        } else if self.bits > INFINITY_BITS {
            None
        } else {
            proof {
                if self.bits <= limit_bits {
                    lemma_scaled_monotone(self.bits as nat, limit_bits as nat);
                } else {
                    lemma_scaled_strict(limit_bits as nat, self.bits as nat);
                }
            }
            Some(self.bits <= limit_bits)
        }
    }
}

/// The next pattern stands for a larger number.
proof fn lemma_scaled_step(m: nat)
    ensures
        scaled_magnitude(m) < scaled_magnitude(m + 1),
{
    let span = FRACTION_SPAN as nat;
    let e = m / span;
    let f = m % span;
    assert(m == e * span + f);
    if f + 1 < span {
        assert((m + 1) / span == e);
        assert((m + 1) % span == f + 1);
        if e > 0 {
            let p = pow2((e - 1) as nat);
            lemma_pow2_pos((e - 1) as nat);
            assert((f + span) * p < (f + 1 + span) * p) by (nonlinear_arith)
                requires
                    p > 0,
            ;
        }
    } else {
        assert((m + 1) / span == e + 1);
        assert((m + 1) % span == 0);
        let p = pow2(e);
        lemma_pow2_pos(e);
        if e > 0 {
            let q = pow2((e - 1) as nat);
            lemma_pow2_pos((e - 1) as nat);
            lemma_pow2_unfold(e);
            assert((f + span) * q < span * p) by (nonlinear_arith)
                requires
                    p == 2 * q,
                    q > 0,
                    f < span,
            ;
        } else {
            assert(f < span * p) by (nonlinear_arith)
                requires
                    f < span,
                    p > 0,
            ;
        }
    }
}

/// A larger pattern stands for a number that is not smaller.
proof fn lemma_scaled_monotone(a: nat, b: nat)
    requires
        a <= b,
    ensures
        scaled_magnitude(a) <= scaled_magnitude(b),
    decreases b - a,
{
    if a < b {
        lemma_scaled_monotone(a, (b - 1) as nat);
        lemma_scaled_step((b - 1) as nat);
    }
}

/// A larger pattern stands for a larger number.
proof fn lemma_scaled_strict(a: nat, b: nat)
    requires
        a < b,
    ensures
        scaled_magnitude(a) < scaled_magnitude(b),
{
    lemma_scaled_step(a);
    lemma_scaled_monotone(a + 1, b);
}

/// The limit patterns stand for the limits.
pub proof fn lemma_limit_bits()
    ensures
        scaled_magnitude(BITS_20 as nat) == 20 * pow2(unit_exponent()),
        scaled_magnitude(BITS_30 as nat) == 30 * pow2(unit_exponent()),
        scaled_magnitude(BITS_50 as nat) == 50 * pow2(unit_exponent()),
        scaled_magnitude(BITS_60 as nat) == 60 * pow2(unit_exponent()),
        scaled_magnitude(BITS_80 as nat) == 80 * pow2(unit_exponent()),
{
    lemma2_to64();
    lemma_pow2_adds(130, 19);
    lemma_pow2_adds(131, 18);
    lemma_pow2_adds(132, 17);
    assert(scaled_magnitude(BITS_20 as nat) == 0xA0_0000 * pow2(130));
    assert(scaled_magnitude(BITS_30 as nat) == 0xF0_0000 * pow2(130));
    assert(scaled_magnitude(BITS_50 as nat) == 0xC8_0000 * pow2(131));
    assert(scaled_magnitude(BITS_60 as nat) == 0xF0_0000 * pow2(131));
    assert(scaled_magnitude(BITS_80 as nat) == 0xA0_0000 * pow2(132));
}

/// The patterns of the smallest numbers count in the smallest unit, and a step of the
/// exponent doubles the number: this fixes what every pattern stands for.
pub proof fn law_patterns_double(m: nat)
    ensures
        m <= 0x100_0000 ==> scaled_magnitude(m) == m,
        m >= 0x80_0000 ==> scaled_magnitude(m + 0x80_0000) == 2 * scaled_magnitude(m),
{
    let span = 0x80_0000nat;
    lemma2_to64();
    if m >= span {
        let e = m / span;
        let f = m % span;
        assert((m + span) / span == e + 1);
        assert((m + span) % span == f);
        lemma_pow2_unfold(e);
        let p = pow2((e - 1) as nat);
        assert((f + span) * (2 * p) == 2 * ((f + span) * p)) by (nonlinear_arith);
        if m <= 0x100_0000 {
            if m < 0x100_0000 {
                assert(e == 1 && f + span == m);
                assert(scaled_magnitude(m) == (f + span) * pow2(0));
            } else {
                assert(e == 2 && f == 0);
                assert(scaled_magnitude(m) == span * pow2(1));
            }
        }
    } else {
        assert(m / span == 0 && m % span == m);
    }
}

/// The order of readings that are numbers is that of their values: positive ones by their
/// pattern, negative ones below zero and the other way round.
pub proof fn law_readings_ordered(a: Reading, b: Reading)
    ensures
        a.bits < b.bits < 0x8000_0000 ==> a.scaled() < b.scaled(),
        0x8000_0000 <= a.bits < b.bits ==> a.scaled() > b.scaled(),
        a.bits >= 0x8000_0000 ==> a.scaled() <= 0,
        a.bits < 0x8000_0000 && b.bits == a.bits + 0x8000_0000 ==> b.scaled() == -a.scaled(),
        a.is_nan() <==> 0x7F80_0000 < a.bits < 0x8000_0000 || a.bits > 0xFF80_0000,
{
    if a.bits < b.bits < 0x8000_0000 {
        lemma_scaled_strict(a.bits as nat, b.bits as nat);
    }
    if 0x8000_0000 <= a.bits < b.bits {
        lemma_scaled_strict((a.bits - 0x8000_0000) as nat, (b.bits - 0x8000_0000) as nat);
    }
}

/// A number is either at most a limit or above it, by its value; what is no number is
/// neither.
pub proof fn law_limits_part_readings(u: Reading, limit: int)
    ensures
        u.is_nan() ==> !u.at_most(limit) && !u.above(limit),
        !u.is_nan() ==> (u.at_most(limit) <==> u.scaled() <= limit * pow2(149)),
        !u.is_nan() ==> (u.above(limit) <==> u.scaled() > limit * pow2(149)),
{
}

} // verus!
