//! Single-precision numbers by their bit patterns.
//!
//! The library carries and compares floating-point values but computes none, so
//! it keeps the IEEE 754 encoding: sign, then exponent, then mantissa. Read as
//! integers, the magnitudes of two numbers compare as the numbers do.

use vstd::prelude::*;

verus! {

/// The bit pattern of a single-precision number.
#[derive(Debug, Default, Clone, Copy, PartialEq, Eq, Structural)]
pub struct F32Bits(pub u32);

/// How often a number must be halved to fit 24 bits.
pub open spec fn halvings(value: nat) -> nat
    decreases value,
{
    if value < 0x100_0000 {
        0
    } else {
        1 + halvings(value / 2)
    }
}

/// How often a number must be doubled to fill 24 bits.
pub open spec fn doublings(value: nat) -> nat
    decreases
            (if value < 0x80_0000 {
                0x80_0000 - value
            } else {
                0
            }),
{
    if value == 0 || value >= 0x80_0000 {
        0
    } else {
        1 + doublings(value * 2)
    }
}

/// Two to the given power.
pub open spec fn power_of_two(exponent: nat) -> nat
    decreases exponent,
{
    if exponent == 0 {
        1
    } else {
        2 * power_of_two((exponent - 1) as nat)
    }
}

/// The 24-bit number nearest to `value` over `unit`; halfway, the even one.
pub open spec fn nearest(value: nat, unit: nat) -> nat {
    let quotient = value / unit;
    let rest = value % unit;
    if 2 * rest > unit || (2 * rest == unit && quotient % 2 == 1) {
        quotient + 1
    } else {
        quotient
    }
}

/// The pattern of the number nearest to an integer.
pub open spec fn bits_of_integer(value: nat) -> nat {
    let down = halvings(value);
    let up = doublings(value);
    if value == 0 {
        0
    } else if down == 0 {
        ((149 - up) * 0x80_0000 + value * power_of_two(up)) as nat
    } else {
        (149 + down) * 0x80_0000 + nearest(value, power_of_two(down))
    }
}

impl F32Bits {
    /// Zero.
    #[verifier::allow_in_spec]
    #[allow(non_snake_case)]
    pub fn ZERO() -> (r: Self)
        returns
            F32Bits(0),
    {
        F32Bits(0)
    }

    /// One.
    #[verifier::allow_in_spec]
    #[allow(non_snake_case)]
    pub fn ONE() -> (r: Self)
        returns
            F32Bits(0x3f80_0000),
    {
        F32Bits(0x3f80_0000)
    }

    /// The pattern without its sign.
    pub open spec fn magnitude(self) -> int {
        if self.0 < 0x8000_0000 {
            self.0 as int
        } else {
            self.0 - 0x8000_0000
        }
    }

    /// Where the number stands among all that are numbers. Both zeros stand together.
    pub open spec fn order(self) -> int {
        if self.0 < 0x8000_0000 {
            self.magnitude()
        } else {
            -self.magnitude()
        }
    }

    /// Neither infinite nor not-a-number.
    pub open spec fn finite(self) -> bool {
        self.magnitude() < 0x7f80_0000
    }

    /// Not a number.
    pub open spec fn nan(self) -> bool {
        self.magnitude() > 0x7f80_0000
    }

    /// Smaller than `other`.
    pub open spec fn below(self, other: F32Bits) -> bool {
        !self.nan() && !other.nan() && self.order() < other.order()
    }

    /// Between zero and one, both included.
    pub open spec fn in_unit_range(self) -> bool {
        0 <= self.order() <= 0x3f80_0000
    }

    /// The number without its sign.
    pub open spec fn spec_abs(self) -> F32Bits {
        F32Bits(self.magnitude() as u32)
    }

    fn size(self) -> (r: u32)
        ensures
            r == self.magnitude(),
    {
        if self.0 < 0x8000_0000 {
            self.0
        } else {
            self.0 - 0x8000_0000
        }
    }

    /// Whether the number is neither infinite nor not-a-number.
    pub fn is_finite(self) -> (r: bool)
        ensures
            r == self.finite(),
    {
        self.size() < 0x7f80_0000
    }

    /// Whether this is a zero of either sign.
    pub fn is_zero(self) -> (r: bool)
        ensures
            r == (self.order() == 0),
    {
        self.size() == 0
    }

    /// Whether the number is smaller than `other`; never, if either is not a number.
    pub fn less_than(self, other: F32Bits) -> (r: bool)
        ensures
            r == self.below(other),
    {
        let left: i64 = if self.0 < 0x8000_0000 {
            self.size() as i64
        } else {
            -(self.size() as i64)
        };
        let right: i64 = if other.0 < 0x8000_0000 {
            other.size() as i64
        } else {
            -(other.size() as i64)
        };
        self.size() <= 0x7f80_0000 && other.size() <= 0x7f80_0000 && left < right
    }

    /// Whether the number lies between zero and one, both included.
    pub fn is_in_unit_range(self) -> (r: bool)
        ensures
            r == self.in_unit_range(),
    {
        self.0 == 0x8000_0000 || self.0 <= 0x3f80_0000
    }

    /// The number without its sign.
    pub fn abs(self) -> (r: F32Bits)
        ensures
            r == self.spec_abs(),
    {
        F32Bits(self.size())
    }

    /// The number nearest to an integer.
    pub fn from_u32(value: u32) -> (r: F32Bits)
        ensures
            r.0 == bits_of_integer(value as nat),
            r.finite(),
            r.order() >= 0,
            value > 0 ==> r.order() > 0,
    {
        if value == 0 {
            return F32Bits(0);
        }
        if value < 0x100_0000 {
            let mut mantissa: u32 = value;
            let mut up: u32 = 0;
            assert(value * power_of_two(0) == value) by (nonlinear_arith)
                requires
                    power_of_two(0) == 1,
            ;
            while mantissa < 0x80_0000
                invariant
                    0 < value <= mantissa < 0x100_0000,
                    up <= 23,
                    up as nat + doublings(mantissa as nat) == doublings(value as nat),
                    mantissa == value * power_of_two(up as nat),
                    power_of_two(up as nat) <= mantissa,
                decreases 0x100_0000 - mantissa,
            {
                proof {
                    let power = power_of_two(up as nat);
                    assert(value * (2 * power) == 2 * (value * power)) by (nonlinear_arith);
                    if up == 23 {
                        assert(power_of_two(23) == 0x80_0000) by {
                            reveal_with_fuel(power_of_two, 24);
                        }
                    }
                }
                mantissa = mantissa * 2;
                up = up + 1;
            }
            F32Bits((149 - up) * 0x80_0000 + mantissa)
        } else {
            let mut scaled: u32 = value;
            let mut down: u32 = 0;
            let mut unit: u32 = 1;
            while scaled >= 0x100_0000
                invariant
                    down <= 8,
                    unit == power_of_two(down as nat),
                    1 <= unit <= 256,
                    scaled == value / unit,
                    value >= 0x100_0000,
                    scaled >= 0x80_0000,
                    down as nat + halvings(scaled as nat) == halvings(value as nat),
                decreases scaled,
            {
                proof {
                    reveal_with_fuel(power_of_two, 9);
                    assert(down == 0 || down == 1 || down == 2 || down == 3 || down == 4 || down
                        == 5 || down == 6 || down == 7 || down == 8);
                    if down == 8 {
                        assert(value / unit < 0x100_0000) by (nonlinear_arith)
                            requires
                                unit == 256,
                        ;
                    }
                    vstd::arithmetic::div_mod::lemma_div_denominator(value as int, unit as int, 2);
                }
                scaled = scaled / 2;
                unit = unit * 2;
                down = down + 1;
            }
            let rest: u32 = value % unit;
            let mantissa: u32 = if 2 * rest > unit || (2 * rest == unit && scaled % 2 == 1) {
                scaled + 1
            } else {
                scaled
            };
            F32Bits((149 + down) * 0x80_0000 + mantissa)
        }
    }
}

// ---------------------------------------------------------------------------
// Laws
// ---------------------------------------------------------------------------

impl F32Bits {
    /// The exponent, as it is stored.
    pub open spec fn exponent(self) -> int {
        self.magnitude() / 0x80_0000
    }

    /// The mantissa with its leading one. A normal number is this many times two to the
    /// exponent less 150.
    pub open spec fn mantissa(self) -> int {
        0x80_0000 + self.magnitude() % 0x80_0000
    }
}

#[verifier::rlimit(40)]
proof fn doublings_fill(value: nat)
    requires
        0 < value < 0x100_0000,
    ensures
        0x80_0000 <= value * power_of_two(doublings(value)) < 0x100_0000,
        doublings(value) <= 23,
    decreases 0x100_0000 - value,
{
    if value < 0x80_0000 {
        doublings_fill(value * 2);
        let power = power_of_two(doublings(value * 2));
        assert(value * (2 * power) == (value * 2) * power) by (nonlinear_arith);
        assert(power_of_two(23) == 0x80_0000) by {
            reveal_with_fuel(power_of_two, 24);
        }
        assert(value * 0x80_0000 >= 0x80_0000);
        doublings_bounded(value, 23);
    } else {
        assert(value * 1 == value);
    }
}

proof fn doublings_bounded(value: nat, room: nat)
    requires
        value > 0,
        room <= 23,
        value * power_of_two(room) >= 0x80_0000,
    ensures
        doublings(value) <= room,
    decreases room,
{
    if room > 0 && value < 0x80_0000 {
        let power = power_of_two((room - 1) as nat);
        assert(value * (2 * power) == (value * 2) * power) by (nonlinear_arith);
        doublings_bounded(value * 2, (room - 1) as nat);
    } else if room == 0 {
        assert(value * 1 == value);
    }
}

proof fn halvings_fit(value: nat)
    requires
        value >= 0x80_0000,
    ensures
        0x80_0000 <= value / power_of_two(halvings(value)) < 0x100_0000,
        power_of_two(halvings(value)) > 0,
        value >= 0x100_0000 ==> halvings(value) > 0,
    decreases value,
{
    if value >= 0x100_0000 {
        halvings_fit(value / 2);
        let power = power_of_two(halvings(value / 2));
        vstd::arithmetic::div_mod::lemma_div_denominator(value as int, 2, power as int);
    } else {
        assert(value / 1 == value);
    }
}

/// An integer below two to the 24 is converted exactly. A larger one is converted to a number
/// that is no further away than half the distance of its neighbours; halfway between two, to
/// the one whose last bit is zero.
pub proof fn integers_are_converted_to_the_nearest(value: u32, r: F32Bits)
    requires
        call_ensures(F32Bits::from_u32, (value,), r),
    ensures
        value == 0 ==> r == F32Bits::ZERO(),
        r.order() >= 0,
        0 < value < 0x100_0000 ==> r.exponent() <= 150 && r.mantissa() == value * power_of_two(
            (150 - r.exponent()) as nat,
        ),
        value >= 0x100_0000 ==> {
            let unit = power_of_two((r.exponent() - 150) as nat);
            let away = r.mantissa() * unit - value;
            &&& r.exponent() > 150
            &&& -unit <= 2 * away <= unit
            &&& 2 * away == unit || 2 * away == -unit ==> r.mantissa() % 2 == 0
        },
{
    let whole = value as nat;
    if 0 < value < 0x100_0000 {
        doublings_fill(whole);
        let up = doublings(whole);
        let filled = whole * power_of_two(up);
        assert(r.magnitude() == (149 - up) * 0x80_0000 + filled);
        assert(r.magnitude() / 0x80_0000 == 150 - up);
        assert(r.magnitude() % 0x80_0000 == filled - 0x80_0000);
    } else if value >= 0x100_0000 {
        halvings_fit(whole);
        let down = halvings(whole);
        let unit = power_of_two(down) as int;
        let near = nearest(whole, unit as nat) as int;
        let quotient = value as int / unit;
        vstd::arithmetic::div_mod::lemma_fundamental_div_mod(value as int, unit);
        vstd::arithmetic::div_mod::lemma_mod_bound(value as int, unit);
        assert((quotient + 1) * unit == quotient * unit + unit) by (nonlinear_arith);
        assert(unit * quotient == quotient * unit) by (nonlinear_arith);
        assert(-unit <= 2 * (near * unit - value) <= unit);
        if 2 * (near * unit - value) == unit || 2 * (near * unit - value) == -unit {
            assert(2 * (value as int % unit) == unit);
            assert(near % 2 == 0);
        }
        assert(r.magnitude() == (149 + down) * 0x80_0000 + near);
        if near == 0x100_0000 {
            assert(r.magnitude() / 0x80_0000 == 151 + down);
            assert(r.magnitude() % 0x80_0000 == 0);
            assert(0x80_0000 * (2 * unit) == 0x100_0000 * unit) by (nonlinear_arith);
        } else {
            assert(r.magnitude() / 0x80_0000 == 150 + down);
            assert(r.magnitude() % 0x80_0000 == near - 0x80_0000);
        }
    }
}

/// Numbers compare by sign and size: of two with the sign bit set the one with the larger
/// pattern is smaller, of two without it is larger, and the signs decide otherwise, but for
/// zeros, which are equal. What is not a number is not smaller than anything.
pub proof fn patterns_compare_as_numbers(a: F32Bits, b: F32Bits, r: bool)
    requires
        call_ensures(F32Bits::less_than, (a, b), r),
    ensures
        a.0 < 0x8000_0000 && b.0 <= 0x7f80_0000 ==> (r <==> a.0 < b.0),
        0x8000_0000 <= a.0 <= 0xff80_0000 && 0x8000_0000 <= b.0 <= 0xff80_0000 ==> (r <==> b.0
            < a.0),
        0x8000_0000 < a.0 <= 0xff80_0000 && b.0 <= 0x7f80_0000 ==> r,
        a.0 < 0x8000_0000 && 0x8000_0000 <= b.0 ==> !r,
        a.0 == 0x8000_0000 && b.0 <= 0x7f80_0000 ==> (r <==> b.0 > 0),
        0x7f80_0000 < a.0 < 0x8000_0000 || 0xff80_0000 < a.0 ==> !r,
        0x7f80_0000 < b.0 < 0x8000_0000 || 0xff80_0000 < b.0 ==> !r,
{
}

/// A number is finite if its exponent has a bit to spare, lies between zero and one up to the
/// pattern of one, and loses only its sign bit.
pub proof fn patterns_are_classified(
    value: F32Bits,
    finite: bool,
    zero: bool,
    unit: bool,
    size: F32Bits,
)
    requires
        call_ensures(F32Bits::is_finite, (value,), finite),
        call_ensures(F32Bits::is_zero, (value,), zero),
        call_ensures(F32Bits::is_in_unit_range, (value,), unit),
        call_ensures(F32Bits::abs, (value,), size),
    ensures
        finite <==> value.0 % 0x8000_0000 < 0x7f80_0000,
        zero <==> value.0 % 0x8000_0000 == 0,
        unit <==> value.0 <= 0x3f80_0000 || value.0 == 0x8000_0000,
        size.0 == value.0 % 0x8000_0000,
{
}

} // verus!
