//! Floating-point numbers, carried as the bits of their 64-bit binary format.

use vstd::prelude::*;

verus! {

/// A 64-bit binary floating-point number, held by its bits.
#[derive(Debug, Clone, Copy, PartialEq, Eq, Structural)]
pub struct Real64 {
    pub bits: u64,
}

/// The bits without the sign.
pub open spec fn magnitude(value: Real64) -> u64 {
    if value.bits >= 0x8000_0000_0000_0000 {
        (value.bits - 0x8000_0000_0000_0000) as u64
    } else {
        value.bits
    }
}

/// Whether the bits stand for no number.
pub open spec fn is_nan(value: Real64) -> bool {
    magnitude(value) > 0x7ff0_0000_0000_0000
}

/// Whether two numbers compare equal: no NaN equals anything, and both zeros are equal.
pub open spec fn same_real(left: Real64, right: Real64) -> bool {
    &&& !is_nan(left)
    &&& !is_nan(right)
    &&& left.bits == right.bits || magnitude(left) == 0 && magnitude(right) == 0
}

impl Real64 {
    fn size(self) -> (size: u64)
        ensures
            size == magnitude(self),
    {
        if self.bits >= 0x8000_0000_0000_0000 {
            self.bits - 0x8000_0000_0000_0000
        } else {
            self.bits
        }
    }

    /// Whether the numbers compare equal.
    pub fn same(self, other: Real64) -> (same: bool)
        ensures
            same == same_real(self, other),
    {
        self.size() <= 0x7ff0_0000_0000_0000 && other.size() <= 0x7ff0_0000_0000_0000 && (self.bits
            == other.bits || (self.size() == 0 && other.size() == 0))
    }
}

/// Equality of numbers is symmetric, and transitive wherever it holds.
pub proof fn same_real_is_an_equivalence(first: Real64, second: Real64, third: Real64)
    ensures
        same_real(first, second) == same_real(second, first),
        same_real(first, second) && same_real(second, third) ==> same_real(first, third),
        !is_nan(first) ==> same_real(first, first),
{
}

/// The whole milliseconds in a number of nanoseconds, up to the largest 64-bit number.
pub open spec fn millis_of(nanos: u128) -> u64 {
    if nanos / 1_000_000 > u64::MAX {
        u64::MAX
    } else {
        (nanos / 1_000_000) as u64
    }
}

/// The whole milliseconds in a duration of `nanos` nanoseconds, saturating.
pub fn duration_ms(nanos: u128) -> (millis: u64)
    ensures
        millis == millis_of(nanos),
{
    let whole: u128 = nanos / 1_000_000;
    if whole > u64::MAX as u128 {
        u64::MAX
    } else {
        whole as u64
    }
}

/// Numbers compare equal exactly if they are the same number: the same bits, or a zero of either sign.
/// What is no number equals nothing.
pub proof fn equal_numbers_are_the_same_number(left: Real64, right: Real64, same: bool)
    requires
        call_ensures(Real64::same, (left, right), same),
    ensures
        ({
            let sign = 0x8000_0000_0000_0000u64;
            let infinite = 0x7ff0_0000_0000_0000u64;
            let numbers = left.bits % sign <= infinite && right.bits % sign <= infinite;
            &&& (same ==> numbers)
            &&& (numbers && left.bits == right.bits ==> same)
            &&& (left.bits % sign == 0 && right.bits % sign == 0 ==> same)
            &&& (same && left.bits != right.bits ==> left.bits % sign == 0 && right.bits % sign
                == 0)
        }),
{
}

/// Milliseconds are rounded down, and only a time too long for them is cut short.
pub proof fn milliseconds_are_rounded_down(nanos: u128, millis: u64)
    requires
        call_ensures(duration_ms, (nanos,), millis),
    ensures
        millis * 1_000_000 <= nanos,
        millis < u64::MAX ==> nanos < (millis + 1) * 1_000_000,
{
}

} // verus!
