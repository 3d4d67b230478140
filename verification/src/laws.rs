//! What holds of hue angles, hue differences and mean hues over the reals.
//!
//! The choices of this crate name these three quantities wherever the
//! comparisons they are given are those of real numbers; the laws here are
//! stated of the quantities themselves.
use crate::comparison::Comparison;
use crate::de2000::{delta_h_prime, h_prime, upcase_h_bar_prime, FULL_TURN, HALF_TURN};
use vstd::prelude::*;

verus! {

/// Two real numbers always stand in one of the three relations, and the
/// outcome of comparing them names the one that holds.
pub proof fn comparison_of_reals(x: real, y: real)
    ensures
        Comparison::of(x, y) is Less <==> x < y,
        Comparison::of(x, y) is Equal <==> x == y,
        Comparison::of(x, y) is Greater <==> x > y,
        !(Comparison::of(x, y) is Unordered),
{
}

/// An arctangent within half a turn of zero gives a hue angle from 0 up to,
/// and not including, a full turn, which differs from the arctangent by no
/// turn or by one.
pub proof fn h_prime_within_turn(x: real, y: real, hue_angle: real)
    requires
        -(HALF_TURN as real) <= hue_angle <= HALF_TURN as real,
    ensures
        0real <= h_prime(x, y, hue_angle) < FULL_TURN as real,
        ({
            let turns = h_prime(x, y, hue_angle) - hue_angle;
            !(x == 0real && y == 0real) ==> turns == 0real || turns == FULL_TURN as real
        }),
{
}

/// A pair of zeros has hue angle 0, whatever its arctangent is taken to be.
pub proof fn h_prime_of_zero_pair(hue_angle: real)
    ensures
        h_prime(0real, 0real, hue_angle) == 0real,
{
}

/// Where either chroma is zero there is no hue difference, whatever the hue
/// angles are.
pub proof fn delta_h_prime_of_zero_chroma(c1: real, c2: real, h_prime_1: real, h_prime_2: real)
    requires
        c1 == 0real || c2 == 0real,
    ensures
        delta_h_prime(c1, c2, h_prime_1, h_prime_2) == 0real,
{
}

/// Hue angles within one full turn give a hue difference within half a turn
/// either way. Between two colours of nonzero chroma it differs from the plain
/// difference of the angles by no turn or by one.
pub proof fn delta_h_prime_within_half_turn(c1: real, c2: real, h_prime_1: real, h_prime_2: real)
    requires
        0real <= h_prime_1 < FULL_TURN as real,
        0real <= h_prime_2 < FULL_TURN as real,
    ensures
        -(HALF_TURN as real) <= delta_h_prime(c1, c2, h_prime_1, h_prime_2) <= HALF_TURN as real,
        ({
            let turns = delta_h_prime(c1, c2, h_prime_1, h_prime_2) - (h_prime_2 - h_prime_1);
            c1 != 0real && c2 != 0real ==> turns == 0real || turns == FULL_TURN as real || turns
                == -(FULL_TURN as real)
        }),
{
}

/// A colour has no hue difference from itself.
pub proof fn delta_h_prime_of_same(c: real, h: real)
    ensures
        delta_h_prime(c, c, h, h) == 0real,
{
}

/// Exchanging the two colours reverses the sign of the hue difference and
/// keeps its size.
pub proof fn delta_h_prime_swapped(c1: real, c2: real, h_prime_1: real, h_prime_2: real)
    ensures
        delta_h_prime(c2, c1, h_prime_2, h_prime_1) + delta_h_prime(c1, c2, h_prime_1, h_prime_2)
            == 0real,
{
}

/// The mean hue of a hue angle with itself is that angle.
pub proof fn upcase_h_bar_prime_of_same(h: real)
    ensures
        upcase_h_bar_prime(h, h) == h,
{
}

/// Exchanging the two colours keeps the mean hue.
pub proof fn upcase_h_bar_prime_swapped(h_prime_1: real, h_prime_2: real)
    ensures
        upcase_h_bar_prime(h_prime_2, h_prime_1) == upcase_h_bar_prime(h_prime_1, h_prime_2),
{
}

/// Between two colours of nonzero chroma the mean hue lies half the hue
/// difference beyond the first hue angle, up to one full turn.
pub proof fn upcase_h_bar_prime_bisects(c1: real, c2: real, h_prime_1: real, h_prime_2: real)
    requires
        c1 != 0real,
        c2 != 0real,
    ensures
        ({
            let halfway = h_prime_1 + delta_h_prime(c1, c2, h_prime_1, h_prime_2) / 2real;
            let turns = upcase_h_bar_prime(h_prime_1, h_prime_2) - halfway;
            turns == 0real || turns == FULL_TURN as real
        }),
{
}

/// Hue angles within one full turn give a mean hue from 0 up to, and not
/// including, a turn and a quarter.
pub proof fn upcase_h_bar_prime_range(h_prime_1: real, h_prime_2: real)
    requires
        0real <= h_prime_1 < FULL_TURN as real,
        0real <= h_prime_2 < FULL_TURN as real,
    ensures
        0real <= upcase_h_bar_prime(h_prime_1, h_prime_2) < 450real,
{
}

} // verus!
