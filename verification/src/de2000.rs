//! The three choices of the formula, and what each means over the reals.
//!
//! Angles are in degrees throughout. A choice is made from the outcomes of
//! comparisons alone; the variant it returns names the expression to
//! evaluate, and `degrees` gives that expression's value over the reals.
use crate::comparison::Comparison;
use vstd::prelude::*;

verus! {

/// Degrees in a full turn.
pub const FULL_TURN: u16 = 360;

/// Degrees in half a turn.
pub const HALF_TURN: u16 = 180;

/// The distance between two real numbers.
pub open spec fn distance(x: real, y: real) -> real {
    if x <= y {
        y - x
    } else {
        x - y
    }
}

/// The distance between two hue angles, compared with half a turn.
pub open spec fn separation_of(h_prime_1: real, h_prime_2: real) -> Comparison {
    Comparison::of(distance(h_prime_1, h_prime_2), HALF_TURN as real)
}

/// The hue angle h' of a colour with chrominance pair (`y`, `x`), where
/// `hue_angle` is the arctangent of `x` over `y`: 0 where the pair is (0, 0),
/// else the arctangent brought into one full turn from 0.
pub open spec fn h_prime(x: real, y: real, hue_angle: real) -> real {
    if x == 0real && y == 0real {
        0real
    } else if hue_angle < 0real {
        hue_angle + FULL_TURN as real
    } else {
        hue_angle
    }
}

/// The hue difference Δh' of two colours with chromas `c1`, `c2` and hue
/// angles `h_prime_1`, `h_prime_2`: 0 where either chroma is 0, else the
/// difference of the angles taken the short way round.
pub open spec fn delta_h_prime(c1: real, c2: real, h_prime_1: real, h_prime_2: real) -> real {
    if c1 == 0real || c2 == 0real {
        0real
    } else if distance(h_prime_1, h_prime_2) <= HALF_TURN as real {
        h_prime_2 - h_prime_1
    } else if h_prime_2 <= h_prime_1 {
        h_prime_2 - h_prime_1 + FULL_TURN as real
    } else {
        h_prime_2 - h_prime_1 - FULL_TURN as real
    }
}

/// The mean hue H̄' of two hue angles: their mean, taken across the full turn
/// where they lie more than half a turn apart.
pub open spec fn upcase_h_bar_prime(h_prime_1: real, h_prime_2: real) -> real {
    if distance(h_prime_1, h_prime_2) > HALF_TURN as real {
        (h_prime_1 + h_prime_2 + FULL_TURN as real) / 2real
    } else {
        (h_prime_1 + h_prime_2) / 2real
    }
}

/// How a hue angle h' is obtained from the arctangent of a chrominance pair.
#[derive(Clone, Copy, Debug, PartialEq, Eq, Structural)]
pub enum HPrime {
    /// The hue is undefined and taken as 0; the arctangent is not used.
    Zero,
    /// The arctangent itself.
    Angle,
    /// The arctangent and a full turn.
    AnglePlusTurn,
}

impl HPrime {
    /// The hue angle that this variant names, given the arctangent.
    pub open spec fn degrees(self, hue_angle: real) -> real {
        match self {
            HPrime::Zero => 0real,
            HPrime::Angle => hue_angle,
            HPrime::AnglePlusTurn => hue_angle + FULL_TURN as real,
        }
    }
}

/// How a hue difference Δh' is obtained from two hue angles.
#[derive(Clone, Copy, Debug, PartialEq, Eq, Structural)]
pub enum DeltaHPrime {
    /// No hue difference; the angles are not used.
    Zero,
    /// The second angle less the first.
    Difference,
    /// The second angle less the first, and a full turn.
    DifferencePlusTurn,
    /// The second angle less the first, less a full turn.
    DifferenceMinusTurn,
}

impl DeltaHPrime {
    /// The hue difference that this variant names, given the two hue angles.
    pub open spec fn degrees(self, h_prime_1: real, h_prime_2: real) -> real {
        match self {
            DeltaHPrime::Zero => 0real,
            DeltaHPrime::Difference => h_prime_2 - h_prime_1,
            DeltaHPrime::DifferencePlusTurn => h_prime_2 - h_prime_1 + FULL_TURN as real,
            DeltaHPrime::DifferenceMinusTurn => h_prime_2 - h_prime_1 - FULL_TURN as real,
        }
    }
}

/// How a mean hue H̄' is obtained from two hue angles.
#[derive(Clone, Copy, Debug, PartialEq, Eq, Structural)]
pub enum UpcaseHBarPrime {
    /// Half the sum of the angles.
    HalfSum,
    /// Half of the sum of the angles and a full turn.
    HalfSumPlusTurn,
}

impl UpcaseHBarPrime {
    /// The mean hue that this variant names, given the two hue angles.
    pub open spec fn degrees(self, h_prime_1: real, h_prime_2: real) -> real {
        match self {
            UpcaseHBarPrime::HalfSum => (h_prime_1 + h_prime_2) / 2real,
            UpcaseHBarPrime::HalfSumPlusTurn => (h_prime_1 + h_prime_2 + FULL_TURN as real)
                / 2real,
        }
    }
}

/// The CIEDE2000 formula's choices.
pub struct DE2000;

impl DE2000 {
    /// Chooses how the hue angle of one colour is obtained.
    ///
    /// `x` and `y` are the two components of the chrominance pair, each
    /// compared with zero; `hue_angle` is the arctangent of `x` over `y` in
    /// degrees, compared with zero. Where both components equal zero the
    /// answer is `Zero` whatever `hue_angle` holds, so that the arctangent of
    /// such a pair never enters the result.
    pub fn get_h_prime_fn(x: Comparison, y: Comparison, hue_angle: Comparison) -> (choice: HPrime)
        ensures
            choice is Zero <==> x is Equal && y is Equal,
            choice is AnglePlusTurn <==> !(x is Equal && y is Equal) && hue_angle is Less,
            forall|x_value: real, y_value: real, angle: real|
                (x == Comparison::of(x_value, 0real) && y == Comparison::of(y_value, 0real)
                    && hue_angle == Comparison::of(angle, 0real)) ==> choice.degrees(angle)
                    == #[trigger] h_prime(x_value, y_value, angle),
    {
        if x.is_eq() && y.is_eq() {
            return HPrime::Zero;
        }
        if hue_angle.is_lt() {
            HPrime::AnglePlusTurn
        } else {
            HPrime::Angle
        }
    }

    /// Chooses how the hue difference of two colours is obtained.
    ///
    /// `c1` and `c2` are the two chromas, each compared with zero;
    /// `separation` is the distance between the two hue angles compared with
    /// half a turn; `order` is the second hue angle compared with the first.
    /// Angles exactly half a turn apart give the plain difference, and among
    /// angles further apart an equal or smaller second angle gains the turn.
    pub fn get_delta_h_prime(
        c1: Comparison,
        c2: Comparison,
        separation: Comparison,
        order: Comparison,
    ) -> (choice: DeltaHPrime)
        ensures
            choice is Zero <==> c1 is Equal || c2 is Equal,
            choice is Difference <==> !(c1 is Equal || c2 is Equal) && (separation is Less
                || separation is Equal),
            choice is DifferencePlusTurn <==> !(c1 is Equal || c2 is Equal) && !(separation is Less
                || separation is Equal) && (order is Less || order is Equal),
            forall|c1_value: real, c2_value: real, h_prime_1: real, h_prime_2: real|
                (c1 == Comparison::of(c1_value, 0real) && c2 == Comparison::of(c2_value, 0real)
                    && separation == separation_of(h_prime_1, h_prime_2)
                    && order == Comparison::of(h_prime_2, h_prime_1)) ==> choice.degrees(
                    h_prime_1,
                    h_prime_2,
                ) == #[trigger] delta_h_prime(c1_value, c2_value, h_prime_1, h_prime_2),
    {
        if c1.is_eq() || c2.is_eq() {
            return DeltaHPrime::Zero;
        }
        if separation.is_le() {
            return DeltaHPrime::Difference;
        }
        if order.is_le() {
            DeltaHPrime::DifferencePlusTurn
        } else {
            DeltaHPrime::DifferenceMinusTurn
        }
    }

    /// Chooses how the mean hue of two colours is obtained.
    ///
    /// `separation` is the distance between the two hue angles compared with
    /// half a turn.
    pub fn get_upcase_h_bar_prime(separation: Comparison) -> (choice: UpcaseHBarPrime)
        ensures
            choice is HalfSumPlusTurn <==> separation is Greater,
            forall|h_prime_1: real, h_prime_2: real|
                separation == separation_of(h_prime_1, h_prime_2) ==> choice.degrees(
                    h_prime_1,
                    h_prime_2,
                ) == #[trigger] upcase_h_bar_prime(h_prime_1, h_prime_2),
    {
        if separation.is_gt() {
            return UpcaseHBarPrime::HalfSumPlusTurn;
        }
        UpcaseHBarPrime::HalfSum
    }
}

} // verus!
