//! The outcome of comparing two measured quantities.
use vstd::prelude::*;

verus! {

/// How a first quantity stands to a second one.
///
/// `Unordered` is the outcome when either quantity is not a number; no
/// relation holds then, neither `<`, `==` nor `>`.
#[derive(Clone, Copy, Debug, PartialEq, Eq, Structural)]
pub enum Comparison {
    Less,
    Equal,
    Greater,
    Unordered,
}

impl Comparison {
    /// The outcome of comparing the real number `x` with the real number `y`.
    pub open spec fn of(x: real, y: real) -> Comparison {
        if x < y {
            Comparison::Less
        } else if x == y {
            Comparison::Equal
        } else {
            Comparison::Greater
        }
    }

    /// Whether `first == second` holds.
    pub fn is_eq(self) -> (r: bool)
        ensures
            r == (self is Equal),
    {
        matches!(self, Comparison::Equal)
    }

    /// Whether `first < second` holds.
    pub fn is_lt(self) -> (r: bool)
        ensures
            r == (self is Less),
    {
        matches!(self, Comparison::Less)
    }

    /// Whether `first <= second` holds.
    pub fn is_le(self) -> (r: bool)
        ensures
            r == (self is Less || self is Equal),
    {
        matches!(self, Comparison::Less | Comparison::Equal)
    }

    /// Whether `first > second` holds.
    pub fn is_gt(self) -> (r: bool)
        ensures
            r == (self is Greater),
    {
        matches!(self, Comparison::Greater)
    }
}

} // verus!
