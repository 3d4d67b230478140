//! Branch rules of the CIEDE2000 colour-difference formula.
//!
//! The formula maps two L\*a\*b\* colours to one distance. Most of it is plain
//! arithmetic on measured quantities; three of its steps choose between
//! alternatives by comparing such quantities: the hue angle of a colour, the
//! hue difference of two colours, and their mean hue. This crate holds those
//! three choices. Each takes the outcomes of the comparisons it depends on and
//! returns the alternative to evaluate, so that a caller needs no more than
//! arithmetic and a way to compare its numbers.
//!
//! Every choice comes with its meaning over the real numbers, and the laws
//! module proves what the formula relies on: hue angles lie in one full turn,
//! the hue difference lies within half a turn and changes sign when the
//! colours are exchanged, and the mean hue bisects the arc between them.
pub mod comparison;
pub mod de2000;
pub mod laws;

pub use comparison::Comparison;
pub use de2000::{DeltaHPrime, HPrime, UpcaseHBarPrime, DE2000, FULL_TURN, HALF_TURN};
