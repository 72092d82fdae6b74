//! Exact evaluation of a spell energy cost.
//!
//! The cost is a fixed arithmetic formula over seven user-chosen parameters:
//! spell level, action kind, verbal and somatic components, a material
//! adjustment, a dice roll and one extra adjustment.  Every multiplier in the
//! formula is an integer or an exact half, so the library computes the cost as
//! an exact non-negative rational instead of a floating-point number; callers
//! that want a `f64` divide the two parts themselves.

pub mod eval;
pub mod input;
pub mod laws;

pub use eval::{evaluate, EnergyCost};
pub use input::{ActionKind, BonusSign, CalculationInput, DiceKind, Variant};
