//! What the core can report as wrong.

use vstd::prelude::*;

verus! {

/// The ways in which the core refuses what it is handed.
#[derive(Clone, Copy, Debug, PartialEq, Eq, Structural)]
pub enum CoreError {
    /// A colour is not made of exactly six hexadecimal digits.
    InvalidColor,
    /// The host does not step the simulation sixty times a second.
    InvalidTickCadence,
    /// A real number drawn for the level lies outside the range it was asked for.
    DrawOutOfRange,
}

} // verus!
