//! The three-symbol alphabet of the binary machines.
use vstd::prelude::*;

verus! {

/// A tape symbol: the blank `Delta`, `Zero` or `One`.
#[derive(Clone, Copy, Debug, PartialEq, Eq, Structural)]
pub enum Bit {
    Delta,
    Zero,
    One,
}

} // verus!
