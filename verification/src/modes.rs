//! Operational modes of the adaptive analysis layer: a configuration
//! surface only. A mode carries a recommended analysis depth and a
//! quantum-awareness flag; no detector reads these numbers yet.

use vstd::prelude::*;

verus! {

/// Operational modes for adaptive code analysis.
#[derive(Clone, Copy, Debug, PartialEq, Eq, Structural)]
pub enum NanosuitMode {
    /// Deep forensic scans.
    Strength,
    /// Real-time optimization.
    Speed,
    /// Quantum-resistant signing.
    Armor,
    /// Covert monitoring.
    Stealth,
}

/// The recommended analysis depth of each mode.
pub open spec fn mode_depth_spec(m: NanosuitMode) -> int {
    match m {
        NanosuitMode::Strength => 10,
        NanosuitMode::Speed => 3,
        NanosuitMode::Armor => 7,
        NanosuitMode::Stealth => 5,
    }
}

impl NanosuitMode {
    /// Whether the mode can detect quantum threats: exactly `Armor` and
    /// `Strength` can.
    pub fn quantum_aware(&self) -> (r: bool)
        ensures
            r == (*self == NanosuitMode::Armor || *self == NanosuitMode::Strength),
    {
        match self {
            NanosuitMode::Armor => true,
            NanosuitMode::Strength => true,
            _ => false,
        }
    }

    /// The recommended analysis depth: deep for `Strength`, shallow for
    /// `Speed`, in between for the rest.
    pub fn analysis_depth(&self) -> (r: usize)
        ensures
            r as int == mode_depth_spec(*self),
    {
        match self {
            NanosuitMode::Strength => 10,
            NanosuitMode::Speed => 3,
            NanosuitMode::Armor => 7,
            NanosuitMode::Stealth => 5,
        }
    }
}

} // verus!
