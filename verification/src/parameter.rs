use vstd::prelude::*;

verus! {

/// The unit in which a parameter's value is given.
#[derive(Debug, Clone, Copy, PartialEq, Eq, Structural)]
pub enum Unit {
    /// The value is used as it is.
    Generic,
    /// The value is in decibels and is turned into a gain before it is used.
    Decibels,
}

impl Unit {
    /// Whether a value in this unit is turned from decibels into a gain before it is
    /// smoothed.
    pub fn is_decibels(&self) -> (b: bool)
        ensures
            b == (*self == Unit::Decibels),
    {
        match self {
            Unit::Decibels => true,
            Unit::Generic => false,
        }
    }
}

} // verus!
