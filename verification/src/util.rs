//! The optimization level handed to the native backend.

use vstd::prelude::*;

verus! {

/// The four discrete optimization levels of the native backend, least to
/// most aggressive.
#[derive(Debug, Clone, Copy, PartialEq, Eq, Structural)]
pub enum OptLevel {
    NoOpt,
    Less,
    Standard,
    Aggressive,
}

/// How a raw level number maps to an [`OptLevel`]: 0, 1 and 2 select the
/// first three levels and everything above selects `Aggressive`.
pub open spec fn opt_level_of_u8(value: u8) -> OptLevel {
    if value == 0 {
        OptLevel::NoOpt
    } else if value == 1 {
        OptLevel::Less
    } else if value == 2 {
        OptLevel::Standard
    } else {
        OptLevel::Aggressive
    }
}

impl From<u8> for OptLevel {
    fn from(value: u8) -> (r: Self)
        ensures
            r == opt_level_of_u8(value),
    {
        match value {
            0 => Self::NoOpt,
            1 => Self::Less,
            2 => Self::Standard,
            _ => Self::Aggressive,
        }
    }
}

impl vstd::std_specs::convert::FromSpecImpl<u8> for OptLevel {
    open spec fn obeys_from_spec() -> bool {
        true
    }

    open spec fn from_spec(t: u8) -> Self {
        opt_level_of_u8(t)
    }
}

impl OptLevel {
    /// The number of the optimization-pass profile that this level selects,
    /// 0 (none) through 3 (aggressive).
    pub fn profile(&self) -> (r: u8)
        ensures
            r == match *self {
                OptLevel::NoOpt => 0u8,
                OptLevel::Less => 1u8,
                OptLevel::Standard => 2u8,
                OptLevel::Aggressive => 3u8,
            },
    {
        match self {
            OptLevel::NoOpt => 0,
            OptLevel::Less => 1,
            OptLevel::Standard => 2,
            OptLevel::Aggressive => 3,
        }
    }
}

} // verus!
