//! The protocol version of a frame.

use crate::error::DecodeError;
use vstd::prelude::*;

verus! {

/// The protocol version that a frame declares. Only one is in use.
#[derive(Clone, Copy, Debug, PartialEq, Eq, Structural)]
pub enum Version {
    Standard,
}

impl Version {
    /// The version that the number `byte` stands for: 0 is the standard one,
    /// every other number is refused.
    pub open spec fn spec_parse(byte: u8) -> Result<Version, DecodeError> {
        if byte == 0 {
            Ok(Version::Standard)
        } else {
            Err(DecodeError::InvalidVersion(byte))
        }
    }

    /// Decodes a version number.
    pub fn parse(byte: u8) -> (r: Result<Version, DecodeError>)
        ensures
            r == Self::spec_parse(byte),
    {
        match byte {
            0 => Ok(Version::Standard),
            _ => Err(DecodeError::InvalidVersion(byte)),
        }
    }
}

} // verus!
