//! The ways in which decoding a frame can fail.

use vstd::prelude::*;
use vstd::string::StringExecFns;

verus! {

/// Why a buffer could not be decoded as an 802.11 frame.
#[derive(Clone, Copy, Debug, PartialEq, Eq, Structural)]
pub enum DecodeError {
    /// The buffer ended before the field that was being read.
    Truncated,
    /// The protocol version, which is carried here, is not 0.
    InvalidVersion(u8),
    /// The frame type is the reserved value 3.
    InvalidType,
    /// The subtype number, carried second, is reserved within the frame
    /// type, carried first (0 management, 1 control, 2 data).
    InvalidSubtype(u8, u8),
    /// A tagged parameter announces more data than the buffer still holds.
    InvalidTagLength,
}

impl DecodeError {
    /// The text of the error, as it is shown to a client.
    pub open spec fn spec_message(&self) -> Seq<char> {
        match *self {
            DecodeError::Truncated => "unexpected end of frame"@,
            DecodeError::InvalidVersion(_) => "invalid Version"@,
            DecodeError::InvalidType => "invalid type"@,
            DecodeError::InvalidSubtype(class, _) => if class == 0 {
                "invalid Management Subtype"@
            } else if class == 1 {
                "invalid Control Subtype"@
            } else {
                "invalid Data Subtype"@
            },
            DecodeError::InvalidTagLength => "invalid tag length"@,
        }
    }

    /// Renders the error as text.
    pub fn message(&self) -> (text: String)
        ensures
            text@ == self.spec_message(),
    {
        match *self {
            DecodeError::Truncated => String::from_str("unexpected end of frame"),
            DecodeError::InvalidVersion(_) => String::from_str("invalid Version"),
            DecodeError::InvalidType => String::from_str("invalid type"),
            DecodeError::InvalidSubtype(class, _) => if class == 0 {
                String::from_str("invalid Management Subtype")
            } else if class == 1 {
                String::from_str("invalid Control Subtype")
            } else {
                String::from_str("invalid Data Subtype")
            },
            DecodeError::InvalidTagLength => String::from_str("invalid tag length"),
        }
    }
}

} // verus!
