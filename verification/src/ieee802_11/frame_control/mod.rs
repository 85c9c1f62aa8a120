//! The two-byte frame-control field with which every frame begins.

pub mod flags;
pub mod types;
pub mod version;

pub use self::flags::Flags;
pub use self::types::{ControlSubtype, DataSubtype, FrameType, ManagementSubtype, Type};
pub use self::version::Version;
use crate::error::DecodeError;
use crate::reader::Reader;
use vstd::prelude::*;

verus! {

/// The decoded frame-control field.
#[derive(Clone, Copy, Debug, PartialEq, Eq, Structural)]
pub struct FrameControl {
    pub version: Version,
    pub type_: FrameType,
    pub flags: Flags,
}

impl FrameControl {
    /// The version number in a first frame-control byte: its two lowest bits.
    pub open spec fn spec_version_bits(byte: u8) -> u8 {
        byte % 4
    }

    /// The type number in a first frame-control byte: bits 2 and 3.
    pub open spec fn spec_type_bits(byte: u8) -> u8 {
        (byte / 4) % 4
    }

    /// The subtype number in a first frame-control byte: its four highest
    /// bits.
    pub open spec fn spec_subtype_bits(byte: u8) -> u8 {
        byte / 16
    }

    /// What decoding the frame-control field off the bytes `s` gives.
    ///
    /// Two bytes are needed. The first holds version, type and subtype, the
    /// second the flags. A reserved type or subtype is reported before a
    /// wrong version.
    pub open spec fn spec_parse(s: Seq<u8>) -> Result<FrameControl, DecodeError> {
        if s.len() < 2 {
            Err(DecodeError::Truncated)
        } else {
            match Type::spec_parse(Self::spec_type_bits(s[0]), Self::spec_subtype_bits(s[0])) {
                Err(e) => Err(e),
                Ok(type_) => match Version::spec_parse(Self::spec_version_bits(s[0])) {
                    Err(e) => Err(e),
                    Ok(version) => Ok(
                        FrameControl { version, type_, flags: Flags::spec_from_byte(s[1]) },
                    ),
                },
            }
        }
    }

    /// Decodes the frame-control field off the next two bytes. They are
    /// consumed if the field is valid, and nothing is otherwise.
    pub fn parse(bytes: &mut Reader) -> (r: Result<FrameControl, DecodeError>)
        ensures
            r == Self::spec_parse(old(bytes).remaining()),
            final(bytes).bytes() == old(bytes).bytes(),
            final(bytes).spec_position() == old(bytes).spec_position() + (if r is Ok {
                2nat
            } else {
                0nat
            }),
    {
        let start = bytes.position();
        let byte = match bytes.read_u8() {
            Ok(byte) => byte,
            Err(e) => {
                return Err(e);
            },
        };
        let flags = match Flags::parse(bytes) {
            Ok(flags) => flags,
            Err(e) => {
                bytes.set_position(start);
                return Err(e);
            },
        };
        let version = byte & 0b0000_0011;
        let type_ = (byte & 0b0000_1100) >> 2;
        let subtype = (byte & 0b1111_0000) >> 4;
        assert(byte & 0b0000_0011 == byte % 4) by (bit_vector);
        assert((byte & 0b0000_1100) >> 2 == (byte / 4) % 4) by (bit_vector);
        assert((byte & 0b1111_0000) >> 4 == byte / 16) by (bit_vector);
        let type_ = match Type::parse(type_, subtype) {
            Ok(type_) => type_,
            Err(e) => {
                bytes.set_position(start);
                return Err(e);
            },
        };
        match Version::parse(version) {
            Ok(version) => Ok(FrameControl { version, type_, flags }),
            Err(e) => {
                bytes.set_position(start);
                Err(e)
            },
        }
    }
}

} // verus!
