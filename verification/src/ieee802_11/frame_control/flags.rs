//! The eight flag bits of the frame-control field.

use crate::error::DecodeError;
use crate::reader::Reader;
use vstd::prelude::*;

verus! {

/// The flags of a frame, one per bit of the second frame-control byte.
#[derive(Clone, Copy, Debug, PartialEq, Eq, Structural)]
pub struct Flags {
    /// The frame is headed for the distribution system.
    pub to_ds: bool,
    /// The frame comes out of the distribution system.
    pub from_ds: bool,
    /// More fragments of this frame follow.
    pub more_fragments: bool,
    /// The frame is a retransmission.
    pub retry: bool,
    /// The sender goes into power-save mode.
    pub pwr_mgt: bool,
    /// The sender holds more frames for the receiver.
    pub more_data: bool,
    /// The body of the frame is encrypted.
    pub protected: bool,
    /// The frame is sent in strict order.
    pub order: bool,
}

impl Flags {
    /// The flags that a byte carries, from `to_ds` in its lowest bit to
    /// `order` in its highest.
    pub open spec fn spec_from_byte(byte: u8) -> Flags {
        Flags {
            to_ds: byte & 0b0000_0001 != 0,
            from_ds: byte & 0b0000_0010 != 0,
            more_fragments: byte & 0b0000_0100 != 0,
            retry: byte & 0b0000_1000 != 0,
            pwr_mgt: byte & 0b0001_0000 != 0,
            more_data: byte & 0b0010_0000 != 0,
            protected: byte & 0b0100_0000 != 0,
            order: byte & 0b1000_0000 != 0,
        }
    }

    /// The flags that a byte carries.
    pub fn from_byte(byte: u8) -> (flags: Flags)
        ensures
            flags == Self::spec_from_byte(byte),
    {
        Flags {
            to_ds: byte & 0b0000_0001 != 0,
            from_ds: byte & 0b0000_0010 != 0,
            more_fragments: (byte & 0b0000_0100) != 0,
            retry: (byte & 0b0000_1000) != 0,
            pwr_mgt: (byte & 0b0001_0000) != 0,
            more_data: (byte & 0b0010_0000) != 0,
            protected: (byte & 0b0100_0000) != 0,
            order: (byte & 0b1000_0000) != 0,
        }
    }

    /// What decoding the flags off the bytes `s` gives: the flags of the
    /// first byte, or an error where there is none.
    pub open spec fn spec_parse(s: Seq<u8>) -> Result<Flags, DecodeError> {
        if s.len() < 1 {
            Err(DecodeError::Truncated)
        } else {
            Ok(Self::spec_from_byte(s[0]))
        }
    }

    /// Decodes the flags off the next byte, which is consumed.
    pub fn parse(bytes: &mut Reader) -> (r: Result<Flags, DecodeError>)
        ensures
            r == Self::spec_parse(old(bytes).remaining()),
            final(bytes).bytes() == old(bytes).bytes(),
            final(bytes).spec_position() == old(bytes).spec_position() + (if r is Ok {
                1nat
            } else {
                0nat
            }),
    {
        match bytes.read_u8() {
            Ok(byte) => Ok(Flags::from_byte(byte)),
            Err(e) => Err(e),
        }
    }
}

} // verus!
