//! What all management frames have after the MAC header, and the parts of
//! which their bodies are made.

pub mod capabilities_info;
pub mod fixed_parameters;
pub mod tagged_parameters;

pub use self::capabilities_info::CapabilitiesInfo;
pub use self::fixed_parameters::FixedParameters;
pub use self::tagged_parameters::{Tag, TagView, TaggedParameters};
use crate::error::DecodeError;
use crate::ieee802_11::basic_frame::BasicFrame;
use crate::reader::{spec_le, Reader};
use vstd::prelude::*;

verus! {

/// A management frame up to its sequence-control field.
#[derive(Clone, Copy, Debug, PartialEq, Eq)]
pub struct ManagementFrame {
    pub basic_frame: BasicFrame,
    /// The number of the fragment, below 16.
    pub fragment_number: u8,
    /// The number of the frame in its sender's sequence, below 4096.
    pub sequence_number: u16,
}

impl ManagementFrame {
    /// What decoding the sequence-control field off the bytes `s` gives,
    /// for the header `basic_frame`: the field is a 16-bit number, least
    /// significant byte first, whose four lowest bits are the fragment number
    /// and whose twelve highest bits are the sequence number.
    pub open spec fn spec_parse(basic_frame: BasicFrame, s: Seq<u8>) -> Result<
        ManagementFrame,
        DecodeError,
    > {
        if s.len() < 2 {
            Err(DecodeError::Truncated)
        } else {
            Ok(
                ManagementFrame {
                    basic_frame,
                    fragment_number: (spec_le(s, 0, 2) % 16) as u8,
                    sequence_number: (spec_le(s, 0, 2) / 16) as u16,
                },
            )
        }
    }

    /// Decodes the sequence-control field off the next two bytes, which
    /// follow the MAC header `basic_frame`. They are consumed if they are
    /// both there, and nothing is otherwise.
    pub fn parse(basic_frame: BasicFrame, bytes: &mut Reader) -> (r: Result<
        ManagementFrame,
        DecodeError,
    >)
        ensures
            r == Self::spec_parse(basic_frame, old(bytes).remaining()),
            r matches Ok(frame) ==> frame.fragment_number < 16 && frame.sequence_number < 4096,
            final(bytes).bytes() == old(bytes).bytes(),
            final(bytes).spec_position() == old(bytes).spec_position() + (if r is Ok {
                2nat
            } else {
                0nat
            }),
    {
        let ghost s = bytes.remaining();
        if bytes.remaining_len() < 2 {
            return Err(DecodeError::Truncated);
        }
        let byte1 = match bytes.read_u8() {
            Ok(byte) => byte,
            Err(e) => {
                return Err(e);
            },
        };
        let byte2 = match bytes.read_u8() {
            Ok(byte) => byte,
            Err(e) => {
                return Err(e);
            },
        };
        assert(byte1 == s[0] && byte2 == s[1]);
        let fragment_number = byte1 & 0b0000_1111;
        let sequence_number = (((byte2 as u16) << 8) | (byte1 as u16)) >> 4;
        proof {
            assert(spec_le(s, 0, 2) == byte1 as nat + 256 * byte2 as nat) by {
                reveal_with_fuel(spec_le, 3);
            }
            assert(byte1 & 0b0000_1111 == (byte1 as u16 + 256 * (byte2 as u16)) % 16)
                by (bit_vector);
            assert((((byte2 as u16) << 8) | (byte1 as u16)) >> 4 == (byte1 as u16 + 256 * (
            byte2 as u16)) / 16) by (bit_vector);
            assert((((byte2 as u16) << 8) | (byte1 as u16)) >> 4 < 4096) by (bit_vector);
            assert(byte1 & 0b0000_1111 < 16) by (bit_vector);
        }
        Ok(ManagementFrame { basic_frame, fragment_number, sequence_number })
    }
}

} // verus!
