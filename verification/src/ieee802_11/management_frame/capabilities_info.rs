//! The capability field of beacons and probe responses.

use crate::error::DecodeError;
use crate::reader::Reader;
use vstd::prelude::*;

verus! {

/// The capabilities that an access point announces. The two bytes of the
/// field are skipped, none of its bits is decoded.
#[derive(Clone, Copy, Debug, PartialEq, Eq, Structural)]
pub struct CapabilitiesInfo {}

impl CapabilitiesInfo {
    /// What decoding the capability field off the bytes `s` gives: its two
    /// bytes have to be there.
    pub open spec fn spec_parse(s: Seq<u8>) -> Result<CapabilitiesInfo, DecodeError> {
        if s.len() < 2 {
            Err(DecodeError::Truncated)
        } else {
            Ok(CapabilitiesInfo {  })
        }
    }

    /// Skips the two bytes of the capability field, or consumes nothing
    /// where they are not both there.
    pub fn parse(bytes: &mut Reader) -> (r: Result<CapabilitiesInfo, DecodeError>)
        ensures
            r == Self::spec_parse(old(bytes).remaining()),
            final(bytes).bytes() == old(bytes).bytes(),
            final(bytes).spec_position() == old(bytes).spec_position() + (if r is Ok {
                2nat
            } else {
                0nat
            }),
    {
        match bytes.read_u16_le() {
            Ok(_) => Ok(CapabilitiesInfo {  }),
            Err(e) => Err(e),
        }
    }
}

} // verus!
