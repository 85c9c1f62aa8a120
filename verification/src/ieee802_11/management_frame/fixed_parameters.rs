//! The fixed parameters with which the body of a beacon or a probe response
//! begins.

use crate::error::DecodeError;
use crate::ieee802_11::management_frame::capabilities_info::CapabilitiesInfo;
use crate::reader::{lemma_le_skip, spec_le, Reader};
use vstd::prelude::*;

verus! {

/// The length of one time unit, the unit of beacon intervals, in
/// microseconds.
pub const TIME_UNIT_MICROS: u64 = 1024;

/// The fixed parameters of a beacon or a probe response.
#[derive(Clone, Copy, Debug, PartialEq, Eq, Structural)]
pub struct FixedParameters {
    /// The sender's clock, in microseconds.
    pub timestamp: u64,
    /// The time between two beacons, in time units of 1024 microseconds.
    pub beacon_interval: u16,
    pub capabilities_info: CapabilitiesInfo,
}

impl FixedParameters {
    /// The time between two beacons, in microseconds.
    pub open spec fn spec_beacon_interval_micros(&self) -> u64 {
        (self.beacon_interval as u64 * 1024) as u64
    }

    /// The time between two beacons, in microseconds.
    #[verifier::when_used_as_spec(spec_beacon_interval_micros)]
    pub fn beacon_interval_micros(&self) -> (micros: u64)
        ensures
            micros == self.beacon_interval as int * 1024,
            micros == self.spec_beacon_interval_micros(),
    {
        self.beacon_interval as u64 * TIME_UNIT_MICROS
    }

    /// What decoding the fixed parameters off the bytes `s` gives: eight
    /// bytes of timestamp, two of beacon interval, both least significant
    /// byte first, and two of capabilities.
    pub open spec fn spec_parse(s: Seq<u8>) -> Result<FixedParameters, DecodeError> {
        if s.len() < 12 {
            Err(DecodeError::Truncated)
        } else {
            Ok(
                FixedParameters {
                    timestamp: spec_le(s, 0, 8) as u64,
                    beacon_interval: spec_le(s, 8, 2) as u16,
                    capabilities_info: CapabilitiesInfo {  },
                },
            )
        }
    }

    /// Decodes the fixed parameters off the next twelve bytes. They are
    /// consumed if they are all there, and nothing is otherwise.
    pub fn parse(bytes: &mut Reader) -> (r: Result<FixedParameters, DecodeError>)
        ensures
            r == Self::spec_parse(old(bytes).remaining()),
            final(bytes).bytes() == old(bytes).bytes(),
            final(bytes).spec_position() == old(bytes).spec_position() + (if r is Ok {
                12nat
            } else {
                0nat
            }),
    {
        let ghost s = bytes.remaining();
        if bytes.remaining_len() < 12 {
            return Err(DecodeError::Truncated);
        }
        let timestamp = match bytes.read_u64_le() {
            Ok(timestamp) => timestamp,
            Err(e) => {
                return Err(e);
            },
        };
        assert(bytes.remaining() =~= s.skip(8));
        let beacon_interval = match bytes.read_u16_le() {
            Ok(beacon_interval) => beacon_interval,
            Err(e) => {
                return Err(e);
            },
        };
        proof {
            lemma_le_skip(s, 8, 0, 2);
        }
        assert(bytes.remaining() =~= s.skip(10));
        let capabilities_info = match CapabilitiesInfo::parse(bytes) {
            Ok(capabilities_info) => capabilities_info,
            Err(e) => {
                return Err(e);
            },
        };
        Ok(FixedParameters { timestamp, beacon_interval, capabilities_info })
    }
}

} // verus!
