//! Beacons, with which an access point announces its network.

use crate::error::DecodeError;
use crate::ieee802_11::management_frame::tagged_parameters::spec_ssid;
use crate::ieee802_11::management_frame::{
    FixedParameters, ManagementFrame, TagView, TaggedParameters,
};
use crate::reader::Reader;
use vstd::prelude::*;

verus! {

/// A decoded beacon.
#[derive(Clone, Debug, PartialEq, Eq)]
pub struct BeaconFrame {
    pub management_frame: ManagementFrame,
    pub fixed_parameters: FixedParameters,
    pub tagged_parameters: TaggedParameters,
    /// The name of the network, which may be empty.
    pub ssid: Vec<u8>,
}

/// A decoded beacon, as a value of mathematics.
pub struct BeaconFrameView {
    pub management_frame: ManagementFrame,
    pub fixed_parameters: FixedParameters,
    pub tagged_parameters: Seq<TagView>,
    pub ssid: Seq<u8>,
}

impl View for BeaconFrame {
    type V = BeaconFrameView;

    open spec fn view(&self) -> BeaconFrameView {
        BeaconFrameView {
            management_frame: self.management_frame,
            fixed_parameters: self.fixed_parameters,
            tagged_parameters: self.tagged_parameters@,
            ssid: self.ssid@,
        }
    }
}

impl BeaconFrame {
    /// What decoding the body of a beacon off the bytes `s` gives, for the
    /// frame `management_frame`: the fixed parameters, then tagged parameters
    /// to the end of `s`, and the network name that these hold.
    pub open spec fn spec_parse(management_frame: ManagementFrame, s: Seq<u8>) -> Result<
        BeaconFrameView,
        DecodeError,
    > {
        match FixedParameters::spec_parse(s) {
            Err(e) => Err(e),
            Ok(fixed_parameters) => match TaggedParameters::spec_parse(s.skip(12)) {
                Err(e) => Err(e),
                Ok(tags) => Ok(
                    BeaconFrameView {
                        management_frame,
                        fixed_parameters,
                        tagged_parameters: tags,
                        ssid: spec_ssid(tags),
                    },
                ),
            },
        }
    }

    /// Decodes the body of a beacon, which follows the sequence-control
    /// field of `management_frame`. All the bytes that are left are consumed
    /// if they decode, and nothing is otherwise.
    pub fn parse(management_frame: ManagementFrame, bytes: &mut Reader) -> (r: Result<
        BeaconFrame,
        DecodeError,
    >)
        ensures
            match r {
                Ok(frame) => Self::spec_parse(management_frame, old(bytes).remaining()) == Ok::<
                    BeaconFrameView,
                    DecodeError,
                >(frame@) && final(bytes).spec_position() == old(bytes).bytes().len(),
                Err(e) => Self::spec_parse(management_frame, old(bytes).remaining()) == Err::<
                    BeaconFrameView,
                    DecodeError,
                >(e) && final(bytes).spec_position() == old(bytes).spec_position(),
            },
            final(bytes).bytes() == old(bytes).bytes(),
    {
        let ghost s = bytes.remaining();
        let start = bytes.position();
        let fixed_parameters = match FixedParameters::parse(bytes) {
            Ok(fixed_parameters) => fixed_parameters,
            Err(e) => {
                return Err(e);
            },
        };
        assert(bytes.remaining() =~= s.skip(12));
        let tagged_parameters = match TaggedParameters::parse(bytes) {
            Ok(tagged_parameters) => tagged_parameters,
            Err(e) => {
                bytes.set_position(start);
                return Err(e);
            },
        };
        let ssid = tagged_parameters.ssid();
        Ok(BeaconFrame { management_frame, fixed_parameters, tagged_parameters, ssid })
    }
}

} // verus!
