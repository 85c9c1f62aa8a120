//! Probe requests, with which a station asks for networks.

use crate::error::DecodeError;
use crate::ieee802_11::management_frame::tagged_parameters::spec_ssid;
use crate::ieee802_11::management_frame::{
    ManagementFrame, TagView, TaggedParameters,
};
use crate::reader::Reader;
use vstd::prelude::*;

verus! {

/// A decoded probe request.
#[derive(Clone, Debug, PartialEq, Eq)]
pub struct ProbeRequestFrame {
    pub management_frame: ManagementFrame,
    pub tagged_parameters: TaggedParameters,
    /// The name of the network, which may be empty.
    pub ssid: Vec<u8>,
}

/// A decoded probe request, as a value of mathematics.
pub struct ProbeRequestFrameView {
    pub management_frame: ManagementFrame,
    pub tagged_parameters: Seq<TagView>,
    pub ssid: Seq<u8>,
}

impl View for ProbeRequestFrame {
    type V = ProbeRequestFrameView;

    open spec fn view(&self) -> ProbeRequestFrameView {
        ProbeRequestFrameView {
            management_frame: self.management_frame,
            tagged_parameters: self.tagged_parameters@,
            ssid: self.ssid@,
        }
    }
}

impl ProbeRequestFrame {
    /// What decoding the body of a probe request off the bytes `s` gives, for the
    /// frame `management_frame`: tagged parameters to the end of `s`, and the
    /// network name that these hold.
    pub open spec fn spec_parse(management_frame: ManagementFrame, s: Seq<u8>) -> Result<
        ProbeRequestFrameView,
        DecodeError,
    > {
        match TaggedParameters::spec_parse(s) {
            Err(e) => Err(e),
            Ok(tags) => Ok(
                ProbeRequestFrameView { management_frame, tagged_parameters: tags, ssid: spec_ssid(tags) },
            ),
        }
    }

    /// Decodes the body of a probe request, which follows the sequence-control
    /// field of `management_frame`. All the bytes that are left are consumed
    /// if they decode, and nothing is otherwise.
    pub fn parse(management_frame: ManagementFrame, bytes: &mut Reader) -> (r: Result<
        ProbeRequestFrame,
        DecodeError,
    >)
        ensures
            match r {
                Ok(frame) => Self::spec_parse(management_frame, old(bytes).remaining()) == Ok::<
                    ProbeRequestFrameView,
                    DecodeError,
                >(frame@) && final(bytes).spec_position() == old(bytes).bytes().len(),
                Err(e) => Self::spec_parse(management_frame, old(bytes).remaining()) == Err::<
                    ProbeRequestFrameView,
                    DecodeError,
                >(e) && final(bytes).spec_position() == old(bytes).spec_position(),
            },
            final(bytes).bytes() == old(bytes).bytes(),
    {
        let tagged_parameters = match TaggedParameters::parse(bytes) {
            Ok(tagged_parameters) => tagged_parameters,
            Err(e) => {
                return Err(e);
            },
        };
        let ssid = tagged_parameters.ssid();
        Ok(ProbeRequestFrame { management_frame, tagged_parameters, ssid })
    }
}

} // verus!
