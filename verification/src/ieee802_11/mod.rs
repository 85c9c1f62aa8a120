//! Decoding of IEEE 802.11 frames.

pub mod basic_frame;
pub mod beacon_frame;
pub mod beacon_info;
pub mod frame_control;
pub mod management_frame;
pub mod probe_request_frame;
pub mod probe_response_frame;
pub mod util;

pub use self::basic_frame::BasicFrame;
pub use self::beacon_frame::{BeaconFrame, BeaconFrameView};
pub use self::beacon_info::{BeaconInfo, BeaconInfoView};
pub use self::frame_control::{
    ControlSubtype, DataSubtype, Flags, FrameControl, FrameType, ManagementSubtype, Type, Version,
};
pub use self::management_frame::{
    CapabilitiesInfo, FixedParameters, ManagementFrame, Tag, TagView, TaggedParameters,
};
pub use self::probe_request_frame::{ProbeRequestFrame, ProbeRequestFrameView};
pub use self::probe_response_frame::{ProbeResponseFrame, ProbeResponseFrameView};
pub use self::util::{hash_macs, is_broadcast, MacAddress};
use crate::error::DecodeError;
use crate::reader::Reader;
use vstd::prelude::*;

verus! {

/// A decoded frame. Beacons, probe requests and probe responses are decoded
/// to their end, other management frames up to the sequence-control field,
/// and control and data frames up to the end of the MAC header.
#[derive(Clone, Debug, PartialEq, Eq)]
pub enum Frame {
    Basic(BasicFrame),
    Management(ManagementFrame),
    Beacon(BeaconFrame),
    ProbeRequest(ProbeRequestFrame),
    ProbeResponse(ProbeResponseFrame),
}

/// A decoded frame, as a value of mathematics.
pub enum FrameView {
    Basic(BasicFrame),
    Management(ManagementFrame),
    Beacon(BeaconFrameView),
    ProbeRequest(ProbeRequestFrameView),
    ProbeResponse(ProbeResponseFrameView),
}

impl View for Frame {
    type V = FrameView;

    open spec fn view(&self) -> FrameView {
        match *self {
            Frame::Basic(frame) => FrameView::Basic(frame),
            Frame::Management(frame) => FrameView::Management(frame),
            Frame::Beacon(frame) => FrameView::Beacon(frame@),
            Frame::ProbeRequest(frame) => FrameView::ProbeRequest(frame@),
            Frame::ProbeResponse(frame) => FrameView::ProbeResponse(frame@),
        }
    }
}

impl FrameView {
    /// The MAC header of the frame.
    pub open spec fn basic_frame(&self) -> BasicFrame {
        match *self {
            FrameView::Basic(frame) => frame,
            FrameView::Management(frame) => frame.basic_frame,
            FrameView::Beacon(frame) => frame.management_frame.basic_frame,
            FrameView::ProbeRequest(frame) => frame.management_frame.basic_frame,
            FrameView::ProbeResponse(frame) => frame.management_frame.basic_frame,
        }
    }
}

impl Frame {
    /// What decoding the body of a management frame off the bytes `s` gives,
    /// for the frame `management_frame` of subtype `subtype`.
    pub open spec fn spec_parse_body(
        subtype: ManagementSubtype,
        management_frame: ManagementFrame,
        s: Seq<u8>,
    ) -> Result<FrameView, DecodeError> {
        match subtype {
            ManagementSubtype::Beacon => match BeaconFrame::spec_parse(management_frame, s) {
                Ok(frame) => Ok(FrameView::Beacon(frame)),
                Err(e) => Err(e),
            },
            ManagementSubtype::ProbeRequest => match ProbeRequestFrame::spec_parse(
                management_frame,
                s,
            ) {
                Ok(frame) => Ok(FrameView::ProbeRequest(frame)),
                Err(e) => Err(e),
            },
            ManagementSubtype::ProbeResponse => match ProbeResponseFrame::spec_parse(
                management_frame,
                s,
            ) {
                Ok(frame) => Ok(FrameView::ProbeResponse(frame)),
                Err(e) => Err(e),
            },
            _ => Ok(FrameView::Management(management_frame)),
        }
    }

    /// What decoding a frame off the bytes `s` gives.
    ///
    /// The MAC header comes first. A control or data frame ends there. A
    /// management frame goes on with the sequence-control field, and a
    /// beacon, a probe request or a probe response with its body. The first
    /// part that fails gives the error.
    pub open spec fn spec_parse(s: Seq<u8>) -> Result<FrameView, DecodeError> {
        match BasicFrame::spec_parse(s) {
            Err(e) => Err(e),
            Ok(basic_frame) => match basic_frame.type_ {
                Type::Management(subtype) => {
                    let after_header = s.skip(BasicFrame::spec_len(s) as int);
                    match ManagementFrame::spec_parse(basic_frame, after_header) {
                        Err(e) => Err(e),
                        Ok(management_frame) => Self::spec_parse_body(
                            subtype,
                            management_frame,
                            after_header.skip(2),
                        ),
                    }
                },
                _ => Ok(FrameView::Basic(basic_frame)),
            },
        }
    }

    /// How many bytes of `s` decoding a frame consumes: all of them for a
    /// beacon, a probe request or a probe response; the MAC header and two
    /// more for another management frame; the MAC header for a control or
    /// data frame; and nothing where decoding fails.
    pub open spec fn spec_len(s: Seq<u8>) -> nat {
        match Self::spec_parse(s) {
            Err(_) => 0,
            Ok(FrameView::Basic(_)) => BasicFrame::spec_len(s),
            Ok(FrameView::Management(_)) => BasicFrame::spec_len(s) + 2,
            Ok(_) => s.len(),
        }
    }

    /// Decodes one frame off the bytes that are left. Nothing is consumed
    /// where they do not decode.
    pub fn parse(bytes: &mut Reader) -> (r: Result<Frame, DecodeError>)
        ensures
            match r {
                Ok(frame) => Self::spec_parse(old(bytes).remaining()) == Ok::<
                    FrameView,
                    DecodeError,
                >(frame@),
                Err(e) => Self::spec_parse(old(bytes).remaining()) == Err::<FrameView, DecodeError>(
                    e,
                ),
            },
            final(bytes).bytes() == old(bytes).bytes(),
            final(bytes).spec_position() == old(bytes).spec_position() + Self::spec_len(
                old(bytes).remaining(),
            ),
    {
        let ghost s = bytes.remaining();
        let start = bytes.position();
        let basic_frame = match BasicFrame::parse(bytes) {
            Ok(basic_frame) => basic_frame,
            Err(e) => {
                return Err(e);
            },
        };
        assert(bytes.remaining() =~= s.skip(BasicFrame::spec_len(s) as int));
        match basic_frame.type_ {
            Type::Management(subtype) => {
                let ghost after_header = bytes.remaining();
                let management_frame = match ManagementFrame::parse(basic_frame, bytes) {
                    Ok(management_frame) => management_frame,
                    Err(e) => {
                        bytes.set_position(start);
                        return Err(e);
                    },
                };
                assert(bytes.remaining() =~= after_header.skip(2));
                match subtype {
                    ManagementSubtype::Beacon => match BeaconFrame::parse(management_frame, bytes) {
                        Ok(frame) => Ok(Frame::Beacon(frame)),
                        Err(e) => {
                            bytes.set_position(start);
                            Err(e)
                        },
                    },
                    ManagementSubtype::ProbeRequest => match ProbeRequestFrame::parse(
                        management_frame,
                        bytes,
                    ) {
                        Ok(frame) => Ok(Frame::ProbeRequest(frame)),
                        Err(e) => {
                            bytes.set_position(start);
                            Err(e)
                        },
                    },
                    ManagementSubtype::ProbeResponse => match ProbeResponseFrame::parse(
                        management_frame,
                        bytes,
                    ) {
                        Ok(frame) => Ok(Frame::ProbeResponse(frame)),
                        Err(e) => {
                            bytes.set_position(start);
                            Err(e)
                        },
                    },
                    _ => Ok(Frame::Management(management_frame)),
                }
            },
            _ => Ok(Frame::Basic(basic_frame)),
        }
    }

    /// The MAC header of the frame.
    pub fn basic_frame(&self) -> (header: &BasicFrame)
        ensures
            *header == self@.basic_frame(),
    {
        match self {
            Frame::Basic(frame) => frame,
            Frame::Management(frame) => &frame.basic_frame,
            Frame::Beacon(frame) => &frame.management_frame.basic_frame,
            Frame::ProbeRequest(frame) => &frame.management_frame.basic_frame,
            Frame::ProbeResponse(frame) => &frame.management_frame.basic_frame,
        }
    }
    /// The variant of a decoded frame goes by its type and subtype: a beacon,
    /// a probe request and a probe response each have their own, another
    /// management frame is a `Management`, and a control or data frame a
    /// `Basic`. Decoding consumes no more than there is.
    pub proof fn lemma_variant(s: Seq<u8>)
        requires
            Self::spec_parse(s) is Ok,
        ensures
            Self::spec_parse(s)->Ok_0 is Beacon <==> Self::spec_parse(s)->Ok_0.basic_frame().type_
                == Type::Management(ManagementSubtype::Beacon),
            Self::spec_parse(s)->Ok_0 is ProbeRequest <==> Self::spec_parse(
                s,
            )->Ok_0.basic_frame().type_ == Type::Management(ManagementSubtype::ProbeRequest),
            Self::spec_parse(s)->Ok_0 is ProbeResponse <==> Self::spec_parse(
                s,
            )->Ok_0.basic_frame().type_ == Type::Management(ManagementSubtype::ProbeResponse),
            Self::spec_parse(s)->Ok_0 is Basic <==> !(Self::spec_parse(s)->Ok_0.basic_frame().type_
                is Management),
            BasicFrame::spec_parse(s) == Ok::<BasicFrame, DecodeError>(
                Self::spec_parse(s)->Ok_0.basic_frame(),
            ),
            Self::spec_len(s) <= s.len(),
    {
        BasicFrame::lemma_addresses(s);
    }
}

} // verus!
