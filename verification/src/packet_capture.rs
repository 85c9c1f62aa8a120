//! What a capture hands over before the frame itself: the link type, the
//! radiotap header that some drivers put in front of a frame, and the pace
//! of a replay.

use crate::error::DecodeError;
use crate::ieee802_11::{Frame, FrameView};
use crate::reader::{spec_le, Reader};
use vstd::prelude::*;
use vstd::slice::{slice_subrange, slice_to_vec};
use vstd::string::StringExecFns;

verus! {

/// The link type of captures that hold bare 802.11 frames.
pub const LINKTYPE_IEEE802_11: i32 = 105;

/// The link type of captures in which a radiotap header precedes each frame.
pub const LINKTYPE_IEEE802_11_RADIOTAP: i32 = 127;

/// The length of the frame check sequence that may close a frame.
pub const FCS_LENGTH: usize = 4;

/// Why a captured packet could not be used.
#[derive(Clone, Copy, Debug, PartialEq, Eq, Structural)]
pub enum CaptureError {
    /// The capture is of a link type that holds no 802.11 frames.
    UnsupportedLinkType(i32),
    /// The radiotap header uses a vendor namespace, or chains more words of
    /// present bits than are decoded.
    UnsupportedRadiotap,
    /// The radiotap header does not decode.
    InvalidRadiotap,
    /// The radiotap header announces a frame check sequence, and what
    /// follows the header is too short to hold one.
    MissingChecksum,
}

impl CaptureError {
    /// The text of the error, as it is shown to a client.
    pub open spec fn spec_message(&self) -> Seq<char> {
        match *self {
            CaptureError::UnsupportedLinkType(_) => "bad datalink type"@,
            CaptureError::UnsupportedRadiotap => "unsupported radiotap header"@,
            CaptureError::InvalidRadiotap => "invalid radiotap header"@,
            CaptureError::MissingChecksum => "frame check sequence is missing"@,
        }
    }

    /// Renders the error as text.
    pub fn message(&self) -> (text: String)
        ensures
            text@ == self.spec_message(),
    {
        match *self {
            CaptureError::UnsupportedLinkType(_) => String::from_str("bad datalink type"),
            CaptureError::UnsupportedRadiotap => String::from_str("unsupported radiotap header"),
            CaptureError::InvalidRadiotap => String::from_str("invalid radiotap header"),
            CaptureError::MissingChecksum => String::from_str("frame check sequence is missing"),
        }
    }
}

/// What the radiotap header of a packet says, as far as it is used here.
#[derive(Clone, Copy, Debug, PartialEq, Eq)]
pub struct RadiotapInfo {
    /// The length of the header: the frame begins behind it.
    pub length: usize,
    /// Whether the frame ends in a frame check sequence, where the header
    /// says either.
    pub fcs: Option<bool>,
    /// The signal strength at the antenna, in dBm, where the header has it.
    pub antenna_signal: Option<i8>,
}

/// An error of the radiotap decoder.
#[verifier::external_type_specification]
#[verifier::external_body]
pub struct ExRadiotapError(radiotap::Error);

/// What the radiotap decoder makes of the packet `bytes`: the header's
/// fields, or nothing where the header does not decode.
pub uninterp spec fn spec_radiotap(bytes: Seq<u8>) -> Option<RadiotapInfo>;

/// Whether the words of present bits that start at `offset` are all of the
/// radiotap namespace, and no more than eight of them follow one another
/// without the namespace being reset; `run` of these came before `offset`.
///
/// The highest byte of each word decides: bit 7 says that another word
/// follows, bit 6 switches to a vendor namespace, and bit 5, which goes
/// before bit 6, resets the radiotap namespace.
pub open spec fn spec_plain_present(bytes: Seq<u8>, offset: int, run: nat) -> bool
    decreases bytes.len() - offset,
{
    if offset < 0 || offset + 4 > bytes.len() {
        true
    } else if run > 7 {
        false
    } else {
        let top = bytes[offset + 3];
        if top & 0x20 == 0 && top & 0x40 != 0 {
            false
        } else if top & 0x80 == 0 {
            true
        } else {
            spec_plain_present(
                bytes,
                offset + 4,
                if top & 0x20 != 0 {
                    0
                } else {
                    run + 1
                },
            )
        }
    }
}

/// Whether the radiotap header of the packet `bytes` keeps to the radiotap
/// namespace. The present bits start behind the four bytes of version,
/// padding and length.
pub open spec fn spec_plain_radiotap(bytes: Seq<u8>) -> bool {
    spec_plain_present(bytes, 4, 0)
}

/// Whether the radiotap header of the packet `bytes` keeps to the radiotap
/// namespace.
pub fn is_plain_radiotap(bytes: &[u8]) -> (plain: bool)
    ensures
        plain == spec_plain_radiotap(bytes@),
{
    let mut offset: usize = 4;
    let mut run: u8 = 0;
    while offset <= bytes.len() && bytes.len() - offset >= 4
        invariant
            4 <= offset,
            run <= 8,
            spec_plain_radiotap(bytes@) == spec_plain_present(bytes@, offset as int, run as nat),
        decreases bytes.len() - offset,
    {
        if run > 7 {
            return false;
        }
        let top = bytes[offset + 3];
        if top & 0x20 == 0 && top & 0x40 != 0 {
            return false;
        }
        if top & 0x80 == 0 {
            return true;
        }
        if top & 0x20 != 0 {
            run = 0;
        } else {
            run = run + 1;
        }
        offset = offset + 4;
    }
    true
}

/// `radiotap::Radiotap::parse`: decodes the radiotap header at the start of
/// a packet.
///
/// The result is a function of the bytes, named `spec_radiotap`. Of a header
/// that decodes the contract claims what the decoder's source shows: its
/// length is the 16-bit number in bytes 2 and 3, least significant byte
/// first, and the packet is no shorter than that. The rest of the decoder's
/// result is left out. The precondition leaves out the headers on which the
/// decoder may panic: those with a vendor namespace, whose skip length it
/// does not check, and those with so many chained words of present bits that
/// its field numbers overflow.
#[verifier::external_body]
fn parse_radiotap(bytes: &[u8]) -> (r: Result<RadiotapInfo, radiotap::Error>)
    requires
        spec_plain_radiotap(bytes@),
    ensures
        match r {
            Ok(info) => spec_radiotap(bytes@) == Some(info) && 4 <= bytes@.len() && info.length
                <= bytes@.len() && info.length == spec_le(bytes@, 2, 2),
            Err(_) => spec_radiotap(bytes@).is_none(),
        },
{
    match radiotap::Radiotap::parse(bytes) {
        Ok((header, _)) => Ok(
            RadiotapInfo {
                length: header.header.length,
                fcs: header.flags.map(|flags| flags.fcs),
                antenna_signal: header.antenna_signal.map(|signal| signal.value),
            },
        ),
        Err(e) => Err(e),
    }
}

/// Whether captures of the link type `datalink` carry a radiotap header
/// before each frame. Link types other than the two that hold 802.11 frames
/// are refused.
pub open spec fn spec_is_radiotap_link(datalink: i32) -> Result<bool, CaptureError> {
    if datalink == LINKTYPE_IEEE802_11 {
        Ok(false)
    } else if datalink == LINKTYPE_IEEE802_11_RADIOTAP {
        Ok(true)
    } else {
        Err(CaptureError::UnsupportedLinkType(datalink))
    }
}

/// Whether captures of the link type `datalink` carry a radiotap header
/// before each frame.
pub fn is_radiotap_link(datalink: i32) -> (r: Result<bool, CaptureError>)
    ensures
        r == spec_is_radiotap_link(datalink),
{
    if datalink == LINKTYPE_IEEE802_11 {
        Ok(false)
    } else if datalink == LINKTYPE_IEEE802_11_RADIOTAP {
        Ok(true)
    } else {
        Err(CaptureError::UnsupportedLinkType(datalink))
    }
}

/// The frame in the packet `bytes` whose radiotap header says `info`: what
/// follows the header, without the last four bytes where the header
/// announces a frame check sequence.
pub open spec fn spec_frame_of(bytes: Seq<u8>, info: RadiotapInfo) -> Result<
    Seq<u8>,
    CaptureError,
> {
    if info.fcs == Some(true) {
        if bytes.len() - info.length < FCS_LENGTH {
            Err(CaptureError::MissingChecksum)
        } else {
            Ok(bytes.subrange(info.length as int, bytes.len() - FCS_LENGTH))
        }
    } else {
        Ok(bytes.skip(info.length as int))
    }
}

/// What reading the radiotap header of the packet `bytes` gives.
pub open spec fn spec_read_radiotap(bytes: Seq<u8>) -> Result<RadiotapInfo, CaptureError> {
    if !spec_plain_radiotap(bytes) {
        Err(CaptureError::UnsupportedRadiotap)
    } else {
        match spec_radiotap(bytes) {
            Some(info) => Ok(info),
            None => Err(CaptureError::InvalidRadiotap),
        }
    }
}

/// What is left of the packet `bytes` once its radiotap header and its
/// frame check sequence, if it has one, are taken off.
pub open spec fn spec_strip_radiotap(bytes: Seq<u8>) -> Result<Seq<u8>, CaptureError> {
    match spec_read_radiotap(bytes) {
        Ok(info) => spec_frame_of(bytes, info),
        Err(e) => Err(e),
    }
}

/// Cuts the frame out of a packet whose radiotap header says `info`.
pub fn frame_of<'a>(bytes: &'a [u8], info: &RadiotapInfo) -> (r: Result<&'a [u8], CaptureError>)
    requires
        info.length <= bytes@.len(),
    ensures
        match r {
            Ok(frame) => spec_frame_of(bytes@, *info) == Ok::<Seq<u8>, CaptureError>(frame@),
            Err(e) => spec_frame_of(bytes@, *info) == Err::<Seq<u8>, CaptureError>(e),
        },
{
    let has_fcs = match info.fcs {
        Some(fcs) => fcs,
        None => false,
    };
    if has_fcs {
        if bytes.len() - info.length < FCS_LENGTH {
            Err(CaptureError::MissingChecksum)
        } else {
            Ok(slice_subrange(bytes, info.length, bytes.len() - FCS_LENGTH))
        }
    } else {
        Ok(slice_subrange(bytes, info.length, bytes.len()))
    }
}

/// Reads the radiotap header at the start of a packet.
pub fn read_radiotap(bytes: &[u8]) -> (r: Result<RadiotapInfo, CaptureError>)
    ensures
        r == spec_read_radiotap(bytes@),
        r matches Ok(info) ==> info.length <= bytes@.len(),
{
    if !is_plain_radiotap(bytes) {
        return Err(CaptureError::UnsupportedRadiotap);
    }
    match parse_radiotap(bytes) {
        Ok(info) => Ok(info),
        Err(_) => Err(CaptureError::InvalidRadiotap),
    }
}

/// Takes the radiotap header, and the frame check sequence if the header
/// announces one, off a packet.
pub fn strip_radiotap(bytes: &[u8]) -> (r: Result<&[u8], CaptureError>)
    ensures
        match r {
            Ok(frame) => spec_strip_radiotap(bytes@) == Ok::<Seq<u8>, CaptureError>(frame@),
            Err(e) => spec_strip_radiotap(bytes@) == Err::<Seq<u8>, CaptureError>(e),
        },
{
    match read_radiotap(bytes) {
        Ok(info) => frame_of(bytes, &info),
        Err(e) => Err(e),
    }
}

/// Why a packet gave no frame.
#[derive(Clone, Copy, Debug, PartialEq, Eq, Structural)]
pub enum PacketError {
    /// What precedes the frame could not be used.
    Capture(CaptureError),
    /// The frame does not decode.
    Decode(DecodeError),
}

impl PacketError {
    /// The text of the error, as it is shown to a client.
    pub open spec fn spec_message(&self) -> Seq<char> {
        match *self {
            PacketError::Capture(e) => e.spec_message(),
            PacketError::Decode(e) => e.spec_message(),
        }
    }

    /// Renders the error as text.
    pub fn message(&self) -> (text: String)
        ensures
            text@ == self.spec_message(),
    {
        match *self {
            PacketError::Capture(e) => e.message(),
            PacketError::Decode(e) => e.message(),
        }
    }
}

/// A decoded frame with what the capture knows of it.
#[derive(Clone, Debug, PartialEq, Eq)]
pub struct FrameWithRadiotap {
    /// The number of the packet in its capture.
    pub id: u64,
    pub frame: Frame,
    /// The radiotap header of the packet, if the capture has such headers.
    pub radiotap: Option<RadiotapInfo>,
}

impl FrameWithRadiotap {
    /// The signal strength at which the frame was received, in dBm, where
    /// the capture tells.
    pub open spec fn spec_signal(&self) -> Option<i8> {
        match self.radiotap {
            Some(info) => info.antenna_signal,
            None => None,
        }
    }

    /// The signal strength at which the frame was received, in dBm, where
    /// the capture tells.
    pub fn signal(&self) -> (signal: Option<i8>)
        ensures
            signal == self.spec_signal(),
    {
        match self.radiotap {
            Some(info) => info.antenna_signal,
            None => None,
        }
    }

    /// What decoding the packet `bytes` gives, of a capture that has
    /// radiotap headers or has none: the frame and the radiotap header.
    ///
    /// With radiotap headers the frame is what `spec_strip_radiotap` leaves,
    /// without them it is the whole packet.
    pub open spec fn spec_decode(bytes: Seq<u8>, is_radiotap: bool) -> Result<
        (FrameView, Option<RadiotapInfo>),
        PacketError,
    > {
        if is_radiotap {
            match spec_read_radiotap(bytes) {
                Err(e) => Err(PacketError::Capture(e)),
                Ok(info) => match spec_frame_of(bytes, info) {
                    Err(e) => Err(PacketError::Capture(e)),
                    Ok(frame_bytes) => match Frame::spec_parse(frame_bytes) {
                        Err(e) => Err(PacketError::Decode(e)),
                        Ok(frame) => Ok((frame, Some(info))),
                    },
                },
            }
        } else {
            match Frame::spec_parse(bytes) {
                Err(e) => Err(PacketError::Decode(e)),
                Ok(frame) => Ok((frame, None)),
            }
        }
    }

    /// Decodes the packet `bytes`, the `id`-th of a capture that has
    /// radiotap headers or has none.
    pub fn decode(id: u64, bytes: &[u8], is_radiotap: bool) -> (r: Result<
        FrameWithRadiotap,
        PacketError,
    >)
        ensures
            match r {
                Ok(packet) => packet.id == id && Self::spec_decode(bytes@, is_radiotap) == Ok::<
                    (FrameView, Option<RadiotapInfo>),
                    PacketError,
                >((packet.frame@, packet.radiotap)),
                Err(e) => Self::spec_decode(bytes@, is_radiotap) == Err::<
                    (FrameView, Option<RadiotapInfo>),
                    PacketError,
                >(e),
            },
    {
        let (radiotap, frame_bytes) = if is_radiotap {
            let info = match read_radiotap(bytes) {
                Ok(info) => info,
                Err(e) => {
                    return Err(PacketError::Capture(e));
                },
            };
            match frame_of(bytes, &info) {
                Ok(frame_bytes) => (Some(info), frame_bytes),
                Err(e) => {
                    return Err(PacketError::Capture(e));
                },
            }
        } else {
            (None, bytes)
        };
        let mut reader = Reader::new(slice_to_vec(frame_bytes));
        assert(reader.remaining() =~= frame_bytes@);
        match Frame::parse(&mut reader) {
            Ok(frame) => Ok(FrameWithRadiotap { id, frame, radiotap }),
            Err(e) => Err(PacketError::Decode(e)),
        }
    }
}

/// How long a replay waits before it hands out a packet that was captured
/// at the time `current`, the packet before it at the time `last`: the time
/// between the two. Nothing is waited for before the first packet, or where
/// the times do not go forward.
pub open spec fn spec_playback_delay(last: Option<u64>, current: u64) -> u64 {
    match last {
        Some(last) => if current > last {
            (current - last) as u64
        } else {
            0
        },
        None => 0,
    }
}

/// How long a replay waits before it hands out the packet captured at the
/// time `current`, in the unit of the two times.
pub fn playback_delay(last: Option<u64>, current: u64) -> (delay: u64)
    ensures
        delay == spec_playback_delay(last, current),
{
    match last {
        Some(last) => if current > last {
            current - last
        } else {
            0
        },
        None => 0,
    }
}

} // verus!
