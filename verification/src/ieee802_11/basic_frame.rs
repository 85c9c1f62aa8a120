//! The MAC header: type, duration and the addresses with their roles.

use crate::error::DecodeError;
use crate::ieee802_11::frame_control::{ControlSubtype, Flags, FrameControl, FrameType, Type};
use crate::ieee802_11::util::MacAddress;
use crate::reader::{lemma_le_skip, spec_le, Reader};
use vstd::prelude::*;

verus! {

/// What the MAC header of a frame says.
#[derive(Clone, Copy, Debug, PartialEq, Eq)]
pub struct BasicFrame {
    pub type_: FrameType,
    /// The time, in microseconds, for which the medium is reserved.
    pub duration: u16,
    pub receiver_address: Option<MacAddress>,
    pub transmitter_address: Option<MacAddress>,
    pub destination_address: Option<MacAddress>,
    pub source_address: Option<MacAddress>,
    pub bssid: Option<MacAddress>,
}

impl BasicFrame {
    /// How many addresses the header of a frame holds: one in an ACK or a
    /// CTS; two in an RTS, a block acknowledgement, a request for one, or a
    /// CF-End; four in any other frame that goes from one distribution
    /// system to another, and three in the rest.
    pub open spec fn spec_address_count(type_: FrameType, flags: Flags) -> nat {
        match type_ {
            Type::Control(ControlSubtype::ACK) | Type::Control(ControlSubtype::CTS) => 1,
            Type::Control(ControlSubtype::RTS)
            | Type::Control(ControlSubtype::BlockAck)
            | Type::Control(ControlSubtype::BlockAckRequest)
            | Type::Control(ControlSubtype::CFEnd) => 2,
            _ => if flags.to_ds && flags.from_ds {
                4
            } else {
                3
            },
        }
    }

    /// The length of the header: frame control, duration, and the addresses.
    pub open spec fn spec_header_len(type_: FrameType, flags: Flags) -> nat {
        4 + 6 * Self::spec_address_count(type_, flags)
    }

    /// The address in the `n`-th address slot of the header `s`, counted from
    /// 1.
    pub open spec fn spec_address(s: Seq<u8>, n: int) -> MacAddress {
        MacAddress::spec_new(s.skip(6 * n - 2))
    }

    /// The header that the bytes `s` spell under the frame control `fc`,
    /// where `s` is long enough.
    ///
    /// The first address is always the receiver. Where there is a second, it
    /// is the transmitter, except in a CF-End, where it is the BSSID. Frames
    /// with three or four addresses assign destination, source and BSSID by
    /// the two distribution-system flags.
    pub open spec fn spec_layout(fc: FrameControl, s: Seq<u8>) -> BasicFrame {
        let addr1 = Self::spec_address(s, 1);
        let addr2 = Self::spec_address(s, 2);
        let addr3 = Self::spec_address(s, 3);
        let addr4 = Self::spec_address(s, 4);
        let bare = BasicFrame {
            type_: fc.type_,
            duration: spec_le(s, 2, 2) as u16,
            receiver_address: Some(addr1),
            transmitter_address: None,
            destination_address: None,
            source_address: None,
            bssid: None,
        };
        if Self::spec_address_count(fc.type_, fc.flags) == 1 {
            bare
        } else if Self::spec_address_count(fc.type_, fc.flags) == 2 {
            if fc.type_ == Type::Control(ControlSubtype::CFEnd) {
                BasicFrame { bssid: Some(addr2), ..bare }
            } else {
                BasicFrame { transmitter_address: Some(addr2), ..bare }
            }
        } else if !fc.flags.to_ds && !fc.flags.from_ds {
            BasicFrame {
                transmitter_address: Some(addr2),
                destination_address: Some(addr1),
                source_address: Some(addr2),
                bssid: Some(addr3),
                ..bare
            }
        } else if !fc.flags.to_ds && fc.flags.from_ds {
            BasicFrame {
                transmitter_address: Some(addr2),
                destination_address: Some(addr1),
                source_address: Some(addr3),
                bssid: Some(addr2),
                ..bare
            }
        } else if fc.flags.to_ds && !fc.flags.from_ds {
            BasicFrame {
                transmitter_address: Some(addr2),
                destination_address: Some(addr3),
                source_address: Some(addr2),
                bssid: Some(addr1),
                ..bare
            }
        } else {
            BasicFrame {
                transmitter_address: Some(addr2),
                destination_address: Some(addr3),
                source_address: Some(addr4),
                ..bare
            }
        }
    }

    /// What decoding a MAC header off the bytes `s` gives: the error of the
    /// frame-control field if it has one, `Truncated` if `s` is shorter than
    /// the header that the frame control calls for, and the header otherwise.
    pub open spec fn spec_parse(s: Seq<u8>) -> Result<BasicFrame, DecodeError> {
        match FrameControl::spec_parse(s) {
            Err(e) => Err(e),
            Ok(fc) => if s.len() < Self::spec_header_len(fc.type_, fc.flags) {
                Err(DecodeError::Truncated)
            } else {
                Ok(Self::spec_layout(fc, s))
            },
        }
    }

    /// How many bytes of `s` decoding a MAC header consumes: the length of
    /// the header, or nothing where decoding fails.
    pub open spec fn spec_len(s: Seq<u8>) -> nat {
        match FrameControl::spec_parse(s) {
            Err(e) => 0,
            Ok(fc) => if s.len() < Self::spec_header_len(fc.type_, fc.flags) {
                0
            } else {
                Self::spec_header_len(fc.type_, fc.flags)
            },
        }
    }

    fn address_count(type_: &FrameType, flags: &Flags) -> (count: usize)
        ensures
            count == Self::spec_address_count(*type_, *flags),
            1 <= count <= 4,
    {
        match type_ {
            Type::Control(ControlSubtype::ACK) | Type::Control(ControlSubtype::CTS) => 1,
            Type::Control(ControlSubtype::RTS)
            | Type::Control(ControlSubtype::BlockAck)
            | Type::Control(ControlSubtype::BlockAckRequest)
            | Type::Control(ControlSubtype::CFEnd) => 2,
            _ => if flags.to_ds && flags.from_ds {
                4
            } else {
                3
            },
        }
    }

    fn read_address(bytes: &mut Reader, Ghost(s): Ghost<Seq<u8>>, Ghost(n): Ghost<int>) -> (mac:
        MacAddress)
        requires
            1 <= n <= 4,
            old(bytes).spec_position() + 6 <= old(bytes).bytes().len(),
            old(bytes).remaining() == s.skip(6 * n - 2),
            6 * n + 4 <= s.len(),
        ensures
            mac == Self::spec_address(s, n),
            final(bytes).bytes() == old(bytes).bytes(),
            final(bytes).spec_position() == old(bytes).spec_position() + 6,
            final(bytes).remaining() == s.skip(6 * (n + 1) - 2),
    {
        let mac = MacAddress::from(bytes);
        assert(bytes.remaining() =~= old(bytes).remaining().skip(6));
        assert(s.skip(6 * n - 2).skip(6) =~= s.skip(6 * (n + 1) - 2));
        mac
    }

    /// Decodes the MAC header at the start of a frame. The header is
    /// consumed if it is valid and complete, and nothing is otherwise.
    pub fn parse(bytes: &mut Reader) -> (r: Result<BasicFrame, DecodeError>)
        ensures
            r == Self::spec_parse(old(bytes).remaining()),
            final(bytes).bytes() == old(bytes).bytes(),
            final(bytes).spec_position() == old(bytes).spec_position() + Self::spec_len(
                old(bytes).remaining(),
            ),
    {
        let ghost s = bytes.remaining();
        let start = bytes.position();
        let frame_control = match FrameControl::parse(bytes) {
            Ok(frame_control) => frame_control,
            Err(e) => {
                return Err(e);
            },
        };
        let count = Self::address_count(&frame_control.type_, &frame_control.flags);
        if bytes.remaining_len() < 2 + 6 * count {
            bytes.set_position(start);
            return Err(DecodeError::Truncated);
        }
        assert(bytes.remaining() =~= s.skip(2));
        let duration = match bytes.read_u16_le() {
            Ok(duration) => duration,
            Err(e) => {
                return Err(e);
            },
        };
        proof {
            lemma_le_skip(s, 2, 0, 2);
        }
        assert(bytes.remaining() =~= s.skip(4));
        let addr1 = Self::read_address(bytes, Ghost(s), Ghost(1));

        let receiver_address = Some(addr1);
        let mut transmitter_address = None;
        let mut destination_address = None;
        let mut source_address = None;
        let mut bssid = None;

        if count == 2 {
            let addr2 = Self::read_address(bytes, Ghost(s), Ghost(2));
            match frame_control.type_ {
                Type::Control(ControlSubtype::CFEnd) => {
                    bssid = Some(addr2);
                },
                _ => {
                    transmitter_address = Some(addr2);
                },
            }
        } else if count >= 3 {
            let addr2 = Self::read_address(bytes, Ghost(s), Ghost(2));
            let addr3 = Self::read_address(bytes, Ghost(s), Ghost(3));
            transmitter_address = Some(addr2);
            match (frame_control.flags.to_ds, frame_control.flags.from_ds) {
                (false, false) => {
                    destination_address = Some(addr1);
                    source_address = Some(addr2);
                    bssid = Some(addr3);
                },
                (false, true) => {
                    destination_address = Some(addr1);
                    bssid = Some(addr2);
                    source_address = Some(addr3);
                },
                (true, false) => {
                    bssid = Some(addr1);
                    source_address = Some(addr2);
                    destination_address = Some(addr3);
                },
                (true, true) => {
                    let addr4 = Self::read_address(bytes, Ghost(s), Ghost(4));
                    destination_address = Some(addr3);
                    source_address = Some(addr4);
                },
            }
        }
        Ok(
            BasicFrame {
                type_: frame_control.type_,
                duration,
                receiver_address,
                destination_address,
                transmitter_address,
                source_address,
                bssid,
            },
        )
    }
    /// Every header that decodes names its receiver, the first address. It
    /// names a transmitter, the second address, unless it is the header of an
    /// ACK, a CTS or a CF-End. And decoding it consumes between 10 and 28
    /// bytes.
    pub proof fn lemma_addresses(s: Seq<u8>)
        requires
            Self::spec_parse(s) is Ok,
        ensures
            Self::spec_parse(s)->Ok_0.receiver_address == Some(Self::spec_address(s, 1)),
            Self::spec_parse(s)->Ok_0.transmitter_address == if Self::spec_parse(s)->Ok_0.type_
                == Type::Control(ControlSubtype::ACK) || Self::spec_parse(s)->Ok_0.type_
                == Type::Control(ControlSubtype::CTS) || Self::spec_parse(s)->Ok_0.type_
                == Type::Control(ControlSubtype::CFEnd) {
                None
            } else {
                Some(Self::spec_address(s, 2))
            },
            10 <= Self::spec_len(s) <= 28,
            Self::spec_len(s) <= s.len(),
    {
    }
}

} // verus!
