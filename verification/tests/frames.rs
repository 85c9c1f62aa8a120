use wifi_visualizer::error::DecodeError;
use wifi_visualizer::ieee802_11::basic_frame::BasicFrame;
use wifi_visualizer::ieee802_11::beacon_frame::BeaconFrame;
use wifi_visualizer::ieee802_11::beacon_info::BeaconInfo;
use wifi_visualizer::ieee802_11::frame_control::{
    ControlSubtype, DataSubtype, FrameType, ManagementSubtype,
};
use wifi_visualizer::ieee802_11::management_frame::{
    CapabilitiesInfo, FixedParameters, ManagementFrame, Tag, TaggedParameters,
};
use wifi_visualizer::ieee802_11::probe_request_frame::ProbeRequestFrame;
use wifi_visualizer::ieee802_11::util::MacAddress;
use wifi_visualizer::ieee802_11::Frame;
use wifi_visualizer::reader::Reader;

const A1: [u8; 6] = [0x10, 0x11, 0x12, 0x13, 0x14, 0x15];
const A2: [u8; 6] = [0x20, 0x21, 0x22, 0x23, 0x24, 0x25];
const A3: [u8; 6] = [0x30, 0x31, 0x32, 0x33, 0x34, 0x35];
const A4: [u8; 6] = [0x40, 0x41, 0x42, 0x43, 0x44, 0x45];

fn reader(bytes: &[u8]) -> Reader {
    Reader::new(bytes.to_vec())
}

fn header(frame_control: [u8; 2], duration: [u8; 2], addresses: &[[u8; 6]]) -> Vec<u8> {
    let mut bytes = vec![frame_control[0], frame_control[1], duration[0], duration[1]];
    for address in addresses {
        bytes.extend_from_slice(address);
    }
    bytes
}

fn mac(octets: [u8; 6]) -> Option<MacAddress> {
    Some(MacAddress::new(octets))
}

#[test]
fn ack_has_only_a_receiver() {
    let bytes = header([0xd4, 0x00], [0x2c, 0x01], &[A1]);
    let mut input = reader(&bytes);
    let frame = BasicFrame::parse(&mut input).unwrap();
    assert_eq!(frame.type_, FrameType::Control(ControlSubtype::ACK));
    assert_eq!(frame.duration, 300);
    assert_eq!(frame.receiver_address, mac(A1));
    assert_eq!(frame.transmitter_address, None);
    assert_eq!(frame.destination_address, None);
    assert_eq!(frame.source_address, None);
    assert_eq!(frame.bssid, None);
    assert_eq!(input.position(), 10);
}

#[test]
fn cts_has_only_a_receiver() {
    let bytes = header([0xc4, 0x00], [0, 0], &[A1, A2]);
    let mut input = reader(&bytes);
    let frame = BasicFrame::parse(&mut input).unwrap();
    assert_eq!(frame.type_, FrameType::Control(ControlSubtype::CTS));
    assert_eq!(frame.receiver_address, mac(A1));
    assert_eq!(frame.transmitter_address, None);
    assert_eq!(input.position(), 10);
}

#[test]
fn rts_and_block_acks_have_receiver_and_transmitter() {
    for (byte, subtype) in [
        (0xb4, ControlSubtype::RTS),
        (0x94, ControlSubtype::BlockAck),
        (0x84, ControlSubtype::BlockAckRequest),
    ] {
        let bytes = header([byte, 0x00], [0, 0], &[A1, A2]);
        let mut input = reader(&bytes);
        let frame = BasicFrame::parse(&mut input).unwrap();
        assert_eq!(frame.type_, FrameType::Control(subtype));
        assert_eq!(frame.receiver_address, mac(A1));
        assert_eq!(frame.transmitter_address, mac(A2));
        assert_eq!(frame.destination_address, None);
        assert_eq!(frame.source_address, None);
        assert_eq!(frame.bssid, None);
        assert_eq!(input.position(), 16);
    }
}

#[test]
fn cf_end_has_receiver_and_bssid() {
    let bytes = header([0xe4, 0x00], [0, 0], &[A1, A2]);
    let mut input = reader(&bytes);
    let frame = BasicFrame::parse(&mut input).unwrap();
    assert_eq!(frame.type_, FrameType::Control(ControlSubtype::CFEnd));
    assert_eq!(frame.receiver_address, mac(A1));
    assert_eq!(frame.transmitter_address, None);
    assert_eq!(frame.bssid, mac(A2));
    assert_eq!(input.position(), 16);
}

#[test]
fn roles_without_distribution_system() {
    let bytes = header([0x08, 0x00], [0, 0], &[A1, A2, A3]);
    let mut input = reader(&bytes);
    let frame = BasicFrame::parse(&mut input).unwrap();
    assert_eq!(frame.type_, FrameType::Data(DataSubtype::Data));
    assert_eq!(frame.receiver_address, mac(A1));
    assert_eq!(frame.transmitter_address, mac(A2));
    assert_eq!(frame.destination_address, mac(A1));
    assert_eq!(frame.source_address, mac(A2));
    assert_eq!(frame.bssid, mac(A3));
    assert_eq!(input.position(), 22);
}

#[test]
fn roles_from_the_distribution_system() {
    let bytes = header([0x08, 0x02], [0, 0], &[A1, A2, A3]);
    let frame = BasicFrame::parse(&mut reader(&bytes)).unwrap();
    assert_eq!(frame.receiver_address, mac(A1));
    assert_eq!(frame.transmitter_address, mac(A2));
    assert_eq!(frame.destination_address, mac(A1));
    assert_eq!(frame.source_address, mac(A3));
    assert_eq!(frame.bssid, mac(A2));
}

#[test]
fn roles_to_the_distribution_system() {
    let bytes = header([0x08, 0x01], [0, 0], &[A1, A2, A3]);
    let frame = BasicFrame::parse(&mut reader(&bytes)).unwrap();
    assert_eq!(frame.receiver_address, mac(A1));
    assert_eq!(frame.transmitter_address, mac(A2));
    assert_eq!(frame.destination_address, mac(A3));
    assert_eq!(frame.source_address, mac(A2));
    assert_eq!(frame.bssid, mac(A1));
}

#[test]
fn roles_between_distribution_systems() {
    let bytes = header([0x08, 0x03], [0, 0], &[A1, A2, A3, A4]);
    let mut input = reader(&bytes);
    let frame = BasicFrame::parse(&mut input).unwrap();
    assert_eq!(frame.receiver_address, mac(A1));
    assert_eq!(frame.transmitter_address, mac(A2));
    assert_eq!(frame.destination_address, mac(A3));
    assert_eq!(frame.source_address, mac(A4));
    assert_eq!(frame.bssid, None);
    assert_eq!(input.position(), 28);
}

#[test]
fn ps_poll_is_laid_out_like_the_other_frames() {
    let bytes = header([0xa4, 0x00], [0, 0], &[A1, A2, A3]);
    let mut input = reader(&bytes);
    let frame = BasicFrame::parse(&mut input).unwrap();
    assert_eq!(frame.type_, FrameType::Control(ControlSubtype::PSPoll));
    assert_eq!(frame.transmitter_address, mac(A2));
    assert_eq!(frame.bssid, mac(A3));
    assert_eq!(input.position(), 22);
}

#[test]
fn short_headers_are_truncated_and_consume_nothing() {
    let full = header([0x08, 0x03], [0, 0], &[A1, A2, A3, A4]);
    for len in 2..full.len() {
        let mut input = reader(&full[..len]);
        assert_eq!(BasicFrame::parse(&mut input), Err(DecodeError::Truncated));
        assert_eq!(input.position(), 0);
    }
    let ack = header([0xd4, 0x00], [0, 0], &[A1]);
    assert_eq!(
        BasicFrame::parse(&mut reader(&ack[..9])),
        Err(DecodeError::Truncated)
    );
    assert!(BasicFrame::parse(&mut reader(&ack)).is_ok());
}

#[test]
fn header_errors_of_the_frame_control_come_through() {
    let bytes = header([0x0d, 0x00], [0, 0], &[A1, A2, A3]);
    assert_eq!(
        BasicFrame::parse(&mut reader(&bytes)),
        Err(DecodeError::InvalidType)
    );
    let bytes = header([0x09, 0x00], [0, 0], &[A1, A2, A3]);
    assert_eq!(
        BasicFrame::parse(&mut reader(&bytes)),
        Err(DecodeError::InvalidVersion(1))
    );
}

fn basic() -> BasicFrame {
    BasicFrame::parse(&mut reader(&header([0x80, 0x00], [0, 0], &[A1, A2, A3]))).unwrap()
}

#[test]
fn sequence_control_splits_into_fragment_and_sequence() {
    let frame = ManagementFrame::parse(basic(), &mut reader(&[0x60, 0x2d])).unwrap();
    assert_eq!(frame.fragment_number, 0);
    assert_eq!(frame.sequence_number, 0x2d6);
    let frame = ManagementFrame::parse(basic(), &mut reader(&[0xff, 0xff, 0x00])).unwrap();
    assert_eq!(frame.fragment_number, 15);
    assert_eq!(frame.sequence_number, 4095);
    let frame = ManagementFrame::parse(basic(), &mut reader(&[0x1a, 0x00])).unwrap();
    assert_eq!(frame.fragment_number, 10);
    assert_eq!(frame.sequence_number, 1);
    assert_eq!(frame.basic_frame, basic());
}

#[test]
fn sequence_control_needs_two_bytes() {
    let mut input = reader(&[0x60]);
    assert_eq!(
        ManagementFrame::parse(basic(), &mut input),
        Err(DecodeError::Truncated)
    );
    assert_eq!(input.position(), 0);
}

#[test]
fn fixed_parameters_are_little_endian() {
    let bytes = [
        0x3a, 0x80, 0xbe, 0x13, 0x35, 0x00, 0x00, 0x00, 0x64, 0x00, 0x11, 0x05, 0xee,
    ];
    let mut input = reader(&bytes);
    let fixed = FixedParameters::parse(&mut input).unwrap();
    assert_eq!(fixed.timestamp, 0x35_13be_803a);
    assert_eq!(fixed.beacon_interval, 100);
    assert_eq!(fixed.beacon_interval_micros(), 102_400);
    assert_eq!(fixed.capabilities_info, CapabilitiesInfo {});
    assert_eq!(input.position(), 12);
    let seconds = fixed.beacon_interval_micros() as f64 / 1_000_000.0;
    assert!((seconds - 100.0 * 0.001_024).abs() < 1e-12);
}

#[test]
fn fixed_parameters_need_twelve_bytes() {
    let mut input = reader(&[0; 11]);
    assert_eq!(FixedParameters::parse(&mut input), Err(DecodeError::Truncated));
    assert_eq!(input.position(), 0);
}

#[test]
fn capabilities_are_skipped() {
    let mut input = reader(&[0x11, 0x05, 0x00]);
    assert_eq!(CapabilitiesInfo::parse(&mut input), Ok(CapabilitiesInfo {}));
    assert_eq!(input.position(), 2);
    let mut short = reader(&[0x11]);
    assert_eq!(CapabilitiesInfo::parse(&mut short), Err(DecodeError::Truncated));
    assert_eq!(short.position(), 0);
}

#[test]
fn tagged_parameters_run_to_the_end() {
    let bytes = [0x00, 0x04, b't', b'e', b's', b't', 0x03, 0x01, 0x06, 0xdd, 0x00];
    let mut input = reader(&bytes);
    let parameters = TaggedParameters::parse(&mut input).unwrap();
    assert_eq!(
        parameters.tags,
        vec![
            Tag { number: 0, length: 4, data: b"test".to_vec() },
            Tag { number: 3, length: 1, data: vec![6] },
            Tag { number: 0xdd, length: 0, data: vec![] },
        ]
    );
    assert_eq!(input.position(), bytes.len());
    assert_eq!(parameters.ssid(), b"test".to_vec());
    assert_eq!(parameters.channel(), Some(6));
}

#[test]
fn no_tagged_parameters_is_fine() {
    let parameters = TaggedParameters::parse(&mut reader(&[])).unwrap();
    assert!(parameters.tags.is_empty());
    assert_eq!(parameters.ssid(), Vec::<u8>::new());
    assert_eq!(parameters.channel(), None);
}

#[test]
fn a_tag_longer_than_the_buffer_is_an_error() {
    let mut input = reader(&[0x00, 0x05, b't', b'e', b's', b't']);
    assert_eq!(
        TaggedParameters::parse(&mut input),
        Err(DecodeError::InvalidTagLength)
    );
    assert_eq!(input.position(), 0);
    let mut second = reader(&[0x00, 0x01, b'x', 0x03, 0x02, 0x06]);
    assert_eq!(
        TaggedParameters::parse(&mut second),
        Err(DecodeError::InvalidTagLength)
    );
    assert_eq!(second.position(), 0);
}

#[test]
fn a_tag_without_a_length_is_truncated() {
    let mut input = reader(&[0x00, 0x01, b'x', 0x03]);
    assert_eq!(TaggedParameters::parse(&mut input), Err(DecodeError::Truncated));
    assert_eq!(input.position(), 0);
}

#[test]
fn the_first_of_several_names_counts() {
    let bytes = [0x01, 0x01, 0x82, 0x00, 0x01, b'a', 0x00, 0x01, b'b', 0x03, 0x00, 0x03, 0x01, 0x0b];
    let parameters = TaggedParameters::parse(&mut reader(&bytes)).unwrap();
    assert_eq!(parameters.ssid(), vec![b'a']);
    // the first channel tag is empty, so there is no channel
    assert_eq!(parameters.channel(), None);
    assert_eq!(parameters.find(1).unwrap().data, vec![0x82]);
    assert!(parameters.find(7).is_none());
}

fn beacon_bytes() -> Vec<u8> {
    let broadcast = [0xff; 6];
    let mut bytes = header([0x80, 0x00], [0x00, 0x00], &[broadcast, A2, A2]);
    bytes.extend_from_slice(&[0x60, 0x2d]);
    bytes.extend_from_slice(&[0x3a, 0x80, 0xbe, 0x13, 0x35, 0x00, 0x00, 0x00, 0x64, 0x00, 0x11, 0x05]);
    bytes.extend_from_slice(&[0x00, 0x04, b't', b'e', b's', b't', 0x03, 0x01, 0x0b]);
    bytes
}

#[test]
fn decoding_a_beacon_gives_its_name_and_kind() {
    let bytes = beacon_bytes();
    let mut input = reader(&bytes);
    let frame = Frame::parse(&mut input).unwrap();
    assert_eq!(input.position(), bytes.len());
    assert_eq!(
        frame.basic_frame().type_,
        FrameType::Management(ManagementSubtype::Beacon)
    );
    match frame {
        Frame::Beacon(beacon) => {
            assert_eq!(beacon.ssid, b"test".to_vec());
            assert_eq!(beacon.management_frame.sequence_number, 0x2d6);
            assert_eq!(beacon.management_frame.fragment_number, 0);
            assert_eq!(beacon.fixed_parameters.beacon_interval, 100);
            assert_eq!(beacon.tagged_parameters.channel(), Some(11));
            assert_eq!(beacon.tagged_parameters.tags.len(), 2);
            let basic = beacon.management_frame.basic_frame;
            assert_eq!(basic.duration, 0);
            assert_eq!(basic.receiver_address, mac([0xff; 6]));
            assert_eq!(basic.transmitter_address, mac(A2));
            assert_eq!(basic.bssid, mac(A2));
        }
        other => panic!("not a beacon: {:?}", other),
    }
}

#[test]
fn a_beacon_without_a_name_has_the_empty_name() {
    let mut bytes = beacon_bytes();
    bytes.truncate(36);
    bytes.extend_from_slice(&[0x03, 0x01, 0x0b]);
    match Frame::parse(&mut reader(&bytes)).unwrap() {
        Frame::Beacon(beacon) => assert_eq!(beacon.ssid, Vec::<u8>::new()),
        other => panic!("not a beacon: {:?}", other),
    }
}

#[test]
fn a_broken_beacon_is_an_error_and_consumes_nothing() {
    let bytes = beacon_bytes();
    for len in 0..bytes.len() {
        if len == 36 || len == 42 {
            // the fixed parameters are complete, and so are the tags read so far
            continue;
        }
        let mut input = reader(&bytes[..len]);
        let result = Frame::parse(&mut input);
        assert!(result.is_err(), "length {}", len);
        assert_eq!(input.position(), 0);
    }
    let mut input = reader(&bytes[..41]);
    assert_eq!(Frame::parse(&mut input), Err(DecodeError::InvalidTagLength));
    let mut input = reader(&bytes[..37]);
    assert_eq!(Frame::parse(&mut input), Err(DecodeError::Truncated));
    let mut input = reader(&bytes[..30]);
    assert_eq!(Frame::parse(&mut input), Err(DecodeError::Truncated));
}

#[test]
fn probe_request_has_tags_only() {
    let mut bytes = header([0x40, 0x00], [0, 0], &[[0xff; 6], A2, [0xff; 6]]);
    bytes.extend_from_slice(&[0x10, 0x00]);
    bytes.extend_from_slice(&[0x00, 0x03, b'n', b'e', b't']);
    match Frame::parse(&mut reader(&bytes)).unwrap() {
        Frame::ProbeRequest(request) => {
            assert_eq!(request.ssid, b"net".to_vec());
            assert_eq!(request.management_frame.sequence_number, 1);
        }
        other => panic!("not a probe request: {:?}", other),
    }
}

#[test]
fn probe_response_is_decoded_like_a_beacon() {
    let mut bytes = header([0x50, 0x08], [0x3a, 0x01], &[A1, A2, A2]);
    bytes.extend_from_slice(&[0x20, 0x00]);
    bytes.extend_from_slice(&[0; 8]);
    bytes.extend_from_slice(&[0xc8, 0x00, 0x01, 0x00]);
    bytes.extend_from_slice(&[0x00, 0x02, b'a', b'p']);
    match Frame::parse(&mut reader(&bytes)).unwrap() {
        Frame::ProbeResponse(response) => {
            assert_eq!(response.ssid, b"ap".to_vec());
            assert_eq!(response.fixed_parameters.beacon_interval, 200);
            assert_eq!(response.management_frame.basic_frame.duration, 0x013a);
            assert_eq!(response.tagged_parameters.channel(), None);
        }
        other => panic!("not a probe response: {:?}", other),
    }
}

#[test]
fn other_management_frames_stop_at_the_sequence_control() {
    let mut bytes = header([0xb0, 0x00], [0, 0], &[A1, A2, A3]);
    bytes.extend_from_slice(&[0x30, 0x01, 0xde, 0xad]);
    let mut input = reader(&bytes);
    match Frame::parse(&mut input).unwrap() {
        Frame::Management(frame) => {
            assert_eq!(
                frame.basic_frame.type_,
                FrameType::Management(ManagementSubtype::Authentication)
            );
            assert_eq!(frame.sequence_number, 0x13);
        }
        other => panic!("not a management frame: {:?}", other),
    }
    assert_eq!(input.position(), 24);
}

#[test]
fn control_and_data_frames_stop_at_the_header() {
    let mut bytes = header([0x88, 0x02], [0, 0], &[A1, A2, A3]);
    bytes.extend_from_slice(&[1, 2, 3, 4, 5]);
    let mut input = reader(&bytes);
    match Frame::parse(&mut input).unwrap() {
        Frame::Basic(frame) => {
            assert_eq!(frame.type_, FrameType::Data(DataSubtype::QoSData));
        }
        other => panic!("not a basic frame: {:?}", other),
    }
    assert_eq!(input.position(), 22);
}

#[test]
fn beacon_body_parses_on_its_own() {
    let management_frame = ManagementFrame::parse(basic(), &mut reader(&[0, 0])).unwrap();
    let mut body = vec![0u8; 12];
    body.extend_from_slice(&[0x00, 0x01, b'z']);
    let beacon = BeaconFrame::parse(management_frame, &mut reader(&body)).unwrap();
    assert_eq!(beacon.ssid, vec![b'z']);
    let request =
        ProbeRequestFrame::parse(management_frame, &mut reader(&[0x00, 0x01, b'q'])).unwrap();
    assert_eq!(request.ssid, vec![b'q']);
    assert_eq!(
        BeaconFrame::parse(management_frame, &mut reader(&[0; 5])),
        Err(DecodeError::Truncated)
    );
}

#[test]
fn beacon_info_is_the_body_of_a_beacon() {
    let bytes = beacon_bytes();
    let info = BeaconInfo::parse(&bytes[24..]).unwrap();
    assert_eq!(info.fixed_parameters.beacon_interval, 100);
    assert_eq!(info.fixed_parameters.timestamp, 0x35_13be_803a);
    assert_eq!(info.tagged_parameters.ssid(), b"test".to_vec());
    assert_eq!(info.tagged_parameters.channel(), Some(11));
    assert_eq!(BeaconInfo::parse(&bytes[24..35]), Err(DecodeError::Truncated));
    assert_eq!(
        BeaconInfo::parse(&bytes[24..39]),
        Err(DecodeError::InvalidTagLength)
    );
    let empty = BeaconInfo::parse(&bytes[24..36]).unwrap();
    assert!(empty.tagged_parameters.tags.is_empty());
}
