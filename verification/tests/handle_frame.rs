use wifi_visualizer::events::store::Store;
use wifi_visualizer::events::{
    classify, handle_frame, handle_frame_at, handle_packet, handle_packet_at, AccessPointInfo,
    ConnectionType, Event,
};
use wifi_visualizer::ieee802_11::frame_control::{
    ControlSubtype, DataSubtype, FrameType, ManagementSubtype,
};
use wifi_visualizer::ieee802_11::util::MacAddress;
use wifi_visualizer::ieee802_11::Frame;
use wifi_visualizer::packet_capture::{FrameWithRadiotap, RadiotapInfo};
use wifi_visualizer::reader::Reader;

const AP: [u8; 6] = [0xb0, 0xee, 0x7b, 0x98, 0x3a, 0x79];
const STA: [u8; 6] = [0x00, 0x11, 0x22, 0x33, 0x44, 0x55];
const HOST: [u8; 6] = [0x00, 0xaa, 0xbb, 0xcc, 0xdd, 0xee];
const BROADCAST: [u8; 6] = [0xff; 6];

fn ap() -> MacAddress {
    MacAddress::new(AP)
}

fn sta() -> MacAddress {
    MacAddress::new(STA)
}

fn header(frame_control: [u8; 2], addresses: &[[u8; 6]]) -> Vec<u8> {
    let mut bytes = vec![frame_control[0], frame_control[1], 0x00, 0x00];
    for address in addresses {
        bytes.extend_from_slice(address);
    }
    bytes
}

fn beacon() -> Vec<u8> {
    let mut bytes = header([0x80, 0x00], &[BROADCAST, AP, AP]);
    bytes.extend_from_slice(&[0x10, 0x00]);
    bytes.extend_from_slice(&[0, 0, 0, 0, 0, 0, 0, 0, 0x64, 0x00, 0x11, 0x05]);
    bytes.extend_from_slice(&[0x00, 0x04, b't', b'e', b's', b't', 0x03, 0x01, 0x06]);
    bytes
}

fn probe_response_retry() -> Vec<u8> {
    let mut bytes = header([0x50, 0x08], &[STA, AP, AP]);
    bytes.extend_from_slice(&[0x20, 0x00]);
    bytes.extend_from_slice(&[0, 0, 0, 0, 0, 0, 0, 0, 0x64, 0x00, 0x11, 0x05]);
    bytes.extend_from_slice(&[0x00, 0x04, b't', b'e', b's', b't', 0x03, 0x01, 0x06]);
    bytes
}

fn data_from_ds() -> Vec<u8> {
    let mut bytes = header([0x08, 0x02], &[STA, AP, HOST]);
    bytes.extend_from_slice(&[0x30, 0x00, 0xde, 0xad, 0xbe, 0xef]);
    bytes
}

fn probe_request(ssid: &[u8]) -> Vec<u8> {
    let mut bytes = header([0x40, 0x00], &[BROADCAST, STA, BROADCAST]);
    bytes.extend_from_slice(&[0x40, 0x00, 0x00, ssid.len() as u8]);
    bytes.extend_from_slice(ssid);
    bytes
}

fn packet(bytes: &[u8], signal: Option<i8>) -> FrameWithRadiotap {
    let frame = Frame::parse(&mut Reader::new(bytes.to_vec())).unwrap();
    FrameWithRadiotap {
        id: 0,
        frame,
        radiotap: signal.map(|value| RadiotapInfo {
            length: 8,
            fcs: None,
            antenna_signal: Some(value),
        }),
    }
}

fn test_network() -> AccessPointInfo {
    AccessPointInfo { ssid: b"test".to_vec(), channel: Some(6) }
}

#[test]
fn frame_types_are_classified_as_evidence() {
    for subtype in [
        DataSubtype::Data,
        DataSubtype::Null,
        DataSubtype::QoSData,
        DataSubtype::QoSCFAck,
    ] {
        assert_eq!(classify(&FrameType::Data(subtype)), ConnectionType::Associated);
    }
    for subtype in [
        ManagementSubtype::Authentication,
        ManagementSubtype::AssociationRequest,
        ManagementSubtype::AssociationResponse,
        ManagementSubtype::ReassociationRequest,
        ManagementSubtype::ReassociationResponse,
    ] {
        assert_eq!(
            classify(&FrameType::Management(subtype)),
            ConnectionType::Authentication
        );
    }
    for subtype in [
        ManagementSubtype::Disassociation,
        ManagementSubtype::Deauthentication,
    ] {
        assert_eq!(
            classify(&FrameType::Management(subtype)),
            ConnectionType::Disassociated
        );
    }
    for subtype in [
        ManagementSubtype::Beacon,
        ManagementSubtype::ProbeRequest,
        ManagementSubtype::ProbeResponse,
        ManagementSubtype::ATIM,
        ManagementSubtype::Action,
    ] {
        assert_eq!(
            classify(&FrameType::Management(subtype)),
            ConnectionType::InRange
        );
    }
    assert_eq!(
        classify(&FrameType::Control(ControlSubtype::RTS)),
        ConnectionType::InRange
    );
}

#[test]
fn a_beacon_introduces_its_access_point() {
    let mut store = Store::new();
    let events = handle_frame_at(&mut store, &packet(&beacon(), None), 0);
    assert_eq!(
        events,
        vec![
            Event::NewAddress(ap()),
            Event::AccessPoint(ap(), test_network()),
            Event::BeaconQuality(ap(), 1, 1),
            Event::Rate(ap(), 1),
        ]
    );
    assert_eq!(store.pending(), 0);
    assert!(store.is_known(ap()));
    assert!(!store.is_known(MacAddress::new(BROADCAST)));
    assert_eq!(store.connection(ap(), MacAddress::new(BROADCAST)), None);
}

#[test]
fn beacon_probe_response_and_data_build_the_topology() {
    let mut store = Store::new();
    let mut all = Vec::new();
    all.extend(handle_frame_at(&mut store, &packet(&beacon(), None), 0));
    let second = handle_frame_at(&mut store, &packet(&probe_response_retry(), None), 1_000);
    assert_eq!(
        second,
        vec![
            Event::NewAddress(sta()),
            Event::Connection(ap(), sta(), ConnectionType::InRange),
        ]
    );
    all.extend(second);
    let third = handle_frame_at(&mut store, &packet(&data_from_ds(), None), 2_000);
    assert_eq!(
        third,
        vec![Event::Connection(ap(), sta(), ConnectionType::Associated)]
    );
    all.extend(third);

    let introduced: Vec<&Event> = all
        .iter()
        .filter(|event| matches!(event, Event::NewAddress(_)))
        .collect();
    assert_eq!(
        introduced,
        vec![&Event::NewAddress(ap()), &Event::NewAddress(sta())]
    );
    let networks: Vec<&Event> = all
        .iter()
        .filter(|event| matches!(event, Event::AccessPoint(_, _)))
        .collect();
    assert_eq!(networks, vec![&Event::AccessPoint(ap(), test_network())]);
    assert_eq!(
        all.last(),
        Some(&Event::Connection(ap(), sta(), ConnectionType::Associated))
    );
    assert_eq!(store.frame_count(ap()), 3);
    assert_eq!(store.frame_count(sta()), 0);
}

#[test]
fn the_same_frames_by_the_clock() {
    let mut store = Store::new();
    let mut all = Vec::new();
    all.extend(handle_frame(&mut store, &packet(&beacon(), None)));
    all.extend(handle_frame(&mut store, &packet(&probe_response_retry(), None)));
    all.extend(handle_frame(&mut store, &packet(&data_from_ds(), None)));
    let expected = [
        Event::NewAddress(ap()),
        Event::AccessPoint(ap(), test_network()),
        Event::NewAddress(sta()),
        Event::Connection(ap(), sta(), ConnectionType::Associated),
    ];
    let mut next = 0;
    for event in &all {
        if next < expected.len() && *event == expected[next] {
            next += 1;
        }
    }
    assert_eq!(next, expected.len());
    let introduced = all
        .iter()
        .filter(|event| matches!(event, Event::NewAddress(_)))
        .count();
    assert_eq!(introduced, 2);
}

#[test]
fn a_probe_request_is_recorded_unless_its_name_is_empty() {
    let mut store = Store::new();
    let events = handle_frame_at(&mut store, &packet(&probe_request(b"home"), None), 0);
    assert_eq!(
        events,
        vec![
            Event::NewAddress(sta()),
            Event::ProbeRequest(sta(), b"home".to_vec()),
            Event::Rate(sta(), 1),
        ]
    );
    let events = handle_frame_at(&mut store, &packet(&probe_request(b"home"), None), 10);
    assert!(events.is_empty());
    let events = handle_frame_at(&mut store, &packet(&probe_request(b""), None), 20);
    assert!(events.is_empty());
    assert!(!store.has_probed(sta(), &Vec::new()));
}

#[test]
fn a_signal_is_recorded_when_the_capture_has_one() {
    let mut store = Store::new();
    let events = handle_frame_at(&mut store, &packet(&data_from_ds(), Some(-61)), 0);
    assert_eq!(
        events,
        vec![
            Event::NewAddress(sta()),
            Event::NewAddress(ap()),
            Event::Connection(ap(), sta(), ConnectionType::Associated),
            Event::Rate(ap(), 1),
            Event::Signal(ap(), -61),
        ]
    );
    let events = handle_frame_at(&mut store, &packet(&data_from_ds(), Some(-70)), 1_000_000);
    assert_eq!(
        events,
        vec![Event::Rate(ap(), 2), Event::Signal(ap(), -70)]
    );
}

#[test]
fn a_frame_without_a_transmitter_registers_its_receiver_and_checks_the_timers() {
    let mut store = Store::new();
    store.update_rate_at(ap(), 0);
    store.flush_buffer();
    let ack = header([0xd4, 0x00], &[STA]);
    let events = handle_frame_at(&mut store, &packet(&ack, Some(-30)), 1_000_000);
    assert_eq!(
        events,
        vec![Event::NewAddress(sta()), Event::Rate(ap(), 1)]
    );
    assert_eq!(store.frame_count(sta()), 0);
}

#[test]
fn authentication_frames_record_an_authentication() {
    let mut store = Store::new();
    let mut bytes = header([0xb0, 0x00], &[AP, STA, AP]);
    bytes.extend_from_slice(&[0x00, 0x00]);
    let events = handle_frame_at(&mut store, &packet(&bytes, None), 0);
    assert_eq!(
        events,
        vec![
            Event::NewAddress(ap()),
            Event::NewAddress(sta()),
            Event::Connection(sta(), ap(), ConnectionType::Authentication),
            Event::Rate(sta(), 1),
        ]
    );
    let events = handle_frame_at(&mut store, &packet(&data_from_ds(), None), 10);
    assert_eq!(events, vec![Event::Rate(ap(), 1)]);
    assert_eq!(
        store.connection(ap(), sta()),
        Some(ConnectionType::Authentication)
    );
    let mut bytes = header([0xc0, 0x00], &[STA, AP, AP]);
    bytes.extend_from_slice(&[0x00, 0x00]);
    let events = handle_frame_at(&mut store, &packet(&bytes, None), 20);
    assert_eq!(
        events,
        vec![Event::Connection(ap(), sta(), ConnectionType::Disassociated)]
    );
}

#[test]
fn a_packet_that_does_not_decode_gives_one_error_event() {
    let mut store = Store::new();
    store.add_address_at(sta(), 0);
    let events = handle_packet_at(&mut store, 1, &[0x0c, 0x00, 0x00], false, 5);
    assert_eq!(events, vec![Event::Error("invalid type".to_string())]);
    // nothing was changed, and what was waiting still waits
    assert_eq!(store.pending(), 1);
    assert_eq!(store.last_seen(sta()), Some(0));
    let events = handle_packet_at(&mut store, 2, &beacon()[..30], false, 6);
    assert_eq!(
        events,
        vec![Event::Error("unexpected end of frame".to_string())]
    );
    let events = handle_packet(&mut store, 3, &[0x81, 0x00], false);
    assert_eq!(events, vec![Event::Error("invalid Version".to_string())]);
    let events = handle_packet(&mut store, 4, &[0x00, 0x00, 0x08, 0x00, 0, 0, 0, 0x40], true);
    assert_eq!(
        events,
        vec![Event::Error("unsupported radiotap header".to_string())]
    );
}

#[test]
fn a_packet_that_decodes_is_handled_as_its_frame() {
    let mut store = Store::new();
    let events = handle_packet_at(&mut store, 1, &beacon(), false, 0);
    assert_eq!(
        events,
        vec![
            Event::NewAddress(ap()),
            Event::AccessPoint(ap(), test_network()),
            Event::BeaconQuality(ap(), 1, 1),
            Event::Rate(ap(), 1),
        ]
    );
    let mut with_header = vec![0x00, 0x00, 0x09, 0x00, 0x20, 0x00, 0x00, 0x00, 0xc4];
    with_header.extend_from_slice(&data_from_ds());
    let events = handle_packet_at(&mut store, 2, &with_header, true, 10);
    assert_eq!(
        events,
        vec![
            Event::NewAddress(sta()),
            Event::Connection(ap(), sta(), ConnectionType::Associated),
            Event::Signal(ap(), -60),
        ]
    );
}
