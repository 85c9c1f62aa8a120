use wifi_visualizer::error::DecodeError;
use wifi_visualizer::ieee802_11::frame_control::{
    ControlSubtype, DataSubtype, Flags, FrameControl, FrameType, ManagementSubtype, Version,
};
use wifi_visualizer::reader::Reader;

fn reader(bytes: &[u8]) -> Reader {
    Reader::new(bytes.to_vec())
}

#[test]
fn version_zero_is_the_standard_version() {
    assert_eq!(Version::parse(0), Ok(Version::Standard));
}

#[test]
fn other_versions_are_refused() {
    assert_eq!(Version::parse(1), Err(DecodeError::InvalidVersion(1)));
    assert_eq!(Version::parse(3), Err(DecodeError::InvalidVersion(3)));
    assert_eq!(Version::parse(255), Err(DecodeError::InvalidVersion(255)));
}

#[test]
fn management_subtypes_follow_their_numbers() {
    let table = [
        (0, ManagementSubtype::AssociationRequest),
        (1, ManagementSubtype::AssociationResponse),
        (2, ManagementSubtype::ReassociationRequest),
        (3, ManagementSubtype::ReassociationResponse),
        (4, ManagementSubtype::ProbeRequest),
        (5, ManagementSubtype::ProbeResponse),
        (8, ManagementSubtype::Beacon),
        (9, ManagementSubtype::ATIM),
        (10, ManagementSubtype::Disassociation),
        (11, ManagementSubtype::Authentication),
        (12, ManagementSubtype::Deauthentication),
        (13, ManagementSubtype::Action),
    ];
    for (number, subtype) in table {
        assert_eq!(ManagementSubtype::parse(number), Ok(subtype));
        assert_eq!(subtype.number(), number);
    }
}

#[test]
fn reserved_management_subtypes_are_refused() {
    for number in [6u8, 7, 14, 15, 16, 200] {
        assert_eq!(
            ManagementSubtype::parse(number),
            Err(DecodeError::InvalidSubtype(0, number))
        );
    }
}

#[test]
fn control_subtypes_follow_their_numbers() {
    let table = [
        (8, ControlSubtype::BlockAckRequest),
        (9, ControlSubtype::BlockAck),
        (10, ControlSubtype::PSPoll),
        (11, ControlSubtype::RTS),
        (12, ControlSubtype::CTS),
        (13, ControlSubtype::ACK),
        (14, ControlSubtype::CFEnd),
        (15, ControlSubtype::CFEndCFACK),
    ];
    for (number, subtype) in table {
        assert_eq!(ControlSubtype::parse(number), Ok(subtype));
        assert_eq!(subtype.number(), number);
    }
    for number in 0u8..8 {
        assert_eq!(
            ControlSubtype::parse(number),
            Err(DecodeError::InvalidSubtype(1, number))
        );
    }
}

#[test]
fn data_subtypes_follow_their_numbers() {
    let table = [
        (0, DataSubtype::Data),
        (1, DataSubtype::DataCFAck),
        (2, DataSubtype::DataCFPoll),
        (3, DataSubtype::DataCFAckCFPoll),
        (4, DataSubtype::Null),
        (5, DataSubtype::CFAck),
        (6, DataSubtype::CFPoll),
        (7, DataSubtype::CFAckCFPoll),
        (8, DataSubtype::QoSData),
        (9, DataSubtype::QoSDataCFAck),
        (10, DataSubtype::QoSDataCFPoll),
        (11, DataSubtype::QoSDataCFAckCFPoll),
        (12, DataSubtype::QoSNull),
        (14, DataSubtype::QoSCFPoll),
        (15, DataSubtype::QoSCFAck),
    ];
    for (number, subtype) in table {
        assert_eq!(DataSubtype::parse(number), Ok(subtype));
        assert_eq!(subtype.number(), number);
    }
    assert_eq!(DataSubtype::parse(13), Err(DecodeError::InvalidSubtype(2, 13)));
}

#[test]
fn frame_type_is_chosen_by_the_type_number() {
    assert_eq!(
        FrameType::parse(0, 8),
        Ok(FrameType::Management(ManagementSubtype::Beacon))
    );
    assert_eq!(FrameType::parse(1, 13), Ok(FrameType::Control(ControlSubtype::ACK)));
    assert_eq!(FrameType::parse(2, 8), Ok(FrameType::Data(DataSubtype::QoSData)));
    assert_eq!(FrameType::parse(3, 0), Err(DecodeError::InvalidType));
    assert_eq!(FrameType::parse(1, 0), Err(DecodeError::InvalidSubtype(1, 0)));
}

#[test]
fn each_flag_has_its_bit() {
    let none = Flags::from_byte(0);
    assert!(
        !none.to_ds
            && !none.from_ds
            && !none.more_fragments
            && !none.retry
            && !none.pwr_mgt
            && !none.more_data
            && !none.protected
            && !none.order
    );
    assert!(Flags::from_byte(0x01).to_ds);
    assert!(Flags::from_byte(0x02).from_ds);
    assert!(Flags::from_byte(0x04).more_fragments);
    assert!(Flags::from_byte(0x08).retry);
    assert!(Flags::from_byte(0x10).pwr_mgt);
    assert!(Flags::from_byte(0x20).more_data);
    assert!(Flags::from_byte(0x40).protected);
    assert!(Flags::from_byte(0x80).order);
    let one = Flags::from_byte(0x08);
    assert!(!one.to_ds && !one.from_ds && !one.more_fragments && !one.pwr_mgt);
    let all = Flags::from_byte(0xff);
    assert!(all.to_ds && all.from_ds && all.more_fragments && all.retry);
    assert!(all.pwr_mgt && all.more_data && all.protected && all.order);
}

#[test]
fn flags_parse_consumes_one_byte() {
    let mut bytes = reader(&[0x42, 0x01]);
    let flags = Flags::parse(&mut bytes).unwrap();
    assert!(flags.from_ds && flags.protected && !flags.to_ds);
    assert_eq!(bytes.position(), 1);
    assert_eq!(bytes.remaining_len(), 1);
}

#[test]
fn flags_parse_reports_an_empty_buffer() {
    let mut bytes = reader(&[]);
    assert_eq!(Flags::parse(&mut bytes), Err(DecodeError::Truncated));
    assert_eq!(bytes.position(), 0);
}

#[test]
fn frame_control_of_a_beacon() {
    let mut bytes = reader(&[0x80, 0x00, 0xaa]);
    let frame_control = FrameControl::parse(&mut bytes).unwrap();
    assert_eq!(frame_control.version, Version::Standard);
    assert_eq!(
        frame_control.type_,
        FrameType::Management(ManagementSubtype::Beacon)
    );
    assert_eq!(frame_control.flags, Flags::from_byte(0));
    assert_eq!(bytes.position(), 2);
}

#[test]
fn frame_control_of_a_retried_probe_response() {
    let mut bytes = reader(&[0x50, 0x08]);
    let frame_control = FrameControl::parse(&mut bytes).unwrap();
    assert_eq!(
        frame_control.type_,
        FrameType::Management(ManagementSubtype::ProbeResponse)
    );
    assert!(frame_control.flags.retry);
}

#[test]
fn frame_control_of_data_from_the_distribution_system() {
    let mut bytes = reader(&[0x08, 0x02]);
    let frame_control = FrameControl::parse(&mut bytes).unwrap();
    assert_eq!(frame_control.type_, FrameType::Data(DataSubtype::Data));
    assert!(frame_control.flags.from_ds && !frame_control.flags.to_ds);
}

#[test]
fn frame_control_errors_consume_nothing() {
    let mut short = reader(&[0x80]);
    assert_eq!(FrameControl::parse(&mut short), Err(DecodeError::Truncated));
    assert_eq!(short.position(), 0);

    let mut version = reader(&[0x81, 0x00]);
    assert_eq!(
        FrameControl::parse(&mut version),
        Err(DecodeError::InvalidVersion(1))
    );
    assert_eq!(version.position(), 0);

    let mut type_ = reader(&[0x0c, 0x00]);
    assert_eq!(FrameControl::parse(&mut type_), Err(DecodeError::InvalidType));

    let mut subtype = reader(&[0x60, 0x00]);
    assert_eq!(
        FrameControl::parse(&mut subtype),
        Err(DecodeError::InvalidSubtype(0, 6))
    );
    assert_eq!(subtype.position(), 0);

    // a reserved subtype is reported before a wrong version
    let mut both = reader(&[0x61, 0x00]);
    assert_eq!(
        FrameControl::parse(&mut both),
        Err(DecodeError::InvalidSubtype(0, 6))
    );
}

#[test]
fn error_messages_name_the_fault() {
    assert_eq!(DecodeError::InvalidType.message(), "invalid type");
    assert_eq!(DecodeError::InvalidVersion(2).message(), "invalid Version");
    assert_eq!(
        DecodeError::InvalidSubtype(0, 6).message(),
        "invalid Management Subtype"
    );
    assert_eq!(
        DecodeError::InvalidSubtype(1, 0).message(),
        "invalid Control Subtype"
    );
    assert_eq!(
        DecodeError::InvalidSubtype(2, 13).message(),
        "invalid Data Subtype"
    );
    assert_eq!(DecodeError::Truncated.message(), "unexpected end of frame");
    assert_eq!(DecodeError::InvalidTagLength.message(), "invalid tag length");
}
