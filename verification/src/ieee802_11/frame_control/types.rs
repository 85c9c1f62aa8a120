//! The type of a frame and, within the type, its subtype.

use crate::error::DecodeError;
use vstd::prelude::*;

verus! {

/// The subtypes of management frames.
#[derive(Clone, Copy, Debug, PartialEq, Eq, Structural)]
pub enum ManagementSubtype {
    /// A station asks to join a network.
    AssociationRequest,
    /// The access point's answer to an association request.
    AssociationResponse,
    /// A station asks to move to another access point of its network.
    ReassociationRequest,
    /// The access point's answer to a reassociation request.
    ReassociationResponse,
    /// A station asks which networks are in range.
    ProbeRequest,
    /// An access point's answer to a probe request.
    ProbeResponse,
    /// An access point announces its network.
    Beacon,
    /// Announcement traffic indication message.
    ATIM,
    /// One side ends an association.
    Disassociation,
    /// A step of the authentication exchange.
    Authentication,
    /// One side ends an authentication.
    Deauthentication,
    /// A request for an action of the receiver.
    Action,
}

impl ManagementSubtype {
    /// The number that stands for the subtype in the frame-control field.
    pub open spec fn spec_number(&self) -> u8 {
        match *self {
            ManagementSubtype::AssociationRequest => 0,
            ManagementSubtype::AssociationResponse => 1,
            ManagementSubtype::ReassociationRequest => 2,
            ManagementSubtype::ReassociationResponse => 3,
            ManagementSubtype::ProbeRequest => 4,
            ManagementSubtype::ProbeResponse => 5,
            ManagementSubtype::Beacon => 8,
            ManagementSubtype::ATIM => 9,
            ManagementSubtype::Disassociation => 10,
            ManagementSubtype::Authentication => 11,
            ManagementSubtype::Deauthentication => 12,
            ManagementSubtype::Action => 13,
        }
    }

    /// The subtype that the number `n` stands for. The numbers 6, 7, 14 and 15 are
    /// reserved.
    pub open spec fn spec_parse(n: u8) -> Result<ManagementSubtype, DecodeError> {
        match n {
            0 => Ok(ManagementSubtype::AssociationRequest),
            1 => Ok(ManagementSubtype::AssociationResponse),
            2 => Ok(ManagementSubtype::ReassociationRequest),
            3 => Ok(ManagementSubtype::ReassociationResponse),
            4 => Ok(ManagementSubtype::ProbeRequest),
            5 => Ok(ManagementSubtype::ProbeResponse),
            8 => Ok(ManagementSubtype::Beacon),
            9 => Ok(ManagementSubtype::ATIM),
            10 => Ok(ManagementSubtype::Disassociation),
            11 => Ok(ManagementSubtype::Authentication),
            12 => Ok(ManagementSubtype::Deauthentication),
            13 => Ok(ManagementSubtype::Action),
            _ => Err(DecodeError::InvalidSubtype(0, n)),
        }
    }

    /// Decodes a subtype number: the result is the subtype whose number is
    /// `n`, and an error where there is none.
    pub fn parse(n: u8) -> (r: Result<ManagementSubtype, DecodeError>)
        ensures
            r == Self::spec_parse(n),
            r matches Ok(subtype) ==> subtype.spec_number() == n,
    {
        Ok(
            match n {
                0 => ManagementSubtype::AssociationRequest,
                1 => ManagementSubtype::AssociationResponse,
                2 => ManagementSubtype::ReassociationRequest,
                3 => ManagementSubtype::ReassociationResponse,
                4 => ManagementSubtype::ProbeRequest,
                5 => ManagementSubtype::ProbeResponse,
                8 => ManagementSubtype::Beacon,
                9 => ManagementSubtype::ATIM,
                10 => ManagementSubtype::Disassociation,
                11 => ManagementSubtype::Authentication,
                12 => ManagementSubtype::Deauthentication,
                13 => ManagementSubtype::Action,
                _ => {
                    return Err(DecodeError::InvalidSubtype(0, n));
                },
            },
        )
    }

    /// The number that stands for the subtype in the frame-control field.
    pub fn number(&self) -> (n: u8)
        ensures
            n == self.spec_number(),
            Self::spec_parse(n) == Ok::<ManagementSubtype, DecodeError>(*self),
    {
        match *self {
            ManagementSubtype::AssociationRequest => 0,
            ManagementSubtype::AssociationResponse => 1,
            ManagementSubtype::ReassociationRequest => 2,
            ManagementSubtype::ReassociationResponse => 3,
            ManagementSubtype::ProbeRequest => 4,
            ManagementSubtype::ProbeResponse => 5,
            ManagementSubtype::Beacon => 8,
            ManagementSubtype::ATIM => 9,
            ManagementSubtype::Disassociation => 10,
            ManagementSubtype::Authentication => 11,
            ManagementSubtype::Deauthentication => 12,
            ManagementSubtype::Action => 13,
        }
    }
}

/// The subtypes of control frames.
#[derive(Clone, Copy, Debug, PartialEq, Eq, Structural)]
pub enum ControlSubtype {
    /// Asks for a block acknowledgement.
    BlockAckRequest,
    /// Acknowledges a block of frames.
    BlockAck,
    /// A station in power-save mode asks for its buffered frames.
    PSPoll,
    /// Request to send.
    RTS,
    /// Clear to send.
    CTS,
    /// Acknowledges one frame.
    ACK,
    /// Ends a contention-free period.
    CFEnd,
    /// Ends a contention-free period and acknowledges a frame.
    CFEndCFACK,
}

impl ControlSubtype {
    /// The number that stands for the subtype in the frame-control field.
    pub open spec fn spec_number(&self) -> u8 {
        match *self {
            ControlSubtype::BlockAckRequest => 8,
            ControlSubtype::BlockAck => 9,
            ControlSubtype::PSPoll => 10,
            ControlSubtype::RTS => 11,
            ControlSubtype::CTS => 12,
            ControlSubtype::ACK => 13,
            ControlSubtype::CFEnd => 14,
            ControlSubtype::CFEndCFACK => 15,
        }
    }

    /// The subtype that the number `n` stands for. The numbers 0 to 7 are reserved.
    pub open spec fn spec_parse(n: u8) -> Result<ControlSubtype, DecodeError> {
        match n {
            8 => Ok(ControlSubtype::BlockAckRequest),
            9 => Ok(ControlSubtype::BlockAck),
            10 => Ok(ControlSubtype::PSPoll),
            11 => Ok(ControlSubtype::RTS),
            12 => Ok(ControlSubtype::CTS),
            13 => Ok(ControlSubtype::ACK),
            14 => Ok(ControlSubtype::CFEnd),
            15 => Ok(ControlSubtype::CFEndCFACK),
            _ => Err(DecodeError::InvalidSubtype(1, n)),
        }
    }

    /// Decodes a subtype number: the result is the subtype whose number is
    /// `n`, and an error where there is none.
    pub fn parse(n: u8) -> (r: Result<ControlSubtype, DecodeError>)
        ensures
            r == Self::spec_parse(n),
            r matches Ok(subtype) ==> subtype.spec_number() == n,
    {
        Ok(
            match n {
                8 => ControlSubtype::BlockAckRequest,
                9 => ControlSubtype::BlockAck,
                10 => ControlSubtype::PSPoll,
                11 => ControlSubtype::RTS,
                12 => ControlSubtype::CTS,
                13 => ControlSubtype::ACK,
                14 => ControlSubtype::CFEnd,
                15 => ControlSubtype::CFEndCFACK,
                _ => {
                    return Err(DecodeError::InvalidSubtype(1, n));
                },
            },
        )
    }

    /// The number that stands for the subtype in the frame-control field.
    pub fn number(&self) -> (n: u8)
        ensures
            n == self.spec_number(),
            Self::spec_parse(n) == Ok::<ControlSubtype, DecodeError>(*self),
    {
        match *self {
            ControlSubtype::BlockAckRequest => 8,
            ControlSubtype::BlockAck => 9,
            ControlSubtype::PSPoll => 10,
            ControlSubtype::RTS => 11,
            ControlSubtype::CTS => 12,
            ControlSubtype::ACK => 13,
            ControlSubtype::CFEnd => 14,
            ControlSubtype::CFEndCFACK => 15,
        }
    }
}

/// The subtypes of data frames.
#[derive(Clone, Copy, Debug, PartialEq, Eq, Structural)]
pub enum DataSubtype {
    /// Plain data.
    Data,
    /// Data with a contention-free acknowledgement.
    DataCFAck,
    /// Data with a contention-free poll.
    DataCFPoll,
    /// Data with a contention-free acknowledgement and poll.
    DataCFAckCFPoll,
    /// No data.
    Null,
    /// A contention-free acknowledgement without data.
    CFAck,
    /// A contention-free poll without data.
    CFPoll,
    /// A contention-free acknowledgement and poll without data.
    CFAckCFPoll,
    /// Data with a quality-of-service field.
    QoSData,
    /// Quality-of-service data with a contention-free acknowledgement.
    QoSDataCFAck,
    /// Quality-of-service data with a contention-free poll.
    QoSDataCFPoll,
    /// Quality-of-service data with a contention-free acknowledgement and poll.
    QoSDataCFAckCFPoll,
    /// A quality-of-service frame without data.
    QoSNull,
    /// A quality-of-service contention-free poll without data.
    QoSCFPoll,
    /// A quality-of-service contention-free acknowledgement without data.
    QoSCFAck,
}

impl DataSubtype {
    /// The number that stands for the subtype in the frame-control field.
    pub open spec fn spec_number(&self) -> u8 {
        match *self {
            DataSubtype::Data => 0,
            DataSubtype::DataCFAck => 1,
            DataSubtype::DataCFPoll => 2,
            DataSubtype::DataCFAckCFPoll => 3,
            DataSubtype::Null => 4,
            DataSubtype::CFAck => 5,
            DataSubtype::CFPoll => 6,
            DataSubtype::CFAckCFPoll => 7,
            DataSubtype::QoSData => 8,
            DataSubtype::QoSDataCFAck => 9,
            DataSubtype::QoSDataCFPoll => 10,
            DataSubtype::QoSDataCFAckCFPoll => 11,
            DataSubtype::QoSNull => 12,
            DataSubtype::QoSCFPoll => 14,
            DataSubtype::QoSCFAck => 15,
        }
    }

    /// The subtype that the number `n` stands for. The number 13 is reserved.
    pub open spec fn spec_parse(n: u8) -> Result<DataSubtype, DecodeError> {
        match n {
            0 => Ok(DataSubtype::Data),
            1 => Ok(DataSubtype::DataCFAck),
            2 => Ok(DataSubtype::DataCFPoll),
            3 => Ok(DataSubtype::DataCFAckCFPoll),
            4 => Ok(DataSubtype::Null),
            5 => Ok(DataSubtype::CFAck),
            6 => Ok(DataSubtype::CFPoll),
            7 => Ok(DataSubtype::CFAckCFPoll),
            8 => Ok(DataSubtype::QoSData),
            9 => Ok(DataSubtype::QoSDataCFAck),
            10 => Ok(DataSubtype::QoSDataCFPoll),
            11 => Ok(DataSubtype::QoSDataCFAckCFPoll),
            12 => Ok(DataSubtype::QoSNull),
            14 => Ok(DataSubtype::QoSCFPoll),
            15 => Ok(DataSubtype::QoSCFAck),
            _ => Err(DecodeError::InvalidSubtype(2, n)),
        }
    }

    /// Decodes a subtype number: the result is the subtype whose number is
    /// `n`, and an error where there is none.
    pub fn parse(n: u8) -> (r: Result<DataSubtype, DecodeError>)
        ensures
            r == Self::spec_parse(n),
            r matches Ok(subtype) ==> subtype.spec_number() == n,
    {
        Ok(
            match n {
                0 => DataSubtype::Data,
                1 => DataSubtype::DataCFAck,
                2 => DataSubtype::DataCFPoll,
                3 => DataSubtype::DataCFAckCFPoll,
                4 => DataSubtype::Null,
                5 => DataSubtype::CFAck,
                6 => DataSubtype::CFPoll,
                7 => DataSubtype::CFAckCFPoll,
                8 => DataSubtype::QoSData,
                9 => DataSubtype::QoSDataCFAck,
                10 => DataSubtype::QoSDataCFPoll,
                11 => DataSubtype::QoSDataCFAckCFPoll,
                12 => DataSubtype::QoSNull,
                14 => DataSubtype::QoSCFPoll,
                15 => DataSubtype::QoSCFAck,
                _ => {
                    return Err(DecodeError::InvalidSubtype(2, n));
                },
            },
        )
    }

    /// The number that stands for the subtype in the frame-control field.
    pub fn number(&self) -> (n: u8)
        ensures
            n == self.spec_number(),
            Self::spec_parse(n) == Ok::<DataSubtype, DecodeError>(*self),
    {
        match *self {
            DataSubtype::Data => 0,
            DataSubtype::DataCFAck => 1,
            DataSubtype::DataCFPoll => 2,
            DataSubtype::DataCFAckCFPoll => 3,
            DataSubtype::Null => 4,
            DataSubtype::CFAck => 5,
            DataSubtype::CFPoll => 6,
            DataSubtype::CFAckCFPoll => 7,
            DataSubtype::QoSData => 8,
            DataSubtype::QoSDataCFAck => 9,
            DataSubtype::QoSDataCFPoll => 10,
            DataSubtype::QoSDataCFAckCFPoll => 11,
            DataSubtype::QoSNull => 12,
            DataSubtype::QoSCFPoll => 14,
            DataSubtype::QoSCFAck => 15,
        }
    }
}

/// The type of a frame together with its subtype.
#[derive(Clone, Copy, Debug, PartialEq, Eq, Structural)]
pub enum Type {
    Management(ManagementSubtype),
    Control(ControlSubtype),
    Data(DataSubtype),
}

/// The type of a frame together with its subtype.
pub type FrameType = Type;

impl Type {
    /// The frame type that the type number `type_` and the subtype number
    /// `subtype` stand for: 0 is management, 1 control, 2 data, and 3 is
    /// refused.
    pub open spec fn spec_parse(type_: u8, subtype: u8) -> Result<Type, DecodeError> {
        if type_ == 0 {
            match ManagementSubtype::spec_parse(subtype) {
                Ok(s) => Ok(Type::Management(s)),
                Err(e) => Err(e),
            }
        } else if type_ == 1 {
            match ControlSubtype::spec_parse(subtype) {
                Ok(s) => Ok(Type::Control(s)),
                Err(e) => Err(e),
            }
        } else if type_ == 2 {
            match DataSubtype::spec_parse(subtype) {
                Ok(s) => Ok(Type::Data(s)),
                Err(e) => Err(e),
            }
        } else {
            Err(DecodeError::InvalidType)
        }
    }

    /// Decodes a type number and a subtype number.
    pub fn parse(type_: u8, subtype: u8) -> (r: Result<Type, DecodeError>)
        ensures
            r == Self::spec_parse(type_, subtype),
    {
        match type_ {
            0 => match ManagementSubtype::parse(subtype) {
                Ok(s) => Ok(Type::Management(s)),
                Err(e) => Err(e),
            },
            1 => match ControlSubtype::parse(subtype) {
                Ok(s) => Ok(Type::Control(s)),
                Err(e) => Err(e),
            },
            2 => match DataSubtype::parse(subtype) {
                Ok(s) => Ok(Type::Data(s)),
                Err(e) => Err(e),
            },
            _ => Err(DecodeError::InvalidType),
        }
    }
}

} // verus!
