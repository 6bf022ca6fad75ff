use vstd::prelude::*;

use crate::error::ParserError;
use crate::ubx_packets::UbxPacketMeta;

verus! {

/// Message Acknowledged: sent as a result of a CFG message being received,
/// decoded and processed by the receiver.
pub struct AckAck;

impl UbxPacketMeta for AckAck {
    const CLASS: u8 = 0x05;
    const ID: u8 = 0x01;
    const MAX_PAYLOAD_LEN: u16 = 2;

    fn fixed_payload_len() -> (r: Option<u16>)
        ensures
            r == Some(2u16),
    {
        Some(2)
    }
}

/// Payload of an [AckAck] packet.
pub struct AckAckRef<'a>(pub &'a [u8]);

impl<'a> AckAckRef<'a> {
    /// The outcome of validating a payload.
    pub open spec fn spec_validate(payload: Seq<u8>) -> Result<(), ParserError> {
        if payload.len() != 2 {
            Err(ParserError::InvalidPacketLen { packet: "AckAck", expect: 2, got: payload.len() as usize })
        } else {
            Ok(())
        }
    }

    /// Checks that `payload` is a valid [AckAck] payload.
    pub fn validate(payload: &[u8]) -> (r: Result<(), ParserError>)
        ensures
            r == Self::spec_validate(payload@),
    {
        if payload.len() != 2 {
            Err(ParserError::InvalidPacketLen { packet: "AckAck", expect: 2, got: payload.len() })
        } else {
            Ok(())
        }
    }

    /// Length of the payload.
    pub fn payload_len(&self) -> (r: usize)
        ensures
            r == self.0@.len(),
    {
        self.0.len()
    }

    /// Class ID of the acknowledged message.
    pub fn class(&self) -> (r: u8)
        requires
            Self::spec_validate(self.0@) is Ok,
        ensures
            r == self.0@[0],
    {
        self.0[0]
    }

    /// Message ID of the acknowledged message.
    pub fn msg_id(&self) -> (r: u8)
        requires
            Self::spec_validate(self.0@) is Ok,
        ensures
            r == self.0@[1],
    {
        self.0[1]
    }

    /// Whether this acknowledges a packet of type `T`.
    pub fn is_ack_for<T: UbxPacketMeta>(&self) -> (r: bool)
        requires
            Self::spec_validate(self.0@) is Ok,
        ensures
            r == (self.0@[0] == T::CLASS && self.0@[1] == T::ID),
    {
        self.class() == T::CLASS && self.msg_id() == T::ID
    }
}

/// Message Not-Acknowledged.
pub struct AckNak;

impl UbxPacketMeta for AckNak {
    const CLASS: u8 = 0x05;
    const ID: u8 = 0x00;
    const MAX_PAYLOAD_LEN: u16 = 2;

    fn fixed_payload_len() -> (r: Option<u16>)
        ensures
            r == Some(2u16),
    {
        Some(2)
    }
}

/// Payload of an [AckNak] packet.
pub struct AckNakRef<'a>(pub &'a [u8]);

impl<'a> AckNakRef<'a> {
    /// The outcome of validating a payload.
    pub open spec fn spec_validate(payload: Seq<u8>) -> Result<(), ParserError> {
        if payload.len() != 2 {
            Err(ParserError::InvalidPacketLen { packet: "AckNak", expect: 2, got: payload.len() as usize })
        } else {
            Ok(())
        }
    }

    /// Checks that `payload` is a valid [AckNak] payload.
    pub fn validate(payload: &[u8]) -> (r: Result<(), ParserError>)
        ensures
            r == Self::spec_validate(payload@),
    {
        if payload.len() != 2 {
            Err(ParserError::InvalidPacketLen { packet: "AckNak", expect: 2, got: payload.len() })
        } else {
            Ok(())
        }
    }

    /// Length of the payload.
    pub fn payload_len(&self) -> (r: usize)
        ensures
            r == self.0@.len(),
    {
        self.0.len()
    }

    /// Class ID of the rejected message.
    pub fn class(&self) -> (r: u8)
        requires
            Self::spec_validate(self.0@) is Ok,
        ensures
            r == self.0@[0],
    {
        self.0[0]
    }

    /// Message ID of the rejected message.
    pub fn msg_id(&self) -> (r: u8)
        requires
            Self::spec_validate(self.0@) is Ok,
        ensures
            r == self.0@[1],
    {
        self.0[1]
    }

    /// Whether this rejects a packet of type `T`.
    pub fn is_nak_for<T: UbxPacketMeta>(&self) -> (r: bool)
        requires
            Self::spec_validate(self.0@) is Ok,
        ensures
            r == (self.0@[0] == T::CLASS && self.0@[1] == T::ID),
    {
        self.class() == T::CLASS && self.msg_id() == T::ID
    }
}

/// The class, message id and longest payload of each packet type of this
/// module.
pub proof fn lemma_packet_ids()
    ensures
        AckAck::CLASS == 0x05,
        AckAck::ID == 0x01,
        AckAck::MAX_PAYLOAD_LEN == 2,
        AckNak::CLASS == 0x05,
        AckNak::ID == 0x00,
        AckNak::MAX_PAYLOAD_LEN == 2,
{
}

} // verus!
