//! Protocol 31 specific types.

use vstd::prelude::*;

use crate::error::ParserError;
use crate::ubx_packets::packet_ref::{match_packet, spec_match_packet, ProtoVersion};
use crate::ubx_protocol::{UbxPacket, UbxProtocol};

pub use crate::ubx_packets::packet_ref::PacketRef;

verus! {

/// Tag for protocol 31 packets.
pub struct Proto31;

impl UbxProtocol for Proto31 {
    const MAX_PAYLOAD_LEN: u16 = 1240;

    open spec fn spec_match_packet<'a>(class_id: u8, msg_id: u8, payload: &'a [u8]) -> Result<
        UbxPacket<'a>,
        ParserError,
    > {
        Ok(UbxPacket::Proto31(spec_match_packet(ProtoVersion::V31, class_id, msg_id, payload)))
    }

    fn match_packet<'a>(class_id: u8, msg_id: u8, payload: &'a [u8]) -> (r: Result<
        UbxPacket<'a>,
        ParserError,
    >) {
        Ok(UbxPacket::Proto31(match_packet(ProtoVersion::V31, class_id, msg_id, payload)))
    }
}

/// The longest payload this protocol version accepts.
pub proof fn lemma_max_payload_len()
    ensures
        Proto31::MAX_PAYLOAD_LEN == 1240,
{
}

} // verus!
