use vstd::prelude::*;

use crate::error::ParserError;
use crate::ubx_packets::packet_ref::PacketRef;

verus! {

/// A UBX packet together with the protocol version it was parsed under.
pub enum UbxPacket<'a> {
    Proto14(PacketRef<'a>),
    Proto17(PacketRef<'a>),
    Proto23(PacketRef<'a>),
    Proto27(PacketRef<'a>),
    Proto31(PacketRef<'a>),
    Proto33(PacketRef<'a>),
}

impl<'a> UbxPacket<'a> {
    /// The packet, whatever the protocol version.
    pub open spec fn packet(&self) -> PacketRef<'a> {
        match self {
            UbxPacket::Proto14(p) => *p,
            UbxPacket::Proto17(p) => *p,
            UbxPacket::Proto23(p) => *p,
            UbxPacket::Proto27(p) => *p,
            UbxPacket::Proto31(p) => *p,
            UbxPacket::Proto33(p) => *p,
        }
    }

    /// The payload bytes of the packet.
    pub open spec fn payload(&self) -> Seq<u8> {
        self.packet().payload()
    }
}

/// Parsing rules of a UBX protocol version.
pub trait UbxProtocol {
    /// The maximum payload length supported by this protocol version.
    const MAX_PAYLOAD_LEN: u16;

    /// The result of `match_packet`.
    spec fn spec_match_packet<'a>(class_id: u8, msg_id: u8, payload: &'a [u8]) -> Result<
        UbxPacket<'a>,
        ParserError,
    >;

    /// Matches a class id, message id and payload to a specific packet type.
    fn match_packet<'a>(class_id: u8, msg_id: u8, payload: &'a [u8]) -> (r: Result<
        UbxPacket<'a>,
        ParserError,
    >)
        ensures
            r == Self::spec_match_packet(class_id, msg_id, payload),
    ;
}

} // verus!
