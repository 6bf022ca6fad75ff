use vstd::prelude::*;

use crate::checksum::ubx_checksum;
use crate::constants::{UBX_SYNC_CHAR_1, UBX_SYNC_CHAR_2};
use crate::ubx_packets::frame::ubx_frame;

pub mod bytes_le;
pub mod cfg_keys;
pub mod cfg_val;
pub mod frame;
pub mod packet_ref;
pub mod packets;
pub mod writer;

verus! {

/// Information about a concrete UBX packet type.
pub trait UbxPacketMeta {
    const CLASS: u8;
    const ID: u8;
    const MAX_PAYLOAD_LEN: u16;

    /// The payload length of packets of this type, where it is fixed; it is
    /// then also the longest payload.
    fn fixed_payload_len() -> (r: Option<u16>)
        ensures
            r matches Some(n) ==> n == Self::MAX_PAYLOAD_LEN,
    ;
}

/// Packet not supported by this crate: its class, id and raw payload.
pub struct UbxUnknownPacketRef<'a> {
    pub payload: &'a [u8],
    pub class: u8,
    pub msg_id: u8,
}

/// Request (poll) for a specific packet: a frame with an empty payload.
pub struct UbxPacketRequest {
    req_class: u8,
    req_id: u8,
}

impl UbxPacketRequest {
    pub const PACKET_LEN: usize = 8;

    /// The class this request polls.
    pub closed spec fn class(&self) -> u8 {
        self.req_class
    }

    /// The message id this request polls.
    pub closed spec fn msg_id(&self) -> u8 {
        self.req_id
    }

    /// A request for packets of type `T`.
    pub fn request_for<T: UbxPacketMeta>() -> (r: Self)
        ensures
            r.class() == T::CLASS,
            r.msg_id() == T::ID,
    {
        Self { req_class: T::CLASS, req_id: T::ID }
    }

    /// A request for packets of the given class and id.
    pub fn request_for_unknown(req_class: u8, req_id: u8) -> (r: Self)
        ensures
            r.class() == req_class,
            r.msg_id() == req_id,
    {
        Self { req_class, req_id }
    }

    /// The request frame: sync characters, class, id, zero length and
    /// checksum.
    pub fn into_packet_bytes(self) -> (r: [u8; 8])
        ensures
            r@ == ubx_frame(self.class(), self.msg_id(), Seq::<u8>::empty()),
    {
        let mut ret: [u8; 8] = [UBX_SYNC_CHAR_1, UBX_SYNC_CHAR_2, self.req_class, self.req_id, 0, 0, 0, 0];
        proof {
            assert(crate::ubx_packets::bytes_le::u16_le_bytes(0) =~= seq![0u8, 0u8]);
            assert(ret@.subrange(2, 6) =~= crate::ubx_packets::frame::checksummed_part(
                self.class(),
                self.msg_id(),
                Seq::<u8>::empty(),
            ));
        }
        let (ck_a, ck_b) = ubx_checksum(crate::buffer::slice_subrange(ret.as_slice(), 2, 6));
        ret[6] = ck_a;
        ret[7] = ck_b;
        proof {
            assert(crate::ubx_packets::bytes_le::u16_le_bytes(0) =~= seq![0u8, 0u8]);
            assert(ret@ =~= ubx_frame(self.class(), self.msg_id(), Seq::<u8>::empty()));
        }
        ret
    }
}

} // verus!
