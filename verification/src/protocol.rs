//! Classification of the head of a byte buffer: garbage, an incomplete or
//! corrupt frame, or a whole UBX packet.

use vstd::prelude::*;

use crate::checksum::{checksum_of, ubx_checksum};
use crate::constants::{UBX_SYNC_CHAR_1, UBX_SYNC_CHAR_2};
use crate::error::ParserError;
use crate::parser::scan::{first_pair, is_pair_at, lemma_first_pair, lemma_no_pair};
use crate::ubx_packets::bytes_le::le_u16;
use crate::ubx_packets::frame::{lemma_ubx_frame_layout, ubx_frame};
use crate::ubx_packets::packet_ref::{match_packet, spec_match_packet, PacketRef, ProtoVersion};

verus! {

/// What the head of a buffer holds.
pub enum BufferHeadContents<'a> {
    /// The first N bytes are garbage.
    Garbage(usize),
    /// There seems to be a header, but there are not enough bytes to be sure.
    IncompleteHeader,
    /// The buffer requires N more bytes.
    Incomplete(usize),
    /// An N-byte frame was found but its checksum did not match.
    InvalidChecksum(usize),
    /// The first bytes are a packet.
    Packet(PacketRef<'a>),
    /// The first bytes are a frame whose payload is no valid packet.
    InvalidPacket(ParserError),
}

/// The payload length announced by the header at the start of `v`.
pub open spec fn announced_len(v: Seq<u8>) -> int {
    le_u16(v, 4) as int
}

/// Classifies the head of `v` as `r` does: garbage up to the first UBX
/// sync pair (or up to a trailing first sync character), an incomplete
/// header, an incomplete frame with the number of missing bytes, a frame
/// with a wrong checksum, or a packet matched from its class, id and
/// payload.
pub open spec fn parse_buffer_post<'a>(v: Seq<u8>, r: BufferHeadContents<'a>) -> bool {
    match first_pair(v, UBX_SYNC_CHAR_1, UBX_SYNC_CHAR_2) {
        None => if v.last() == UBX_SYNC_CHAR_1 {
            if v.len() == 1 {
                r is IncompleteHeader
            } else {
                r == BufferHeadContents::<'a>::Garbage((v.len() - 1) as usize)
            }
        } else {
            r == BufferHeadContents::<'a>::Garbage(v.len() as usize)
        },
        Some(i) => if i > 0 {
            r == BufferHeadContents::<'a>::Garbage(i as usize)
        } else if v.len() < 6 {
            r is IncompleteHeader
        } else if v.len() < 8 + announced_len(v) {
            r == BufferHeadContents::<'a>::Incomplete((8 + announced_len(v) - v.len()) as usize)
        } else if checksum_of(v.subrange(2, 6 + announced_len(v))) != (
            v[6 + announced_len(v)],
            v[7 + announced_len(v)],
        ) {
            r == BufferHeadContents::<'a>::InvalidChecksum((8 + announced_len(v)) as usize)
        } else {
            exists|s: &'a [u8]|
                s@ == v.subrange(6, 6 + announced_len(v)) && r == BufferHeadContents::Packet(
                    spec_match_packet(ProtoVersion::V14, v[2], v[3], s),
                )
        },
    }
}

/// Index of the first occurrence of the byte pair `a`, `b` in `buf`.
fn find_pair(buf: &[u8], a: u8, b: u8) -> (r: Option<usize>)
    ensures
        match r {
            Some(i) => first_pair(buf@, a, b) == Some(i as int),
            None => first_pair(buf@, a, b) is None,
        },
{
    let n = buf.len();
    let mut i: usize = 0;
    while i < n && i + 1 < n
        invariant
            n == buf@.len(),
            i <= n,
            forall|j: int| 0 <= j < i ==> !is_pair_at(buf@, j, a, b),
        decreases n - i,
    {
        if buf[i] == a && buf[i + 1] == b {
            proof {
                lemma_first_pair(buf@, a, b, i as int);
            }
            return Some(i);
        }
        i = i + 1;
    }
    proof {
        lemma_no_pair(buf@, a, b);
    }
    None
}

/// Looks at the head of `buf` and tells what it holds.
pub fn parse_buffer(buf: &[u8]) -> (r: BufferHeadContents<'_>)
    requires
        buf@.len() > 0,
    ensures
        parse_buffer_post(buf@, r),
{
    let ghost v = buf@;
    let n = buf.len();
    // scan the buffer for the start [b5 62]
    let start_offset = find_pair(buf, UBX_SYNC_CHAR_1, UBX_SYNC_CHAR_2);
    let start_offset = match start_offset {
        Some(s) => s,
        None => {
            if buf[n - 1] == UBX_SYNC_CHAR_1 {
                if n == 1 {
                    return BufferHeadContents::IncompleteHeader;
                }
                return BufferHeadContents::Garbage(n - 1);
            }
            return BufferHeadContents::Garbage(n);
        },
    };
    if start_offset > 0 {
        return BufferHeadContents::Garbage(start_offset);
    }
    if n < 6 {
        return BufferHeadContents::IncompleteHeader;
    }
    let class = buf[2];
    let id = buf[3];
    let length = buf[5] as usize * 256 + buf[4] as usize;
    if n < 6 + length + 2 {
        return BufferHeadContents::Incomplete(6 + length + 2 - n);
    }
    let expected_checksum = ubx_checksum(crate::buffer::slice_subrange(buf, 2, 6 + length));
    let actual_checksum = (buf[6 + length], buf[6 + length + 1]);
    if expected_checksum.0 != actual_checksum.0 || expected_checksum.1 != actual_checksum.1 {
        return BufferHeadContents::InvalidChecksum(6 + length + 2);
    }
    let payload = crate::buffer::slice_subrange(buf, 6, 6 + length);
    BufferHeadContents::Packet(match_packet(ProtoVersion::V14, class, id, payload))
}

/// A frame built from a class, an id and a payload, whatever bytes follow
/// it, is read back as the packet matched from that class, id and payload.
pub proof fn lemma_parse_built_frame<'a>(
    class: u8,
    msg_id: u8,
    payload: Seq<u8>,
    rest: Seq<u8>,
    r: BufferHeadContents<'a>,
)
    requires
        payload.len() <= u16::MAX,
        parse_buffer_post(ubx_frame(class, msg_id, payload) + rest, r),
    ensures
        exists|s: &'a [u8]|
            s@ == payload && r == BufferHeadContents::Packet(spec_match_packet(ProtoVersion::V14, class, msg_id, s)),
{
    let v = ubx_frame(class, msg_id, payload) + rest;
    let n = payload.len() as int;
    lemma_ubx_frame_layout(class, msg_id, payload, rest);
    lemma_first_pair(v, UBX_SYNC_CHAR_1, UBX_SYNC_CHAR_2, 0);
    assert(v.subrange(6, 6 + n) =~= payload);
}

} // verus!
