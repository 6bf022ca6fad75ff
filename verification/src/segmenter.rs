//! Splitting a stream of bytes into owned UBX packets.

use std::collections::VecDeque;

use vstd::prelude::*;

use crate::checksum::{checksum_of, u16_le, ubx_checksum};
use crate::constants::{UBX_SYNC_CHAR_1, UBX_SYNC_CHAR_2};
use crate::error::ParserError;
use crate::parser::scan::{first_pair, is_pair_at, lemma_first_pair, lemma_first_pair_found, lemma_no_pair};
use crate::ubx_packets::bytes_le::le_u16;
use crate::ubx_packets::frame::{lemma_ubx_frame_layout, ubx_frame};

verus! {

broadcast use vstd::std_specs::vecdeque::group_vec_dequeue_axioms;

/// A UBX packet cut out of a stream, owning its payload.
#[derive(Debug, PartialEq, Eq, Clone)]
pub struct Packet {
    pub class: u8,
    pub msg_id: u8,
    pub payload: Vec<u8>,
}

/// The mathematical value of a [Packet].
pub struct PacketView {
    pub class: u8,
    pub msg_id: u8,
    pub payload: Seq<u8>,
}

impl View for Packet {
    type V = PacketView;

    open spec fn view(&self) -> PacketView {
        PacketView { class: self.class, msg_id: self.msg_id, payload: self.payload@ }
    }
}

/// The value of the result of one segmentation step.
pub open spec fn step_view(r: Result<Option<Packet>, ParserError>) -> Result<Option<PacketView>, ParserError> {
    match r {
        Ok(Some(p)) => Ok(Some(p@)),
        Ok(None) => Ok(None),
        Err(e) => Err(e),
    }
}

/// One segmentation step on the bytes `v`: what it returns, and the bytes it
/// leaves. Bytes before the first UBX sync pair are dropped (all but a last
/// byte when there is none); a frame not yet complete is waited for; a whole
/// frame is cut out, and returned when its checksum matches.
pub open spec fn segment_step(v: Seq<u8>) -> (Result<Option<PacketView>, ParserError>, Seq<u8>) {
    match first_pair(v, UBX_SYNC_CHAR_1, UBX_SYNC_CHAR_2) {
        None => (Ok(None), v.skip(if v.len() == 0 { 0 } else { v.len() - 1 })),
        Some(i) => {
            let w = v.skip(i);
            if w.len() < 6 {
                (Ok(None), w)
            } else {
                let length = le_u16(w, 4) as int;
                if w.len() < length + 8 {
                    (Ok(None), w)
                } else {
                    let ck = checksum_of(w.subrange(2, length + 6));
                    let expect = u16_le(w[length + 6], w[length + 7]);
                    let got = u16_le(ck.0, ck.1);
                    if got != expect {
                        (Err(ParserError::InvalidChecksum { expect, got }), w.skip(length + 8))
                    } else {
                        (
                            Ok(
                                Some(
                                    PacketView {
                                        class: w[2],
                                        msg_id: w[3],
                                        payload: w.subrange(6, length + 6),
                                    },
                                ),
                            ),
                            w.skip(length + 8),
                        )
                    }
                }
            }
        },
    }
}

/// A step that returns something other than "nothing yet" consumes bytes.
pub proof fn lemma_segment_step_shrinks(v: Seq<u8>)
    ensures
        segment_step(v).1.len() <= v.len(),
        segment_step(v).0 != Ok::<Option<PacketView>, ParserError>(None) ==> segment_step(v).1.len()
            < v.len(),
{
    match first_pair(v, UBX_SYNC_CHAR_1, UBX_SYNC_CHAR_2) {
        None => {},
        Some(i) => {
            lemma_first_pair_found(v, UBX_SYNC_CHAR_1, UBX_SYNC_CHAR_2);
        },
    }
}

/// Repeated segmentation: the packets cut out until the bytes yield no more,
/// or the first error, and the bytes left.
pub open spec fn segment_all(v: Seq<u8>) -> (Result<Seq<PacketView>, ParserError>, Seq<u8>)
    decreases v.len(),
{
    let (r, w) = segment_step(v);
    match r {
        Ok(Some(p)) => {
            proof {
                lemma_segment_step_shrinks(v);
            }
            let (rs, w2) = segment_all(w);
            match rs {
                Ok(ps) => (Ok(seq![p] + ps), w2),
                Err(e) => (Err(e), w2),
            }
        },
        Ok(None) => (Ok(Seq::empty()), w),
        Err(e) => (Err(e), w),
    }
}

/// One segmentation step on `data`.
#[verifier::rlimit(40)]
fn segment_stream(data: &mut VecDeque<u8>) -> (r: Result<Option<Packet>, ParserError>)
    ensures
        (step_view(r), final(data)@) == segment_step(old(data)@),
{
    let ghost v = data@;
    let ghost mut k: int = 0;
    loop
        invariant
            v == old(data)@,
            0 <= k <= v.len(),
            v.len() == 0 || k < v.len(),
            data@ == v.skip(k),
            forall|j: int| 0 <= j < k ==> !is_pair_at(v, j, UBX_SYNC_CHAR_1, UBX_SYNC_CHAR_2),
        ensures
            data@ == v.skip(k),
            data@.len() >= 2,
            first_pair(v, UBX_SYNC_CHAR_1, UBX_SYNC_CHAR_2) == Some(k),
        decreases data@.len(),
    {
        if data.len() < 2 {
            proof {
                lemma_no_pair(v, UBX_SYNC_CHAR_1, UBX_SYNC_CHAR_2);
            }
            return Ok(None);
        }
        if data[0] == UBX_SYNC_CHAR_1 && data[1] == UBX_SYNC_CHAR_2 {
            proof {
                lemma_first_pair(v, UBX_SYNC_CHAR_1, UBX_SYNC_CHAR_2, k);
            }
            break;
        }
        let _ = data.pop_front();
        proof {
            assert(data@ =~= v.skip(k + 1));
            k = k + 1;
        }
    }
    if data.len() < 6 {
        return Ok(None);
    }
    // check the length
    let length = (data[4] as u16 + data[5] as u16 * 256) as usize;
    if data.len() < length + 8 {
        return Ok(None);
    }
    let expected_checksum = data[length + 6] as u16 + data[length + 7] as u16 * 256;
    let ghost w = data@;
    let mut frame: Vec<u8> = Vec::new();
    while frame.len() < length + 8
        invariant
            length <= 0xffff,
            frame@.len() <= length + 8,
            length + 8 <= w.len(),
            frame@ == w.take(frame@.len() as int),
            data@ == w.skip(frame@.len() as int),
        decreases length + 8 - frame@.len(),
    {
        let b = data.pop_front().unwrap();
        frame.push(b);
        proof {
            assert(frame@ =~= w.take(frame@.len() as int));
            assert(data@ =~= w.skip(frame@.len() as int));
        }
    }
    // check the checksum
    let (cka, ckb) = ubx_checksum(crate::buffer::slice_subrange(frame.as_slice(), 2, length + 6));
    let checksum = cka as u16 + ckb as u16 * 256;
    proof {
        assert(frame@.subrange(2, length + 6) =~= w.subrange(2, length + 6));
    }
    if checksum != expected_checksum {
        return Err(ParserError::InvalidChecksum { expect: expected_checksum, got: checksum });
    }
    let mut payload: Vec<u8> = Vec::new();
    let mut i: usize = 6;
    while i < length + 6
        invariant
            length <= 0xffff,
            6 <= i <= length + 6,
            frame@ == w.take(length + 8),
            length + 8 <= w.len(),
            payload@ == w.subrange(6, i as int),
        decreases length + 6 - i,
    {
        payload.push(frame[i]);
        i = i + 1;
        proof {
            assert(payload@ =~= w.subrange(6, i as int));
        }
    }
    Ok(Some(Packet { class: frame[2], msg_id: frame[3], payload }))
}

/// A frame built from a class, an id and a payload is cut out again whole:
/// the step returns that packet and leaves the bytes that follow it.
pub proof fn lemma_segment_built_frame(class: u8, msg_id: u8, payload: Seq<u8>, rest: Seq<u8>)
    requires
        payload.len() <= u16::MAX,
    ensures
        segment_step(ubx_frame(class, msg_id, payload) + rest) == (
            Ok::<Option<PacketView>, ParserError>(Some(PacketView { class, msg_id, payload })),
            rest,
        ),
{
    let v = ubx_frame(class, msg_id, payload) + rest;
    lemma_ubx_frame_layout(class, msg_id, payload, rest);
    lemma_first_pair(v, UBX_SYNC_CHAR_1, UBX_SYNC_CHAR_2, 0);
    assert(v.skip(0) =~= v);
}

/// Splits a stream of bytes handed over in pieces into UBX packets.
pub struct Segmenter {
    buffer: VecDeque<u8>,
}

impl Segmenter {
    /// The bytes received and not yet cut into packets.
    pub closed spec fn pending(&self) -> Seq<u8> {
        self.buffer@
    }

    /// A segmenter holding no bytes.
    pub fn new() -> (r: Self)
        ensures
            r.pending() == Seq::<u8>::empty(),
    {
        Segmenter { buffer: VecDeque::new() }
    }

    /// Appends `data` to the pending bytes.
    fn push_all(&mut self, data: &[u8])
        ensures
            final(self).pending() == old(self).pending() + data@,
    {
        let mut i: usize = 0;
        while i < data.len()
            invariant
                i <= data@.len(),
                self.buffer@ == old(self).buffer@ + data@.take(i as int),
            decreases data@.len() - i,
        {
            self.buffer.push_back(data[i]);
            i = i + 1;
            proof {
                assert(self.buffer@ =~= old(self).buffer@ + data@.take(i as int));
            }
        }
        proof {
            assert(data@.take(data@.len() as int) =~= data@);
        }
    }

    /// Appends `data` and cuts the next packet out of the pending bytes.
    pub fn consume(&mut self, data: &[u8]) -> (r: Result<Option<Packet>, ParserError>)
        ensures
            (step_view(r), final(self).pending()) == segment_step(old(self).pending() + data@),
    {
        self.push_all(data);
        segment_stream(&mut self.buffer)
    }

    /// Appends `data` and cuts out every packet the pending bytes hold,
    /// stopping at the first error.
    pub fn consume_all(&mut self, data: &[u8]) -> (r: Result<Vec<Packet>, ParserError>)
        ensures
            final(self).pending() == segment_all(old(self).pending() + data@).1,
            match r {
                Ok(ps) => segment_all(old(self).pending() + data@).0 == Ok::<Seq<PacketView>, ParserError>(
                    ps@.map_values(|p: Packet| p@),
                ),
                Err(e) => segment_all(old(self).pending() + data@).0 == Err::<Seq<PacketView>, ParserError>(e),
            },
    {
        self.push_all(data);
        let ghost v = self.buffer@;
        let mut packets: Vec<Packet> = Vec::new();
        proof {
            assert(packets@.map_values(|p: Packet| p@) =~= Seq::<PacketView>::empty());
            lemma_prepend_empty(segment_all(v));
        }
        loop
            invariant
                v == old(self).pending() + data@,
                segment_all(v) == prepend_packets(packets@.map_values(|p: Packet| p@), segment_all(self.buffer@)),
            decreases self.buffer@.len(),
        {
            let ghost before = self.buffer@;
            let ghost seen = packets@.map_values(|p: Packet| p@);
            proof {
                lemma_segment_step_shrinks(before);
            }
            match segment_stream(&mut self.buffer) {
                Ok(Some(packet)) => {
                    proof {
                        assert(segment_step(before) == (
                            Ok::<Option<PacketView>, ParserError>(Some(packet@)),
                            self.buffer@,
                        ));
                        assert(segment_all(before) == prepend_packets(seq![packet@], segment_all(self.buffer@)));
                    }
                    packets.push(packet);
                    proof {
                        assert(packets@.map_values(|p: Packet| p@) =~= seen + seq![packet@]);
                        lemma_prepend_prepend(seen, seq![packet@], segment_all(self.buffer@));
                    }
                },
                Ok(None) => {
                    proof {
                        assert(segment_step(before) == (
                            Ok::<Option<PacketView>, ParserError>(None),
                            self.buffer@,
                        ));
                        assert(segment_all(before) == (
                            Ok::<Seq<PacketView>, ParserError>(Seq::empty()),
                            self.buffer@,
                        ));
                        assert(seen + Seq::<PacketView>::empty() =~= seen);
                    }
                    return Ok(packets);
                },
                Err(e) => {
                    proof {
                        assert(segment_step(before) == (
                            Err::<Option<PacketView>, ParserError>(e),
                            self.buffer@,
                        ));
                        assert(segment_all(before) == (
                            Err::<Seq<PacketView>, ParserError>(e),
                            self.buffer@,
                        ));
                    }
                    return Err(e);
                },
            }
        }
    }
}

/// The packets `ps` put before the outcome of a segmentation.
pub open spec fn prepend_packets(
    ps: Seq<PacketView>,
    s: (Result<Seq<PacketView>, ParserError>, Seq<u8>),
) -> (Result<Seq<PacketView>, ParserError>, Seq<u8>) {
    match s.0 {
        Ok(qs) => (Ok(ps + qs), s.1),
        Err(e) => (Err(e), s.1),
    }
}

/// Putting no packets first changes nothing.
proof fn lemma_prepend_empty(s: (Result<Seq<PacketView>, ParserError>, Seq<u8>))
    ensures
        prepend_packets(Seq::empty(), s) == s,
{
    if let Ok(qs) = s.0 {
        assert(Seq::<PacketView>::empty() + qs =~= qs);
    }
}

/// Putting `a` before `b` before an outcome is putting `a + b` before it.
proof fn lemma_prepend_prepend(
    a: Seq<PacketView>,
    b: Seq<PacketView>,
    s: (Result<Seq<PacketView>, ParserError>, Seq<u8>),
)
    ensures
        prepend_packets(a, prepend_packets(b, s)) == prepend_packets(a + b, s),
{
    if let Ok(qs) = s.0 {
        assert(a + (b + qs) =~= (a + b) + qs);
    }
}

} // verus!
