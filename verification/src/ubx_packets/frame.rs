use vstd::prelude::*;

use crate::checksum::{checksum_of, UbxChecksumCalc};
use crate::constants::{UBX_SYNC_CHAR_1, UBX_SYNC_CHAR_2};
use crate::ubx_packets::bytes_le::{le_u16, lemma_u16_le_roundtrip, u16_le_bytes, u16_to_le};

verus! {

/// The bytes the checksum covers: class, id, little-endian length, payload.
pub open spec fn checksummed_part(class: u8, msg_id: u8, payload: Seq<u8>) -> Seq<u8> {
    seq![class, msg_id] + u16_le_bytes(payload.len() as u16) + payload
}

/// A complete UBX frame: sync characters, class, id, little-endian payload
/// length, payload and the two checksum bytes.
pub open spec fn ubx_frame(class: u8, msg_id: u8, payload: Seq<u8>) -> Seq<u8> {
    let body = checksummed_part(class, msg_id, payload);
    let ck = checksum_of(body);
    seq![UBX_SYNC_CHAR_1, UBX_SYNC_CHAR_2] + body + seq![ck.0, ck.1]
}

/// Where the fields of a frame stand when other bytes follow it.
pub proof fn lemma_ubx_frame_layout(class: u8, msg_id: u8, payload: Seq<u8>, rest: Seq<u8>)
    requires
        payload.len() <= u16::MAX,
    ensures
        ({
            let v = ubx_frame(class, msg_id, payload) + rest;
            let n = payload.len() as int;
            let ck = checksum_of(checksummed_part(class, msg_id, payload));
            &&& ubx_frame(class, msg_id, payload).len() == 8 + n
            &&& v.len() == 8 + n + rest.len()
            &&& v[0] == UBX_SYNC_CHAR_1
            &&& v[1] == UBX_SYNC_CHAR_2
            &&& v[2] == class
            &&& v[3] == msg_id
            &&& le_u16(v, 4) == n
            &&& v.subrange(2, 6 + n) == checksummed_part(class, msg_id, payload)
            &&& v.subrange(6, 6 + n) == payload
            &&& v[6 + n] == ck.0
            &&& v[7 + n] == ck.1
            &&& v.skip(8 + n) == rest
        }),
{
    let v = ubx_frame(class, msg_id, payload) + rest;
    let n = payload.len() as int;
    lemma_u16_le_roundtrip(n as u16);
    let lb = u16_le_bytes(n as u16);
    assert(le_u16(v, 4) == le_u16(lb, 0));
    assert(v.subrange(2, 6 + n) =~= checksummed_part(class, msg_id, payload));
    assert(v.subrange(6, 6 + n) =~= payload);
    assert(v.skip(8 + n) =~= rest);
}

/// Builds the UBX frame carrying `payload` with the given class and id.
pub fn build_frame(class: u8, msg_id: u8, payload: &[u8]) -> (r: Vec<u8>)
    requires
        payload@.len() <= u16::MAX,
    ensures
        r@ == ubx_frame(class, msg_id, payload@),
{
    let len_bytes = u16_to_le(payload.len() as u16);
    let mut out: Vec<u8> = Vec::new();
    out.push(UBX_SYNC_CHAR_1);
    out.push(UBX_SYNC_CHAR_2);
    out.push(class);
    out.push(msg_id);
    out.push(len_bytes[0]);
    out.push(len_bytes[1]);
    let mut i: usize = 0;
    while i < payload.len()
        invariant
            i <= payload@.len(),
            out@ == seq![UBX_SYNC_CHAR_1, UBX_SYNC_CHAR_2, class, msg_id, len_bytes@[0], len_bytes@[1]]
                + payload@.take(i as int),
        decreases payload@.len() - i,
    {
        out.push(payload[i]);
        i = i + 1;
        proof {
            assert(out@ =~= seq![UBX_SYNC_CHAR_1, UBX_SYNC_CHAR_2, class, msg_id, len_bytes@[0], len_bytes@[1]]
                + payload@.take(i as int));
        }
    }
    let mut calc = UbxChecksumCalc::new();
    let body = crate::buffer::slice_subrange(out.as_slice(), 2, out.len());
    calc.update(body);
    let (ck_a, ck_b) = calc.result();
    proof {
        assert(payload@.take(payload@.len() as int) =~= payload@);
        assert(body@ =~= checksummed_part(class, msg_id, payload@));
    }
    out.push(ck_a);
    out.push(ck_b);
    proof {
        assert(out@ =~= ubx_frame(class, msg_id, payload@));
    }
    out
}

/// Appends the bytes of `data` to `out`.
pub fn extend_vec(out: &mut Vec<u8>, data: &[u8])
    ensures
        final(out)@ == old(out)@ + data@,
{
    let mut i: usize = 0;
    while i < data.len()
        invariant
            i <= data@.len(),
            out@ == old(out)@ + data@.take(i as int),
        decreases data@.len() - i,
    {
        out.push(data[i]);
        i = i + 1;
        proof {
            assert(out@ =~= old(out)@ + data@.take(i as int));
        }
    }
    proof {
        assert(data@.take(data@.len() as int) =~= data@);
    }
}

/// Copies a vector of exactly `N` bytes into an array.
pub fn vec_into_array<const N: usize>(v: &Vec<u8>) -> (r: [u8; N])
    requires
        v@.len() == N,
    ensures
        r@ == v@,
{
    let mut arr: [u8; N] = vstd::array::array_fill_for_copy_types::<u8, N>(0u8);
    let mut i: usize = 0;
    while i < v.len()
        invariant
            v@.len() == N,
            arr@.len() == N,
            i <= N,
            forall|j: int| 0 <= j < i ==> arr@[j] == v@[j],
        decreases N - i,
    {
        arr[i] = v[i];
        i = i + 1;
    }
    proof {
        assert(arr@ =~= v@);
    }
    arr
}

} // verus!
