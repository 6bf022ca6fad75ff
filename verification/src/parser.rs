use core::marker::PhantomData;

use vstd::prelude::*;

use crate::buffer::{slice_subrange, FixedBuffer, UnderlyingBuffer};
use crate::checksum::{frame_checksum_verdict, UbxChecksumCalc};
use crate::constants::{
    NMEA_END_CHAR_1, NMEA_END_CHAR_2, NMEA_END_CHARS_LEN, NMEA_MAX_SENTENCE_LENGTH,
    NMEA_MIN_BUFFER_SIZE, NMEA_SYNC_CHAR, RTCM_HEADER_SIZE, RTCM_SYNC_CHAR, UBX_CHECKSUM_LEN,
    UBX_CLASS_OFFSET, UBX_HEADER_LEN, UBX_LENGTH_OFFSET, UBX_MSG_ID_OFFSET, UBX_SYNC_CHAR_1,
    UBX_SYNC_CHAR_2, UBX_SYNC_SIZE,
};
use crate::dual_buffer::{can_drain_and_take_spec, take_state, DualBuffer};
use crate::error::ParserError;
use crate::ubx_packets::frame::{lemma_ubx_frame_layout, ubx_frame};
use crate::ubx_protocol::{UbxPacket, UbxProtocol};

pub mod scan;

use scan::{
    first_pair, has_sync_from, is_pair_at, is_sync, lemma_first_pair, lemma_no_pair,
    lemma_scan_no_sync, lemma_scan_skip, lemma_skip_to_sync, lemma_skip_to_sync_none,
    rest_after_drop, rtcm_len, scan_frames, skip_to_sync, FrameSearch, ScanMode,
};

verus! {

/// The protocol of parsers built without naming one: the oldest version.
pub type DefaultProtocol = crate::proto14::Proto14;

/// A packet of any of the framings the iterators recognise.
pub enum AnyPacketRef<'a> {
    Ubx(UbxPacket<'a>),
    Rtcm(RtcmPacketRef<'a>),
    Nmea(NmeaPacketRef<'a>),
}

/// A whole RTCM3 frame: preamble, length field and message.
#[derive(Debug, PartialEq, Eq, Clone, Copy)]
pub struct RtcmPacketRef<'a> {
    pub data: &'a [u8],
}

/// A whole NMEA sentence, from `$` to the end characters.
#[derive(Debug, PartialEq, Eq, Clone, Copy)]
pub struct NmeaPacketRef<'a> {
    pub data: &'a [u8],
}

/// A UBX result seen as a result of any framing.
pub open spec fn lift_ubx<'b>(r: Option<Result<UbxPacket<'b>, ParserError>>) -> Option<
    Result<AnyPacketRef<'b>, ParserError>,
> {
    match r {
        Some(Ok(p)) => Some(Ok(AnyPacketRef::Ubx(p))),
        Some(Err(e)) => Some(Err(e)),
        None => None,
    }
}

/// What extracting a UBX frame with a payload of `pack_len` bytes from a
/// view `v` (whose first `u` bytes lie in the underlying buffer of capacity
/// `cap`) returns as `r`, and what view `v2` it leaves.
pub open spec fn ubx_extract_post<'b, P: UbxProtocol>(
    v: Seq<u8>,
    u: nat,
    cap: nat,
    pack_len: u16,
    r: Option<Result<AnyPacketRef<'b>, ParserError>>,
    v2: Seq<u8>,
) -> bool {
    let total = pack_len + 2;
    if !can_drain_and_take_spec(u, (v.len() - u) as nat, cap, 6, total as nat) {
        if v.len() > cap {
            &&& r == Some(Err::<AnyPacketRef<'b>, ParserError>(ParserError::OutOfMemory { required_size: total as usize }))
            &&& v2 == v.skip(2)
        } else {
            &&& r is None
            &&& v2 == v
        }
    } else {
        match frame_checksum_verdict(v, pack_len) {
            Err(e) => {
                &&& r == Some(Err::<AnyPacketRef<'b>, ParserError>(e))
                &&& v2 == v.skip(2)
            },
            Ok(_) => {
                &&& v2 == v.skip(8 + pack_len)
                &&& exists|s: &'b [u8]|
                    s@ == v.subrange(6, 6 + pack_len) && r == lift_ubx(Some(P::spec_match_packet(v[2], v[3], s)))
            },
        }
    }
}

/// What extracting a frame of `total` bytes that is not checksummed (an
/// RTCM3 frame or an NMEA sentence, `rtcm` telling which) returns as `r` and
/// leaves as `v2`: `None` when more bytes are needed, an out-of-memory error
/// (dropping the start character) when the frame can never fit, and the
/// frame bytes otherwise.
pub open spec fn raw_extract_post<'b>(
    v: Seq<u8>,
    u: nat,
    cap: nat,
    total: nat,
    rtcm: bool,
    r: Option<Result<AnyPacketRef<'b>, ParserError>>,
    v2: Seq<u8>,
) -> bool {
    if !can_drain_and_take_spec(u, (v.len() - u) as nat, cap, 0, total) {
        if v.len() > cap {
            &&& r == Some(Err::<AnyPacketRef<'b>, ParserError>(ParserError::OutOfMemory { required_size: total as usize }))
            &&& v2 == v.skip(1)
        } else {
            &&& r is None
            &&& v2 == v
        }
    } else {
        &&& v2 == v.skip(total as int)
        &&& match r {
            Some(Ok(AnyPacketRef::Rtcm(p))) => rtcm && p.data@ == v.take(total as int),
            Some(Ok(AnyPacketRef::Nmea(p))) => !rtcm && p.data@ == v.take(total as int),
            _ => false,
        }
    }
}

/// What one step of an iterator in `mode` returns as `r` and leaves as
/// `v2`, from a view `v` whose first `u` bytes lie in the underlying buffer
/// of capacity `cap`: the resynchronisation drops leading bytes, then the
/// frame found there is extracted.
pub open spec fn next_post<'b, P: UbxProtocol>(
    v: Seq<u8>,
    u: nat,
    cap: nat,
    mode: ScanMode,
    r: Option<Result<AnyPacketRef<'b>, ParserError>>,
    v2: Seq<u8>,
) -> bool {
    let (d, o) = scan_frames(v, P::MAX_PAYLOAD_LEN, mode);
    let w = v.skip(d as int);
    let u2 = rest_after_drop(u, d);
    match o {
        FrameSearch::Ubx(pack_len) => ubx_extract_post::<P>(w, u2, cap, pack_len, r, v2),
        FrameSearch::Rtcm(pack_len) => raw_extract_post(w, u2, cap, (pack_len + 3) as nat, true, r, v2),
        FrameSearch::Nmea(pack_len) => raw_extract_post(w, u2, cap, pack_len as nat, false, r, v2),
        FrameSearch::Incomplete => r is None && v2 == w,
        FrameSearch::NmeaAbandoned => r is None && v2 == w.skip(1),
        FrameSearch::Exhausted | FrameSearch::NmeaOverlong => r is None && v2 == Seq::<u8>::empty(),
    }
}

/// The lengths (unconsumed part, whole contents) of an underlying buffer
/// holding `b` bytes, `u` of them unconsumed, after `n` bytes are dropped
/// from the front of the view.
pub open spec fn drain_state(u: nat, b: nat, n: nat) -> (nat, nat) {
    (rest_after_drop(u, n), b)
}

/// The lengths (unconsumed part, whole contents) of the underlying buffer
/// after extracting a UBX frame with a payload of `pack_len` bytes from a
/// view `v` whose underlying buffer of capacity `cap` holds `b` bytes, the
/// first `u` bytes of `v` among them.
pub open spec fn ubx_extract_state(v: Seq<u8>, u: nat, b: nat, cap: nat, pack_len: u16) -> (nat, nat) {
    let total = pack_len + 2;
    if !can_drain_and_take_spec(u, (v.len() - u) as nat, cap, 6, total as nat) {
        if v.len() > cap {
            drain_state(u, b, 2)
        } else {
            (u, b)
        }
    } else {
        match frame_checksum_verdict(v, pack_len) {
            Err(_) => drain_state(u, b, 2),
            Ok(_) => {
                let u1 = rest_after_drop(u, 6);
                take_state(u1, b, (v.len() - 6 - u1) as nat, cap, total as nat)
            },
        }
    }
}

/// The lengths (unconsumed part, whole contents) of the underlying buffer
/// after extracting a frame of `total` bytes that is not checksummed, in the
/// same setting as [ubx_extract_state].
pub open spec fn raw_extract_state(v: Seq<u8>, u: nat, b: nat, cap: nat, total: nat) -> (nat, nat) {
    if !can_drain_and_take_spec(u, (v.len() - u) as nat, cap, 0, total) {
        if v.len() > cap {
            drain_state(u, b, 1)
        } else {
            (u, b)
        }
    } else {
        take_state(u, b, (v.len() - u) as nat, cap, total)
    }
}

/// The lengths (unconsumed part, whole contents) of the underlying buffer
/// after one step of an iterator in `mode`, in the setting of [next_post]
/// with an underlying buffer holding `b` bytes.
pub open spec fn next_state<P: UbxProtocol>(v: Seq<u8>, u: nat, b: nat, cap: nat, mode: ScanMode) -> (
    nat,
    nat,
) {
    let (d, o) = scan_frames(v, P::MAX_PAYLOAD_LEN, mode);
    let w = v.skip(d as int);
    let u2 = rest_after_drop(u, d);
    match o {
        FrameSearch::Ubx(pack_len) => ubx_extract_state(w, u2, b, cap, pack_len),
        FrameSearch::Rtcm(pack_len) => raw_extract_state(w, u2, b, cap, (pack_len + 3) as nat),
        FrameSearch::Nmea(pack_len) => raw_extract_state(w, u2, b, cap, pack_len as nat),
        FrameSearch::Incomplete => (u2, b),
        FrameSearch::NmeaAbandoned => drain_state(u2, b, 1),
        FrameSearch::Exhausted | FrameSearch::NmeaOverlong => (0, b),
    }
}

/// Extracts the UBX frame at the head of `buf`, whose header announces a
/// payload of `pack_len` bytes. Returns `None` when more bytes are needed,
/// an out-of-memory error (dropping the sync characters) when the frame can
/// never fit, a checksum error (dropping the sync characters) when the
/// checksum does not match, and otherwise the matched packet, consuming the
/// frame.
pub fn extract_packet_ubx<'b, 'a, T: UnderlyingBuffer, P: UbxProtocol>(
    buf: &'b mut DualBuffer<'a, T>,
    pack_len: u16,
) -> (r: Option<Result<UbxPacket<'b>, ParserError>>)
    requires
        old(buf).well_formed(),
        UBX_HEADER_LEN <= old(buf)@.len(),
    ensures
        final(buf).well_formed(),
        final(buf).capacity() == old(buf).capacity(),
        final(buf).new_buf == old(buf).new_buf,
        *final(final(buf).buf) == *final(old(buf).buf),
        ubx_extract_post::<P>(
            old(buf)@,
            old(buf).underlying_rest().len(),
            old(buf).capacity(),
            pack_len,
            lift_ubx(r),
            final(buf)@,
        ),
        (final(buf).underlying_rest().len(), final(buf).buf.contents().len()) == ubx_extract_state(
            old(buf)@,
            old(buf).underlying_rest().len(),
            old(buf).buf.contents().len(),
            old(buf).capacity(),
            pack_len,
        ),
{
    let total = pack_len as usize + UBX_CHECKSUM_LEN;
    if !buf.can_drain_and_take(UBX_HEADER_LEN, total) {
        if buf.potential_lost_bytes() > 0 {
            // We ran out of space, drop this packet and move on
            buf.drain(UBX_SYNC_SIZE);
            return Some(Err(ParserError::OutOfMemory { required_size: total }));
        }
        return None;
    }
    match UbxChecksumCalc::validate_buffer(buf, pack_len) {
        Err(checksum_error) => {
            buf.drain(UBX_SYNC_SIZE);
            return Some(Err(checksum_error));
        },
        Ok(()) => {},
    }
    let ghost v = buf@;
    let class_id = buf.at(UBX_CLASS_OFFSET);
    let msg_id = buf.at(UBX_MSG_ID_OFFSET);
    buf.drain(UBX_HEADER_LEN);
    let msg_data = match buf.take(total) {
        Ok(x) => x,
        Err(e) => {
            return Some(Err(e));
        },
    };
    let payload = slice_subrange(msg_data, 0, msg_data.len() - UBX_CHECKSUM_LEN);
    proof {
        assert(payload@ =~= v.subrange(6, 6 + pack_len));
        assert(v.skip(6).skip(total as int) =~= v.skip(8 + pack_len));
    }
    Some(P::match_packet(class_id, msg_id, payload))
}

/// Extracts the frame of `total` bytes that starts `buf`, with no checksum
/// to verify; `rtcm` tells which kind of packet to make of it.
fn extract_raw<'b, 'a, T: UnderlyingBuffer>(
    buf: &'b mut DualBuffer<'a, T>,
    total: usize,
    rtcm: bool,
) -> (r: Option<Result<AnyPacketRef<'b>, ParserError>>)
    requires
        old(buf).well_formed(),
    ensures
        final(buf).well_formed(),
        final(buf).capacity() == old(buf).capacity(),
        final(buf).new_buf == old(buf).new_buf,
        *final(final(buf).buf) == *final(old(buf).buf),
        raw_extract_post(
            old(buf)@,
            old(buf).underlying_rest().len(),
            old(buf).capacity(),
            total as nat,
            rtcm,
            r,
            final(buf)@,
        ),
        (final(buf).underlying_rest().len(), final(buf).buf.contents().len()) == raw_extract_state(
            old(buf)@,
            old(buf).underlying_rest().len(),
            old(buf).buf.contents().len(),
            old(buf).capacity(),
            total as nat,
        ),
{
    if !buf.can_drain_and_take(0, total) {
        if buf.potential_lost_bytes() > 0 {
            // We ran out of space, drop this packet and move on; only the
            // start character goes, so that another frame can be found
            buf.drain(1);
            return Some(Err(ParserError::OutOfMemory { required_size: total }));
        }
        return None;
    }
    match buf.take(total) {
        Ok(data) => if rtcm {
            Some(Ok(AnyPacketRef::Rtcm(RtcmPacketRef { data })))
        } else {
            Some(Ok(AnyPacketRef::Nmea(NmeaPacketRef { data })))
        },
        Err(e) => Some(Err(e)),
    }
}

/// Extracts the RTCM3 frame at the head of `buf`, whose header announces a
/// message of `pack_len` bytes: the frame is the three header bytes and the
/// message.
pub fn extract_packet_rtcm<'b, 'a, T: UnderlyingBuffer>(
    buf: &'b mut DualBuffer<'a, T>,
    pack_len: u16,
) -> (r: Option<Result<AnyPacketRef<'b>, ParserError>>)
    requires
        old(buf).well_formed(),
    ensures
        final(buf).well_formed(),
        final(buf).capacity() == old(buf).capacity(),
        final(buf).new_buf == old(buf).new_buf,
        *final(final(buf).buf) == *final(old(buf).buf),
        raw_extract_post(
            old(buf)@,
            old(buf).underlying_rest().len(),
            old(buf).capacity(),
            (pack_len + 3) as nat,
            true,
            r,
            final(buf)@,
        ),
        (final(buf).underlying_rest().len(), final(buf).buf.contents().len()) == raw_extract_state(
            old(buf)@,
            old(buf).underlying_rest().len(),
            old(buf).buf.contents().len(),
            old(buf).capacity(),
            (pack_len + 3) as nat,
        ),
{
    extract_raw(buf, pack_len as usize + RTCM_HEADER_SIZE, true)
}

/// Extracts the NMEA sentence of `pack_len` bytes at the head of `buf`.
pub fn extract_packet_nmea<'b, 'a, T: UnderlyingBuffer>(
    buf: &'b mut DualBuffer<'a, T>,
    pack_len: u16,
) -> (r: Option<Result<AnyPacketRef<'b>, ParserError>>)
    requires
        old(buf).well_formed(),
    ensures
        final(buf).well_formed(),
        final(buf).capacity() == old(buf).capacity(),
        final(buf).new_buf == old(buf).new_buf,
        *final(final(buf).buf) == *final(old(buf).buf),
        raw_extract_post(
            old(buf)@,
            old(buf).underlying_rest().len(),
            old(buf).capacity(),
            pack_len as nat,
            false,
            r,
            final(buf)@,
        ),
        (final(buf).underlying_rest().len(), final(buf).buf.contents().len()) == raw_extract_state(
            old(buf)@,
            old(buf).underlying_rest().len(),
            old(buf).buf.contents().len(),
            old(buf).capacity(),
            pack_len as nat,
        ),
{
    extract_raw(buf, pack_len as usize, false)
}

/// The next frame start that an iterator found, and its kind.
enum NextSync {
    Ubx(usize),
    Rtcm(usize),
    Nmea(usize),
    Absent,
}

/// Finds the first frame start of a kind that `mode` looks for at index
/// `min_idx` or later.
fn find_sync<'a, T: UnderlyingBuffer>(buf: &DualBuffer<'a, T>, mode: ScanMode, min_idx: usize) -> (r: NextSync)
    requires
        buf.well_formed(),
    ensures
        match r {
            NextSync::Ubx(i) => min_idx <= i < buf@.len() && buf@[i as int] == UBX_SYNC_CHAR_1,
            NextSync::Rtcm(i) => min_idx <= i < buf@.len() && buf@[i as int] == RTCM_SYNC_CHAR
                && mode != ScanMode::Ubx,
            NextSync::Nmea(i) => min_idx <= i < buf@.len() && buf@[i as int] == NMEA_SYNC_CHAR
                && mode == ScanMode::UbxRtcmNmea,
            NextSync::Absent => forall|j: int| min_idx <= j < buf@.len() ==> !is_sync(mode, #[trigger] buf@[j]),
        },
        forall|j: int|
            min_idx <= j < match r {
                NextSync::Ubx(i) => i as int,
                NextSync::Rtcm(i) => i as int,
                NextSync::Nmea(i) => i as int,
                NextSync::Absent => buf@.len() as int,
            } ==> !is_sync(mode, #[trigger] buf@[j]),
{
    let n = buf.len();
    let mut i: usize = min_idx;
    while i < n
        invariant
            buf.well_formed(),
            n == buf@.len(),
            min_idx <= i || n <= i,
            forall|j: int| min_idx <= j < i && j < n ==> !is_sync(mode, #[trigger] buf@[j]),
        decreases n - i,
    {
        let b = buf.at(i);
        if b == UBX_SYNC_CHAR_1 {
            return NextSync::Ubx(i);
        }
        if mode != ScanMode::Ubx && b == RTCM_SYNC_CHAR {
            return NextSync::Rtcm(i);
        }
        if mode == ScanMode::UbxRtcmNmea && b == NMEA_SYNC_CHAR {
            return NextSync::Nmea(i);
        }
        i = i + 1;
    }
    NextSync::Absent
}

/// Finds the first NMEA end-character pair in the bytes of `buf`.
fn find_crlf<'a, T: UnderlyingBuffer>(buf: &DualBuffer<'a, T>) -> (r: Option<usize>)
    requires
        buf.well_formed(),
    ensures
        match r {
            Some(i) => first_pair(buf@, NMEA_END_CHAR_1, NMEA_END_CHAR_2) == Some(i as int) && i + 1 < buf@.len(),
            None => first_pair(buf@, NMEA_END_CHAR_1, NMEA_END_CHAR_2) is None,
        },
{
    let n = buf.len();
    if n < 2 {
        proof {
            lemma_no_pair(buf@, NMEA_END_CHAR_1, NMEA_END_CHAR_2);
        }
        return None;
    }
    let mut i: usize = 0;
    while i < n - 1
        invariant
            buf.well_formed(),
            n == buf@.len(),
            2 <= n,
            i <= n - 1,
            forall|j: int| 0 <= j < i ==> !is_pair_at(buf@, j, NMEA_END_CHAR_1, NMEA_END_CHAR_2),
        decreases n - i,
    {
        if buf.at(i) == NMEA_END_CHAR_1 && buf.at(i + 1) == NMEA_END_CHAR_2 {
            proof {
                lemma_first_pair(buf@, NMEA_END_CHAR_1, NMEA_END_CHAR_2, i as int);
            }
            return Some(i);
        }
        i = i + 1;
    }
    proof {
        lemma_no_pair(buf@, NMEA_END_CHAR_1, NMEA_END_CHAR_2);
    }
    None
}

/// What stands at the head of the bytes, which start with a frame start.
enum HeadStep {
    /// More bytes are needed to tell.
    NeedMore,
    /// The first bytes start no frame and are to be dropped.
    Skip(usize),
    /// A UBX frame with a payload of the given length.
    Ubx(u16),
    /// An RTCM3 frame with a message of the given length.
    Rtcm(u16),
    /// An NMEA sentence of the given length.
    Nmea(u16),
    /// An unterminated NMEA sentence cut short by another frame start.
    NmeaAbandoned,
    /// An unterminated NMEA sentence longer than any sentence may be.
    NmeaOverlong,
}

/// Reads the header of the frame at the head of `buf`: one step of the
/// resynchronisation.
fn head_step<'a, T: UnderlyingBuffer>(buf: &DualBuffer<'a, T>, max_len: u16, mode: ScanMode) -> (r: HeadStep)
    requires
        buf.well_formed(),
        buf@.len() > 0,
        is_sync(mode, buf@[0]),
    ensures
        ({
            let v = buf@;
            match r {
                HeadStep::NeedMore => scan_frames(v, max_len, mode) == (0nat, FrameSearch::Incomplete),
                HeadStep::Skip(n) => {
                    &&& 1 <= n <= 2
                    &&& n <= v.len()
                    &&& scan_frames(v, max_len, mode) == (
                        scan_frames(v.skip(n as int), max_len, mode).0 + n as nat,
                        scan_frames(v.skip(n as int), max_len, mode).1,
                    )
                },
                HeadStep::Ubx(pl) => {
                    &&& scan_frames(v, max_len, mode) == (0nat, FrameSearch::Ubx(pl))
                    &&& UBX_HEADER_LEN <= v.len()
                },
                HeadStep::Rtcm(pl) => scan_frames(v, max_len, mode) == (0nat, FrameSearch::Rtcm(pl)),
                HeadStep::Nmea(pl) => scan_frames(v, max_len, mode) == (0nat, FrameSearch::Nmea(pl)),
                HeadStep::NmeaAbandoned => scan_frames(v, max_len, mode) == (
                    0nat,
                    FrameSearch::NmeaAbandoned,
                ),
                HeadStep::NmeaOverlong => scan_frames(v, max_len, mode) == (
                    0nat,
                    FrameSearch::NmeaOverlong,
                ),
            }
        }),
{
    let head = buf.at(0);
    if head == UBX_SYNC_CHAR_1 {
        if buf.len() < UBX_SYNC_SIZE {
            return HeadStep::NeedMore;
        }
        if buf.at(1) != UBX_SYNC_CHAR_2 {
            return HeadStep::Skip(1);
        }
        if buf.len() < UBX_HEADER_LEN {
            return HeadStep::NeedMore;
        }
        let lo = buf.at(UBX_LENGTH_OFFSET);
        let hi = buf.at(UBX_LENGTH_OFFSET + 1);
        let pack_len = crate::checksum::u16_from_le(lo, hi);
        if pack_len > max_len {
            return HeadStep::Skip(UBX_SYNC_SIZE);
        }
        HeadStep::Ubx(pack_len)
    } else if head == RTCM_SYNC_CHAR {
        if buf.len() < RTCM_HEADER_SIZE {
            return HeadStep::NeedMore;
        }
        // the next two bytes hold six reserved bits and the ten-bit length,
        // big endian
        let b1 = buf.at(1);
        let b2 = buf.at(2);
        HeadStep::Rtcm(((b1 % 4) as u16) * 256 + (b2 as u16))
    } else {
        if buf.len() < NMEA_MIN_BUFFER_SIZE {
            return HeadStep::NeedMore;
        }
        // the sentence ends at the first end-character pair, both included
        match find_crlf(buf) {
            Some(i) => HeadStep::Nmea(#[verifier::truncate] ((i + NMEA_END_CHARS_LEN) as u16)),
            None => match find_sync(buf, mode, 1) {
                NextSync::Absent => if buf.len() > NMEA_MAX_SENTENCE_LENGTH {
                    HeadStep::NmeaOverlong
                } else {
                    HeadStep::NeedMore
                },
                _ => HeadStep::NmeaAbandoned,
            },
        }
    }
}

/// A UBX packet length that the scan can rely on never exceeds what the
/// iterator looks for, and a mode that looks for UBX frames only finds
/// nothing else.
pub proof fn lemma_scan_ubx_only(v: Seq<u8>, max_len: u16)
    ensures
        ({
            let o = scan_frames(v, max_len, ScanMode::Ubx).1;
            o is Ubx || o is Incomplete || o is Exhausted
        }),
    decreases v.len(),
{
    if v.len() > 0 {
        lemma_scan_ubx_only(v.skip(1), max_len);
        if v.len() >= 2 {
            lemma_scan_ubx_only(v.skip(2), max_len);
        }
    }
}

/// One step of the iterators: resynchronises on the next frame start of a
/// kind that `mode` looks for, then extracts that frame.
#[verifier::rlimit(60)]
#[verifier::spinoff_prover]
fn next_frame<'b, 'a, T: UnderlyingBuffer, P: UbxProtocol>(
    buf: &'b mut DualBuffer<'a, T>,
    mode: ScanMode,
) -> (r: Option<Result<AnyPacketRef<'b>, ParserError>>)
    requires
        old(buf).well_formed(),
    ensures
        final(buf).well_formed(),
        final(buf).capacity() == old(buf).capacity(),
        final(buf).new_buf == old(buf).new_buf,
        *final(final(buf).buf) == *final(old(buf).buf),
        next_post::<P>(
            old(buf)@,
            old(buf).underlying_rest().len(),
            old(buf).capacity(),
            mode,
            r,
            final(buf)@,
        ),
        (final(buf).underlying_rest().len(), final(buf).buf.contents().len()) == next_state::<P>(
            old(buf)@,
            old(buf).underlying_rest().len(),
            old(buf).buf.contents().len(),
            old(buf).capacity(),
            mode,
        ),
{
    let ghost v0 = buf@;
    let ghost u0 = buf.underlying_rest().len();
    let ghost mut k: nat = 0;
    loop
        invariant
            buf.well_formed(),
            buf.capacity() == old(buf).capacity(),
            buf.new_buf == old(buf).new_buf,
            *final(buf.buf) == *final(old(buf).buf),
            v0 == old(buf)@,
            u0 == old(buf).underlying_rest().len(),
            k <= v0.len(),
            buf@ == v0.skip(k as int),
            buf.underlying_rest().len() == rest_after_drop(u0, k),
            buf.buf.contents().len() == old(buf).buf.contents().len(),
            scan_frames(v0, P::MAX_PAYLOAD_LEN, mode) == (
                scan_frames(buf@, P::MAX_PAYLOAD_LEN, mode).0 + k,
                scan_frames(buf@, P::MAX_PAYLOAD_LEN, mode).1,
            ),
        decreases buf@.len(),
    {
        if buf.len() == 0 {
            assert(scan_frames(buf@, P::MAX_PAYLOAD_LEN, mode) == (0nat, FrameSearch::Exhausted));
            assert(v0.skip(k as int) =~= Seq::<u8>::empty());
            return None;
        }
        let ns = find_sync(buf, mode, 0);
        let pos = match ns {
            NextSync::Ubx(p) => p,
            NextSync::Rtcm(p) => p,
            NextSync::Nmea(p) => p,
            NextSync::Absent => {
                proof {
                    lemma_scan_no_sync(buf@, P::MAX_PAYLOAD_LEN, mode);
                }
                buf.clear();
                return None;
            },
        };
        proof {
            let w = buf@;
            assert(is_sync(mode, w[pos as int]));
            lemma_scan_skip(w, P::MAX_PAYLOAD_LEN, mode, pos as int);
            assert(w.skip(pos as int) =~= v0.skip((k + pos) as int));
        }
        buf.drain(pos);
        proof {
            k = k + pos as nat;
        }
        match head_step(buf, P::MAX_PAYLOAD_LEN, mode) {
            HeadStep::NeedMore => {
                return None;
            },
            HeadStep::Skip(n) => {
                proof {
                    assert(buf@.skip(n as int) =~= v0.skip((k + n) as int));
                    k = k + n as nat;
                }
                buf.drain(n);
            },
            HeadStep::Ubx(pack_len) => {
                let res = extract_packet_ubx::<T, P>(buf, pack_len);
                return match res {
                    Some(Ok(packet)) => Some(Ok(AnyPacketRef::Ubx(packet))),
                    Some(Err(e)) => Some(Err(e)),
                    None => None,
                };
            },
            HeadStep::Rtcm(pack_len) => {
                return extract_packet_rtcm(buf, pack_len);
            },
            HeadStep::Nmea(pack_len) => {
                return extract_packet_nmea(buf, pack_len);
            },
            HeadStep::NmeaAbandoned => {
                // another frame starts before the sentence ends: drop its
                // start character
                buf.drain(1);
                return None;
            },
            HeadStep::NmeaOverlong => {
                // maximum sentence length exceeded
                buf.clear();
                return None;
            },
        }
    }
}

/// A UBX frame whose payload length the protocol accepts, at the head of
/// the bytes of an iterator, is read back as the packet matched from its
/// class, id and payload, and the iterator goes on with the bytes after it,
/// whenever the frame can be handed out in one piece (always, when none of
/// its bytes wait in the underlying buffer).
pub proof fn lemma_next_reads_built_frame<'b, P: UbxProtocol>(
    class: u8,
    msg_id: u8,
    payload: Seq<u8>,
    rest: Seq<u8>,
    u: nat,
    cap: nat,
    mode: ScanMode,
    r: Option<Result<AnyPacketRef<'b>, ParserError>>,
    v2: Seq<u8>,
)
    requires
        payload.len() <= P::MAX_PAYLOAD_LEN,
        u <= 8 + payload.len() + rest.len(),
        u == 0 || can_drain_and_take_spec(
            u,
            (8 + payload.len() + rest.len() - u) as nat,
            cap,
            6,
            (payload.len() + 2) as nat,
        ),
        next_post::<P>(ubx_frame(class, msg_id, payload) + rest, u, cap, mode, r, v2),
    ensures
        v2 == rest,
        exists|s: &'b [u8]| s@ == payload && r == lift_ubx(Some(P::spec_match_packet(class, msg_id, s))),
{
    let v = ubx_frame(class, msg_id, payload) + rest;
    let n = payload.len() as int;
    lemma_ubx_frame_layout(class, msg_id, payload, rest);
    assert(v.skip(0) =~= v);
    assert(scan_frames(v, P::MAX_PAYLOAD_LEN, mode) == (0nat, FrameSearch::Ubx(n as u16)));
}

/// The bytes of an RTCM3 frame carrying the message `msg`: the preamble, the
/// ten-bit message length big-endian in the next two bytes, then the
/// message (its checksum, if any, counted in the message).
pub open spec fn rtcm_frame(msg: Seq<u8>) -> Seq<u8> {
    seq![RTCM_SYNC_CHAR, (msg.len() / 256) as u8, (msg.len() % 256) as u8] + msg
}

/// An RTCM3 frame whose message is shorter than 1024 bytes, at the head of
/// the bytes of an iterator that looks for RTCM3 frames, is handed out
/// whole (all `msg.len() + 3` bytes), and the iterator goes on with the
/// bytes after it, whenever the frame can be handed out in one piece
/// (always, when none of its bytes wait in the underlying buffer).
pub proof fn lemma_next_reads_built_rtcm_frame<'b, P: UbxProtocol>(
    msg: Seq<u8>,
    rest: Seq<u8>,
    u: nat,
    cap: nat,
    mode: ScanMode,
    r: Option<Result<AnyPacketRef<'b>, ParserError>>,
    v2: Seq<u8>,
)
    requires
        msg.len() < 1024,
        mode != ScanMode::Ubx,
        u <= 3 + msg.len() + rest.len(),
        u == 0 || can_drain_and_take_spec(u, (3 + msg.len() + rest.len() - u) as nat, cap, 0, (msg.len() + 3) as nat),
        next_post::<P>(rtcm_frame(msg) + rest, u, cap, mode, r, v2),
    ensures
        scan_frames(rtcm_frame(msg) + rest, P::MAX_PAYLOAD_LEN, mode) == (0nat, FrameSearch::Rtcm(msg.len() as u16)),
        v2 == rest,
        r matches Some(Ok(AnyPacketRef::Rtcm(p))) && p.data@ == rtcm_frame(msg),
{
    let v = rtcm_frame(msg) + rest;
    let n = msg.len();
    assert(v[0] == RTCM_SYNC_CHAR);
    assert(v[1] == (n / 256) as u8);
    assert(v[2] == (n % 256) as u8);
    assert(((n / 256) as u8) as int % 4 == n / 256);
    assert(rtcm_len(v) == n as u16);
    assert(v.skip(0) =~= v);
    assert(v.take((n + 3) as int) =~= rtcm_frame(msg));
    assert(v.skip((n + 3) as int) =~= rest);
}

/// Index, in the underlying bytes followed by `new_data`, of the first frame
/// start of a kind that `mode` looks for; zero when there is none.
fn first_sync_index<T: UnderlyingBuffer>(buf: &T, new_data: &[u8], mode: ScanMode) -> (r: usize)
    requires
        buf.well_formed(),
        buf.contents().len() + new_data@.len() <= usize::MAX,
    ensures
        r <= buf.contents().len() + new_data@.len(),
        (buf.contents() + new_data@).skip(r as int) == skip_to_sync(buf.contents() + new_data@, mode),
{
    let ghost v = buf.contents() + new_data@;
    let blen = buf.len();
    let n = new_data.len();
    let mut i: usize = 0;
    while i < blen + n
        invariant
            blen == buf.contents().len(),
            n == new_data@.len(),
            v == buf.contents() + new_data@,
            blen + n <= usize::MAX,
            i <= blen + n,
            buf.well_formed(),
            forall|j: int| 0 <= j < i ==> !is_sync(mode, #[trigger] v[j]),
        decreases blen + n - i,
    {
        let x = if i < blen {
            buf.at(i)
        } else {
            new_data[i - blen]
        };
        if x == UBX_SYNC_CHAR_1 || (mode != ScanMode::Ubx && x == RTCM_SYNC_CHAR) || (mode
            == ScanMode::UbxRtcmNmea && x == NMEA_SYNC_CHAR) {
            proof {
                lemma_skip_to_sync(v, mode, i as int);
            }
            return i;
        }
        i = i + 1;
    }
    proof {
        lemma_skip_to_sync_none(v, mode);
        assert(v.skip(0) =~= v);
    }
    0
}

/// A compile-time builder for parsers with different buffer types and
/// protocols: all configuration lies in the type.
pub struct ParserBuilder<P: UbxProtocol = DefaultProtocol> {
    _phantom: PhantomData<P>,
}

impl ParserBuilder<DefaultProtocol> {
    /// A builder for the default protocol.
    pub fn new() -> (r: Self) {
        Self { _phantom: PhantomData }
    }
}

impl<P: UbxProtocol> ParserBuilder<P> {
    /// Specify a protocol version.
    pub fn with_protocol<NewP: UbxProtocol>(self) -> (r: ParserBuilder<NewP>) {
        ParserBuilder { _phantom: PhantomData }
    }

    /// Build a parser with a `Vec<u8>` buffer.
    pub fn with_vec_buffer(self) -> (r: Parser<Vec<u8>, P>)
        ensures
            r.buffer()@ == Seq::<u8>::empty(),
    {
        Parser::new(Vec::new())
    }

    /// Build a parser with a fixed-size buffer of `N` bytes.
    pub fn with_fixed_buffer<const N: usize>(self) -> (r: Parser<FixedBuffer<N>, P>)
        ensures
            r.buffer().well_formed(),
            r.buffer().contents() == Seq::<u8>::empty(),
            r.buffer().capacity() == N,
    {
        Parser::with_fixed_buffer()
    }

    /// Build a parser with a buffer of the caller's.
    pub fn with_buffer<T: UnderlyingBuffer>(self, buffer: T) -> (r: Parser<T, P>)
        ensures
            r.buffer() == buffer,
    {
        Parser::new(buffer)
    }
}

/// Streaming parser for the UBX protocol, with a buffer that keeps the bytes
/// of an incomplete frame between calls.
pub struct Parser<T: UnderlyingBuffer, P: UbxProtocol = DefaultProtocol> {
    buf: T,
    _phantom: PhantomData<P>,
}

impl<T: UnderlyingBuffer, P: UbxProtocol> Parser<T, P> {
    /// The buffer of the parser.
    pub closed spec fn buffer(&self) -> T {
        self.buf
    }

    /// A parser that keeps its bytes in `underlying`.
    pub fn new(underlying: T) -> (r: Self)
        ensures
            r.buffer() == underlying,
    {
        Self { buf: underlying, _phantom: PhantomData }
    }

    /// Whether the buffer holds no bytes.
    pub fn is_buffer_empty(&self) -> (r: bool)
        requires
            self.buffer().well_formed(),
        ensures
            r == (self.buffer().contents().len() == 0),
    {
        self.buf.is_empty()
    }

    /// Returns the number of bytes in the buffer.
    pub fn buffer_len(&self) -> (r: usize)
        requires
            self.buffer().well_formed(),
        ensures
            r == self.buffer().contents().len(),
    {
        self.buf.len()
    }

    /// Returns the total number of bytes the buffer can hold.
    pub fn buffer_capacity(&self) -> (r: usize)
        requires
            self.buffer().well_formed(),
        ensures
            r == self.buffer().capacity(),
    {
        self.buf.max_capacity()
    }

    /// The bytes of the parser followed by `new_data`, with the bytes
    /// before the first frame start of a kind that `mode` looks for dropped.
    fn dual_from_sync<'a>(&'a mut self, new_data: &'a [u8], mode: ScanMode) -> (r: DualBuffer<'a, T>)
        requires
            old(self).buffer().well_formed(),
            old(self).buffer().contents().len() + new_data@.len() <= usize::MAX,
        ensures
            r.well_formed(),
            r.capacity() == old(self).buffer().capacity(),
            r.new_buf == new_data,
            r@ == skip_to_sync(old(self).buffer().contents() + new_data@, mode),
            final(self).buffer() == *final(r.buf),
            *r.buf == old(self).buffer(),
            r.underlying_rest().len() == rest_after_drop(
                old(self).buffer().contents().len(),
                (old(self).buffer().contents().len() + new_data@.len() - r@.len()) as nat,
            ),
    {
        let start = first_sync_index(&self.buf, new_data, mode);
        let blen = self.buf.len();
        let (off, new_off) = if start <= blen {
            (start, 0)
        } else {
            (blen, start - blen)
        };
        let _n = new_data.len();
        proof {
            let v = self.buf.contents() + new_data@;
            assert(self.buf.contents().skip(off as int) + new_data@.skip(new_off as int) =~= v.skip(
                start as int,
            ));
        }
        DualBuffer { buf: &mut self.buf, off, new_buf: new_data, new_buf_offset: new_off }
    }

    /// Appends `new_data` to the bytes of the parser and returns an iterator
    /// that yields UBX packets on demand. Bytes before the first UBX sync
    /// character are dropped. Call [UbxParserIter::finish] when done, so that
    /// the bytes not yet consumed are kept for the next call.
    pub fn consume_ubx<'a>(&'a mut self, new_data: &'a [u8]) -> (r: UbxParserIter<'a, T, P>)
        requires
            old(self).buffer().well_formed(),
            old(self).buffer().contents().len() + new_data@.len() <= usize::MAX,
        ensures
            r.buf.well_formed(),
            r.buf.capacity() == old(self).buffer().capacity(),
            r.buf.new_buf == new_data,
            r.buf@ == skip_to_sync(old(self).buffer().contents() + new_data@, ScanMode::Ubx),
            final(self).buffer() == *final(r.buf.buf),
            *r.buf.buf == old(self).buffer(),
            r.buf.underlying_rest().len() == rest_after_drop(
                old(self).buffer().contents().len(),
                (old(self).buffer().contents().len() + new_data@.len() - r.buf@.len()) as nat,
            ),
    {
        let buf = self.dual_from_sync(new_data, ScanMode::Ubx);
        UbxParserIter { buf, _phantom: PhantomData }
    }

    /// Appends `new_data` to the bytes of the parser and returns an iterator
    /// that yields UBX packets and RTCM3 frames on demand.
    pub fn consume_ubx_rtcm<'a>(&'a mut self, new_data: &'a [u8]) -> (r: UbxRtcmParserIter<'a, T, P>)
        requires
            old(self).buffer().well_formed(),
            old(self).buffer().contents().len() + new_data@.len() <= usize::MAX,
        ensures
            r.buf.well_formed(),
            r.buf.capacity() == old(self).buffer().capacity(),
            r.buf.new_buf == new_data,
            r.buf@ == skip_to_sync(old(self).buffer().contents() + new_data@, ScanMode::UbxRtcm),
            final(self).buffer() == *final(r.buf.buf),
            *r.buf.buf == old(self).buffer(),
            r.buf.underlying_rest().len() == rest_after_drop(
                old(self).buffer().contents().len(),
                (old(self).buffer().contents().len() + new_data@.len() - r.buf@.len()) as nat,
            ),
    {
        let buf = self.dual_from_sync(new_data, ScanMode::UbxRtcm);
        UbxRtcmParserIter { buf, _phantom: PhantomData }
    }

    /// Appends `new_data` to the bytes of the parser and returns an iterator
    /// that yields UBX packets, RTCM3 frames and NMEA sentences on demand.
    pub fn consume_ubx_rtcm_nmea<'a>(&'a mut self, new_data: &'a [u8]) -> (r: UbxRtcmNmeaParserIter<'a, T, P>)
        requires
            old(self).buffer().well_formed(),
            old(self).buffer().contents().len() + new_data@.len() <= usize::MAX,
        ensures
            r.buf.well_formed(),
            r.buf.capacity() == old(self).buffer().capacity(),
            r.buf.new_buf == new_data,
            r.buf@ == skip_to_sync(old(self).buffer().contents() + new_data@, ScanMode::UbxRtcmNmea),
            final(self).buffer() == *final(r.buf.buf),
            *r.buf.buf == old(self).buffer(),
            r.buf.underlying_rest().len() == rest_after_drop(
                old(self).buffer().contents().len(),
                (old(self).buffer().contents().len() + new_data@.len() - r.buf@.len()) as nat,
            ),
    {
        let buf = self.dual_from_sync(new_data, ScanMode::UbxRtcmNmea);
        UbxRtcmNmeaParserIter { buf, _phantom: PhantomData }
    }
}

impl<const N: usize, P: UbxProtocol> Parser<FixedBuffer<N>, P> {
    /// A parser with an owned, fixed-size buffer of `N` bytes.
    pub fn with_fixed_buffer() -> (r: Self)
        ensures
            r.buffer().well_formed(),
            r.buffer().contents() == Seq::<u8>::empty(),
            r.buffer().capacity() == N,
    {
        Self::new(FixedBuffer::new())
    }
}

impl<const N: usize> Parser<FixedBuffer<N>, DefaultProtocol> {
    /// A parser with a fixed-size buffer of `N` bytes and the default
    /// protocol.
    pub fn new_fixed() -> (r: Self)
        ensures
            r.buffer().well_formed(),
            r.buffer().contents() == Seq::<u8>::empty(),
            r.buffer().capacity() == N,
    {
        Self::with_fixed_buffer()
    }
}

impl<P: UbxProtocol> Default for Parser<Vec<u8>, P> {
    /// A parser with an empty `Vec<u8>` buffer.
    fn default() -> (r: Self)
        ensures
            r.buffer()@ == Seq::<u8>::empty(),
    {
        Self::new(Vec::new())
    }
}

impl Parser<Vec<u8>, DefaultProtocol> {
    /// A parser with a `Vec<u8>` buffer and the default protocol.
    pub fn default_proto() -> (r: Self)
        ensures
            r.buffer()@ == Seq::<u8>::empty(),
    {
        Self { buf: Vec::new(), _phantom: PhantomData }
    }
}

/// Iterator over the bytes held by a [Parser] and the bytes handed to it,
/// yielding UBX packets.
///
/// Call `finish` when done with it: that hands the bytes not consumed back
/// to the parser for its next call. An iterator dropped without it does
/// not leave the parser's buffer holding the unconsumed bytes.
#[must_use]
pub struct UbxParserIter<'a, T: UnderlyingBuffer, P: UbxProtocol = DefaultProtocol> {
    pub buf: DualBuffer<'a, T>,
    pub _phantom: PhantomData<P>,
}

impl<'a, T: UnderlyingBuffer, P: UbxProtocol> UbxParserIter<'a, T, P> {
    /// Parse and return the next UBX packet, or `None` if the bytes cannot
    /// yield another full packet.
    pub fn next(&mut self) -> (r: Option<Result<UbxPacket<'_>, ParserError>>)
        requires
            old(self).buf.well_formed(),
        ensures
            final(self).buf.well_formed(),
            final(self).buf.capacity() == old(self).buf.capacity(),
            final(self).buf.new_buf == old(self).buf.new_buf,
            *final(final(self).buf.buf) == *final(old(self).buf.buf),
            next_post::<P>(
                old(self).buf@,
                old(self).buf.underlying_rest().len(),
                old(self).buf.capacity(),
                ScanMode::Ubx,
                lift_ubx(r),
                final(self).buf@,
            ),
            (final(self).buf.underlying_rest().len(), final(self).buf.buf.contents().len())
                == next_state::<P>(
                old(self).buf@,
                old(self).buf.underlying_rest().len(),
                old(self).buf.buf.contents().len(),
                old(self).buf.capacity(),
                ScanMode::Ubx,
            ),
    {
        proof {
            lemma_scan_ubx_only(self.buf@, P::MAX_PAYLOAD_LEN);
        }
        match next_frame::<T, P>(&mut self.buf, ScanMode::Ubx) {
            Some(Ok(AnyPacketRef::Ubx(packet))) => Some(Ok(packet)),
            Some(Ok(_)) => {
                proof {
                    assert(false);
                }
                None
            },
            Some(Err(e)) => Some(Err(e)),
            None => None,
        }
    }

    /// Hands the bytes not consumed back to the parser's buffer: those that
    /// fit are kept for the next call.
    pub fn finish(self)
        requires
            self.buf.well_formed(),
        ensures
            final(self.buf.buf).well_formed(),
            final(self.buf.buf).capacity() == self.buf.capacity(),
            final(self.buf.buf).contents() == self.buf@.take(
                if self.buf@.len() <= self.buf.capacity() {
                    self.buf@.len() as int
                } else {
                    self.buf.capacity() as int
                },
            ),
    {
        self.buf.finish();
    }
}

/// Iterator over the bytes held by a [Parser] and the bytes handed to it,
/// yielding UBX packets and RTCM3 frames.
///
/// Call `finish` when done with it: that hands the bytes not consumed back
/// to the parser for its next call. An iterator dropped without it does
/// not leave the parser's buffer holding the unconsumed bytes.
#[must_use]
pub struct UbxRtcmParserIter<'a, T: UnderlyingBuffer, P: UbxProtocol = DefaultProtocol> {
    pub buf: DualBuffer<'a, T>,
    pub _phantom: PhantomData<P>,
}

impl<'a, T: UnderlyingBuffer, P: UbxProtocol> UbxRtcmParserIter<'a, T, P> {
    /// Parse and return the next UBX packet or RTCM3 frame, or `None` if the
    /// bytes cannot yield another full one.
    pub fn next(&mut self) -> (r: Option<Result<AnyPacketRef<'_>, ParserError>>)
        requires
            old(self).buf.well_formed(),
        ensures
            final(self).buf.well_formed(),
            final(self).buf.capacity() == old(self).buf.capacity(),
            final(self).buf.new_buf == old(self).buf.new_buf,
            *final(final(self).buf.buf) == *final(old(self).buf.buf),
            next_post::<P>(
                old(self).buf@,
                old(self).buf.underlying_rest().len(),
                old(self).buf.capacity(),
                ScanMode::UbxRtcm,
                r,
                final(self).buf@,
            ),
            (final(self).buf.underlying_rest().len(), final(self).buf.buf.contents().len())
                == next_state::<P>(
                old(self).buf@,
                old(self).buf.underlying_rest().len(),
                old(self).buf.buf.contents().len(),
                old(self).buf.capacity(),
                ScanMode::UbxRtcm,
            ),
    {
        next_frame::<T, P>(&mut self.buf, ScanMode::UbxRtcm)
    }

    /// Hands the bytes not consumed back to the parser's buffer: those that
    /// fit are kept for the next call.
    pub fn finish(self)
        requires
            self.buf.well_formed(),
        ensures
            final(self.buf.buf).well_formed(),
            final(self.buf.buf).capacity() == self.buf.capacity(),
            final(self.buf.buf).contents() == self.buf@.take(
                if self.buf@.len() <= self.buf.capacity() {
                    self.buf@.len() as int
                } else {
                    self.buf.capacity() as int
                },
            ),
    {
        self.buf.finish();
    }
}

/// Iterator over the bytes held by a [Parser] and the bytes handed to it,
/// yielding UBX packets, RTCM3 frames and NMEA sentences.
///
/// Call `finish` when done with it: that hands the bytes not consumed back
/// to the parser for its next call. An iterator dropped without it does
/// not leave the parser's buffer holding the unconsumed bytes.
#[must_use]
pub struct UbxRtcmNmeaParserIter<'a, T: UnderlyingBuffer, P: UbxProtocol = DefaultProtocol> {
    pub buf: DualBuffer<'a, T>,
    pub _phantom: PhantomData<P>,
}

impl<'a, T: UnderlyingBuffer, P: UbxProtocol> UbxRtcmNmeaParserIter<'a, T, P> {
    /// Parse and return the next UBX packet, RTCM3 frame or NMEA sentence,
    /// or `None` if the bytes cannot yield another full one.
    pub fn next(&mut self) -> (r: Option<Result<AnyPacketRef<'_>, ParserError>>)
        requires
            old(self).buf.well_formed(),
        ensures
            final(self).buf.well_formed(),
            final(self).buf.capacity() == old(self).buf.capacity(),
            final(self).buf.new_buf == old(self).buf.new_buf,
            *final(final(self).buf.buf) == *final(old(self).buf.buf),
            next_post::<P>(
                old(self).buf@,
                old(self).buf.underlying_rest().len(),
                old(self).buf.capacity(),
                ScanMode::UbxRtcmNmea,
                r,
                final(self).buf@,
            ),
            (final(self).buf.underlying_rest().len(), final(self).buf.buf.contents().len())
                == next_state::<P>(
                old(self).buf@,
                old(self).buf.underlying_rest().len(),
                old(self).buf.buf.contents().len(),
                old(self).buf.capacity(),
                ScanMode::UbxRtcmNmea,
            ),
    {
        next_frame::<T, P>(&mut self.buf, ScanMode::UbxRtcmNmea)
    }

    /// Hands the bytes not consumed back to the parser's buffer: those that
    /// fit are kept for the next call.
    pub fn finish(self)
        requires
            self.buf.well_formed(),
        ensures
            final(self.buf.buf).well_formed(),
            final(self.buf.buf).capacity() == self.buf.capacity(),
            final(self.buf.buf).contents() == self.buf@.take(
                if self.buf@.len() <= self.buf.capacity() {
                    self.buf@.len() as int
                } else {
                    self.buf.capacity() as int
                },
            ),
    {
        self.buf.finish();
    }
}

} // verus!
