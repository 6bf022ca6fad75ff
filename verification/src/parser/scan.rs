use vstd::prelude::*;

use crate::constants::{
    NMEA_END_CHAR_1, NMEA_END_CHAR_2, NMEA_MAX_SENTENCE_LENGTH, NMEA_MIN_BUFFER_SIZE,
    NMEA_SYNC_CHAR, RTCM_HEADER_SIZE, RTCM_SYNC_CHAR, UBX_HEADER_LEN, UBX_SYNC_CHAR_1,
    UBX_SYNC_CHAR_2,
};
use crate::ubx_packets::bytes_le::le_u16;

verus! {

/// Which frame kinds an iterator looks for.
#[derive(Debug, Copy, Clone, PartialEq, Eq, Structural)]
pub enum ScanMode {
    /// UBX frames only.
    Ubx,
    /// UBX and RTCM3 frames.
    UbxRtcm,
    /// UBX and RTCM3 frames and NMEA sentences.
    UbxRtcmNmea,
}

/// What the search for the next frame at the head of the bytes found.
#[derive(Debug, Copy, Clone, PartialEq, Eq, Structural)]
pub enum FrameSearch {
    /// No further frame start: every byte is discarded.
    Exhausted,
    /// A frame may start here, but more bytes are needed to be sure.
    Incomplete,
    /// A UBX frame header announcing a payload of the given length.
    Ubx(u16),
    /// An RTCM3 frame header announcing a message of the given length.
    Rtcm(u16),
    /// An NMEA sentence of the given length, end characters included.
    Nmea(u16),
    /// An unterminated NMEA sentence followed by another frame start: its
    /// start character is discarded.
    NmeaAbandoned,
    /// An unterminated NMEA sentence longer than any sentence may be: all
    /// bytes are discarded.
    NmeaOverlong,
}

/// Whether `b` starts a frame of a kind that `mode` looks for.
pub open spec fn is_sync(mode: ScanMode, b: u8) -> bool {
    ||| b == UBX_SYNC_CHAR_1
    ||| (mode != ScanMode::Ubx && b == RTCM_SYNC_CHAR)
    ||| (mode == ScanMode::UbxRtcmNmea && b == NMEA_SYNC_CHAR)
}

/// The ten-bit message length in the header of an RTCM3 frame.
pub open spec fn rtcm_len(v: Seq<u8>) -> u16 {
    ((v[1] as int % 4) * 256 + v[2] as int) as u16
}

/// Whether `v[i]` is `a` and `v[i + 1]` is `b`.
pub open spec fn is_pair_at(v: Seq<u8>, i: int, a: u8, b: u8) -> bool {
    0 <= i && i + 1 < v.len() && v[i] == a && v[i + 1] == b
}

/// Index of the first occurrence of the byte pair `a`, `b` in `v`, if any.
#[verifier::opaque]
pub open spec fn first_pair(v: Seq<u8>, a: u8, b: u8) -> Option<int> {
    if exists|i: int| is_pair_at(v, i, a, b) {
        Some(choose|i: int| is_pair_at(v, i, a, b) && forall|j: int| 0 <= j < i ==> !is_pair_at(v, j, a, b))
    } else {
        None
    }
}

/// If the pair at `i` is the first one, `first_pair` finds it.
pub proof fn lemma_first_pair(v: Seq<u8>, a: u8, b: u8, i: int)
    requires
        is_pair_at(v, i, a, b),
        forall|j: int| 0 <= j < i ==> !is_pair_at(v, j, a, b),
    ensures
        first_pair(v, a, b) == Some(i),
{
    reveal(first_pair);
    let k = choose|k: int| is_pair_at(v, k, a, b) && forall|j: int| 0 <= j < k ==> !is_pair_at(v, j, a, b);
    assert(is_pair_at(v, k, a, b));
    if k < i {
        assert(!is_pair_at(v, k, a, b));
    } else if i < k {
        assert(!is_pair_at(v, i, a, b));
    }
}

/// Where the pair occurs at all, there is a first occurrence.
proof fn lemma_min_pair_exists(v: Seq<u8>, a: u8, b: u8, i0: int)
    requires
        is_pair_at(v, i0, a, b),
    ensures
        exists|i: int| is_pair_at(v, i, a, b) && forall|j: int| 0 <= j < i ==> !is_pair_at(v, j, a, b),
    decreases i0,
{
    if exists|j: int| 0 <= j < i0 && is_pair_at(v, j, a, b) {
        let j = choose|j: int| 0 <= j < i0 && is_pair_at(v, j, a, b);
        lemma_min_pair_exists(v, a, b, j);
    } else {
        assert(forall|j: int| 0 <= j < i0 ==> !is_pair_at(v, j, a, b));
    }
}

/// What `first_pair` finds is the first occurrence of the pair.
pub proof fn lemma_first_pair_found(v: Seq<u8>, a: u8, b: u8)
    ensures
        first_pair(v, a, b) matches Some(i) ==> is_pair_at(v, i, a, b) && forall|j: int|
            0 <= j < i ==> !is_pair_at(v, j, a, b),
        first_pair(v, a, b) is None ==> forall|j: int| !is_pair_at(v, j, a, b),
{
    reveal(first_pair);
    if exists|i: int| is_pair_at(v, i, a, b) {
        let i0 = choose|i: int| is_pair_at(v, i, a, b);
        lemma_min_pair_exists(v, a, b, i0);
    }
}

/// No pair at any index below `v.len() - 1` means no pair at all.
pub proof fn lemma_no_pair(v: Seq<u8>, a: u8, b: u8)
    requires
        forall|j: int| 0 <= j < v.len() - 1 ==> !is_pair_at(v, j, a, b),
    ensures
        first_pair(v, a, b) is None,
{
    reveal(first_pair);
}

/// Whether a frame start of any kind occurs at index `from` or later.
pub open spec fn has_sync_from(mode: ScanMode, v: Seq<u8>, from: int) -> bool {
    exists|i: int| from <= i < v.len() && is_sync(mode, v[i])
}

/// The resynchronisation of the parser iterators. Bytes that start no frame
/// are skipped; a UBX first sync character not followed by the second one
/// is skipped; a UBX header announcing more than `max_len` payload bytes
/// drops its two sync characters; an RTCM3 header gives the frame length;
/// an NMEA sentence ends at its first end-character pair. Returns how many
/// leading bytes are dropped and what follows them.
pub open spec fn scan_frames(v: Seq<u8>, max_len: u16, mode: ScanMode) -> (nat, FrameSearch)
    decreases v.len(),
{
    if v.len() == 0 {
        (0, FrameSearch::Exhausted)
    } else if v[0] == UBX_SYNC_CHAR_1 {
        if v.len() < 2 {
            (0, FrameSearch::Incomplete)
        } else if v[1] != UBX_SYNC_CHAR_2 {
            let (d, o) = scan_frames(v.skip(1), max_len, mode);
            (d + 1, o)
        } else if v.len() < UBX_HEADER_LEN {
            (0, FrameSearch::Incomplete)
        } else if le_u16(v, 4) > max_len {
            let (d, o) = scan_frames(v.skip(2), max_len, mode);
            (d + 2, o)
        } else {
            (0, FrameSearch::Ubx(le_u16(v, 4)))
        }
    } else if mode != ScanMode::Ubx && v[0] == RTCM_SYNC_CHAR {
        if v.len() < RTCM_HEADER_SIZE {
            (0, FrameSearch::Incomplete)
        } else {
            (0, FrameSearch::Rtcm(rtcm_len(v)))
        }
    } else if mode == ScanMode::UbxRtcmNmea && v[0] == NMEA_SYNC_CHAR {
        if v.len() < NMEA_MIN_BUFFER_SIZE {
            (0, FrameSearch::Incomplete)
        } else {
            match first_pair(v, NMEA_END_CHAR_1, NMEA_END_CHAR_2) {
                Some(i) => (0, FrameSearch::Nmea((i + 2) as u16)),
                None => if has_sync_from(mode, v, 1) {
                    (0, FrameSearch::NmeaAbandoned)
                } else if v.len() > NMEA_MAX_SENTENCE_LENGTH {
                    (0, FrameSearch::NmeaOverlong)
                } else {
                    (0, FrameSearch::Incomplete)
                },
            }
        }
    } else {
        let (d, o) = scan_frames(v.skip(1), max_len, mode);
        (d + 1, o)
    }
}

/// Bytes that start no frame are skipped by the resynchronisation.
pub proof fn lemma_scan_skip(v: Seq<u8>, max_len: u16, mode: ScanMode, pos: int)
    requires
        0 <= pos <= v.len(),
        forall|j: int| 0 <= j < pos ==> !is_sync(mode, v[j]),
    ensures
        scan_frames(v, max_len, mode) == (scan_frames(v.skip(pos), max_len, mode).0 + pos as nat, scan_frames(
            v.skip(pos),
            max_len,
            mode,
        ).1),
    decreases pos,
{
    if pos > 0 {
        assert(!is_sync(mode, v[0]));
        lemma_scan_skip(v.skip(1), max_len, mode, pos - 1);
        assert(v.skip(1).skip(pos - 1) =~= v.skip(pos));
    } else {
        assert(v.skip(0) =~= v);
    }
}

/// Bytes none of which starts a frame are all dropped.
pub proof fn lemma_scan_no_sync(v: Seq<u8>, max_len: u16, mode: ScanMode)
    requires
        forall|j: int| 0 <= j < v.len() ==> !is_sync(mode, v[j]),
    ensures
        scan_frames(v, max_len, mode) == (v.len(), FrameSearch::Exhausted),
{
    lemma_scan_skip(v, max_len, mode, v.len() as int);
    assert(v.skip(v.len() as int) =~= Seq::<u8>::empty());
}

/// Where the first `dropped` bytes are drained, the underlying buffer loses
/// as many of its own bytes as it has.
pub open spec fn rest_after_drop(u: nat, dropped: nat) -> nat {
    if dropped <= u {
        (u - dropped) as nat
    } else {
        0
    }
}

/// The bytes from the first frame start on, or all bytes when there is no
/// frame start.
#[verifier::opaque]
pub open spec fn skip_to_sync(v: Seq<u8>, mode: ScanMode) -> Seq<u8> {
    if exists|i: int| 0 <= i < v.len() && is_sync(mode, v[i]) {
        v.skip(
            choose|i: int|
                0 <= i < v.len() && is_sync(mode, v[i]) && forall|j: int|
                    0 <= j < i ==> !is_sync(mode, v[j]),
        )
    } else {
        v
    }
}

/// If the byte at `i` is the first frame start, the bytes are skipped up to
/// `i`.
pub proof fn lemma_skip_to_sync(v: Seq<u8>, mode: ScanMode, i: int)
    requires
        0 <= i < v.len(),
        is_sync(mode, v[i]),
        forall|j: int| 0 <= j < i ==> !is_sync(mode, v[j]),
    ensures
        skip_to_sync(v, mode) == v.skip(i),
{
    reveal(skip_to_sync);
    let k = choose|k: int|
        0 <= k < v.len() && is_sync(mode, v[k]) && forall|j: int| 0 <= j < k ==> !is_sync(mode, v[j]);
    assert(0 <= k < v.len() && is_sync(mode, v[k]));
    if k < i {
        assert(!is_sync(mode, v[k]));
    } else if i < k {
        assert(!is_sync(mode, v[i]));
    }
}

/// Without a frame start the bytes are kept as they are.
pub proof fn lemma_skip_to_sync_none(v: Seq<u8>, mode: ScanMode)
    requires
        forall|j: int| 0 <= j < v.len() ==> !is_sync(mode, v[j]),
    ensures
        skip_to_sync(v, mode) == v,
{
    reveal(skip_to_sync);
}

} // verus!
