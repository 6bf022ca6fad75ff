use vstd::prelude::*;

use rtcm_rs::MessageFrame;

use crate::parser::RtcmPacketRef;

verus! {

/// A decoded RTCM3 frame of the `rtcm_rs` crate; opaque here.
#[verifier::external_type_specification]
#[verifier::external_body]
pub struct ExMessageFrame<'a>(MessageFrame<'a>);

/// What `rtcm_rs::next_msg_frame` reports for `data`: how many bytes it
/// consumed, and whether it found a frame whose CRC-24Q checks.
pub uninterp spec fn rtcm_frame_scan(data: Seq<u8>) -> (usize, bool);

/// Calls `rtcm_rs::next_msg_frame`, which scans `data` for the first `0xd3`
/// preamble that starts a complete frame with a valid CRC-24Q, and returns the
/// bytes consumed (up to the end of that frame, the start of an incomplete
/// one, or the whole input) with the frame.  The consumed count and whether a
/// frame came back are a function of `data` alone, named by
/// [rtcm_frame_scan]; the count never exceeds the input.  What the frame
/// holds is not stated.
#[verifier::external_body]
fn next_rtcm_frame<'a>(data: &'a [u8]) -> (r: (usize, Option<MessageFrame<'a>>))
    ensures
        r.0 == rtcm_frame_scan(data@).0,
        r.1.is_some() == rtcm_frame_scan(data@).1,
        r.0 <= data.len(),
{
    rtcm_rs::next_msg_frame(data)
}

impl<'a> RtcmPacketRef<'a> {
    /// Decodes the frame that the packet's bytes hold, where its checksum is
    /// valid.
    pub fn interpret(&self) -> (r: Option<MessageFrame<'a>>)
        ensures
            r.is_some() == rtcm_frame_scan(self.data@).1,
    {
        let (_, frame) = next_rtcm_frame(self.data);
        frame
    }
}

} // verus!
