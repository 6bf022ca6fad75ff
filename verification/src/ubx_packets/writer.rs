//! Destinations that packets are written to.

use vstd::prelude::*;

use crate::error::MemWriterError;
use crate::ubx_packets::frame::extend_vec;

verus! {

/// The error type of `std::io`; opaque here.
#[verifier::external_type_specification]
#[verifier::external_body]
pub struct ExIoError(std::io::Error);

/// A destination of packet bytes.
pub trait MemWriter {
    type Error;

    /// The bytes written so far.
    spec fn written(&self) -> Seq<u8>;

    /// Whether every reservation and every write on this writer succeeds
    /// (as on a `Vec`); a writer that may run out of room says `false`.
    spec fn never_fails(&self) -> bool;

    /// Makes sure that at least `len` more bytes can be written; leaves what
    /// was written unchanged, and succeeds on a writer that never fails.
    fn reserve_allocate(&mut self, len: usize) -> (r: Result<(), MemWriterError<Self::Error>>)
        requires
            old(self).written().len() + len <= isize::MAX,
        ensures
            final(self).written() == old(self).written(),
            old(self).never_fails() ==> r is Ok && final(self).never_fails(),
    ;

    /// Writes all of `buf` after what was written, or fails; on a writer
    /// that never fails it succeeds.
    fn write(&mut self, buf: &[u8]) -> (r: Result<(), MemWriterError<Self::Error>>)
        ensures
            r is Ok ==> final(self).written() == old(self).written() + buf@,
            old(self).never_fails() ==> r is Ok && final(self).never_fails(),
    ;
}

/// Calls `Vec::reserve`, which makes room for at least `additional` more
/// elements and leaves the elements unchanged; it panics where the new
/// capacity would exceed `isize::MAX` bytes, which the precondition rules out
/// for the capacity the documentation names (length plus `additional`).
#[verifier::external_body]
fn vec_reserve(v: &mut Vec<u8>, additional: usize)
    requires
        old(v)@.len() + additional <= isize::MAX,
    ensures
        final(v)@ == old(v)@,
{
    v.reserve(additional);
}

impl MemWriter for Vec<u8> {
    type Error = std::io::Error;

    open spec fn written(&self) -> Seq<u8> {
        self@
    }

    /// Appending to a `Vec` always succeeds.
    open spec fn never_fails(&self) -> bool {
        true
    }

    /// Reserves room for `len` more bytes; this never fails.
    fn reserve_allocate(&mut self, len: usize) -> (r: Result<(), MemWriterError<Self::Error>>)
        ensures
            r is Ok,
    {
        vec_reserve(self, len);
        Ok(())
    }

    /// Appends all of `buf`; this never fails.
    fn write(&mut self, buf: &[u8]) -> (r: Result<(), MemWriterError<Self::Error>>)
        ensures
            r is Ok,
    {
        extend_vec(self, buf);
        Ok(())
    }
}

/// A packet that can be written to a [MemWriter].
pub trait UbxPacketCreator: Sized {
    /// The bytes of the packet frame.
    spec fn packet_bytes(&self) -> Seq<u8>;

    /// Reserves room for the frame in `out` and writes it there; fails only
    /// where `out` fails, so never on a writer that never fails.
    fn create_packet<T: MemWriter>(self, out: &mut T) -> (r: Result<(), MemWriterError<T::Error>>)
        requires
            old(out).written().len() + self.packet_bytes().len() <= isize::MAX,
        ensures
            r is Ok ==> final(out).written() == old(out).written() + self.packet_bytes(),
            old(out).never_fails() ==> r is Ok,
    ;
}

} // verus!
