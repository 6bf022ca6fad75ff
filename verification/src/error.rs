use vstd::prelude::*;

verus! {

/// Error returned by a writer of packet bytes.
#[derive(Debug)]
pub enum MemWriterError<E> {
    NotEnoughMem,
    Custom(E),
}

/// Error that is possible during packet parsing.
#[derive(Debug, PartialEq, Eq)]
pub enum ParserError {
    /// The received checksum (`expect`) does not match the computed one (`got`).
    InvalidChecksum { expect: u16, got: u16 },
    /// A field of a packet holds a value the protocol does not allow.
    InvalidField { packet: &'static str, field: &'static str },
    /// The payload length does not fit the packet definition.
    InvalidPacketLen { packet: &'static str, expect: usize, got: usize },
    /// Returned when the parser buffer is not big enough to store the packet.
    OutOfMemory { required_size: usize },
}

/// Error while turning date and time fields into packet fields.
#[derive(Debug, Clone, Copy)]
pub enum DateTimeError {
    InvalidDate,
    InvalidTime,
    InvalidNanoseconds,
}

} // verus!
