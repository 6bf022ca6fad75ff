use vstd::prelude::*;

verus! {

/// First synchronisation byte of a UBX frame.
pub const UBX_SYNC_CHAR_1: u8 = 0xb5;
/// Second synchronisation byte of a UBX frame.
pub const UBX_SYNC_CHAR_2: u8 = 0x62;
/// Number of synchronisation bytes in a UBX frame.
pub const UBX_SYNC_SIZE: usize = 2;
/// Size of the little-endian payload length field.
pub const UBX_PAYLOAD_SIZE_LEN: usize = 2;
/// Size of the class field.
pub const UBX_CLASS_LEN: usize = 1;
/// Size of the message id field.
pub const UBX_ID_LEN: usize = 1;
/// Sync (2) + class (1) + id (1) + length (2).
pub const UBX_HEADER_LEN: usize = 6;
/// Size of the Fletcher checksum trailer.
pub const UBX_CHECKSUM_LEN: usize = 2;
/// Offset of the class byte from the start of a frame.
pub const UBX_CLASS_OFFSET: usize = 2;
/// Offset of the message id byte from the start of a frame.
pub const UBX_MSG_ID_OFFSET: usize = 3;
/// Offset of the payload length field from the start of a frame.
pub const UBX_LENGTH_OFFSET: usize = 4;

/// NMEA sentence start character `$`.
pub const NMEA_SYNC_CHAR: u8 = 0x24;
/// NMEA first end character (carriage return).
pub const NMEA_END_CHAR_1: u8 = 0x0d;
/// NMEA second end character (line feed).
pub const NMEA_END_CHAR_2: u8 = 0x0a;
/// Number of NMEA end characters.
pub const NMEA_END_CHARS_LEN: usize = 2;
/// Sync (1) + talker (2) + message type (3) + end characters (2).
pub const NMEA_MIN_BUFFER_SIZE: usize = 8;
/// Maximum length of an NMEA sentence.
pub const NMEA_MAX_SENTENCE_LENGTH: usize = 82;

/// RTCM3 frame preamble.
pub const RTCM_SYNC_CHAR: u8 = 0xd3;
/// Preamble (1) + reserved bits and length (2).
pub const RTCM_HEADER_SIZE: usize = 3;
/// The length field of an RTCM3 frame holds ten bits.
pub const RTCM_LENGTH_MASK: u16 = 0x03ff;

} // verus!
