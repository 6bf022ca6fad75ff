//! Parser for the u-blox UBX protocol, with RTCM3 and NMEA framing.

pub mod buffer;
pub mod checksum;
pub mod circular_buffer;
pub mod constants;
pub mod dual_buffer;
pub mod error;
pub mod linear_buffer;
pub mod parser;
pub mod proto14;
pub mod proto17;
pub mod proto23;
pub mod proto27;
pub mod proto31;
pub mod proto33;
pub mod protocol;
pub mod rtcm;
pub mod segmenter;
pub mod ubx_packets;
pub mod ubx_protocol;

pub use buffer::{FixedBuffer, FixedLinearBuffer, UnderlyingBuffer};
pub use checksum::UbxChecksumCalc;
pub use dual_buffer::DualBuffer;
pub use error::{DateTimeError, MemWriterError, ParserError};
pub use parser::{
    AnyPacketRef, DefaultProtocol, NmeaPacketRef, Parser, ParserBuilder, RtcmPacketRef, UbxParserIter,
    UbxRtcmNmeaParserIter, UbxRtcmParserIter,
};
pub use ubx_packets::{UbxPacketMeta, UbxPacketRequest, UbxUnknownPacketRef};
pub use ubx_protocol::{UbxPacket, UbxProtocol};
