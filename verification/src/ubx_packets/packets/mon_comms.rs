//! MON-COMMS: status of the communication ports.

use vstd::prelude::*;

use crate::error::ParserError;
use crate::ubx_packets::bytes_le::{le_u16, le_u32, read_u16_le, read_u32_le};
use crate::ubx_packets::UbxPacketMeta;

verus! {

/// Communication port status: data flow statistics and buffer use of each
/// port.
pub struct MonComms;

impl UbxPacketMeta for MonComms {
    const CLASS: u8 = 0x0a;
    const ID: u8 = 0x36;
    const MAX_PAYLOAD_LEN: u16 = 248;

    fn fixed_payload_len() -> (r: Option<u16>)
        ensures
            r is None,
    {
        None
    }
}

/// Payload of a [MonComms] packet: an eight-byte header followed by one
/// 40-byte block per port.
pub struct MonCommsRef<'a>(pub &'a [u8]);

impl<'a> MonCommsRef<'a> {
    /// The outcome of validating a payload.
    pub open spec fn spec_validate(payload: Seq<u8>) -> Result<(), ParserError> {
        if payload.len() < 8 {
            Err(ParserError::InvalidPacketLen { packet: "MonComms", expect: 8, got: payload.len() as usize })
        } else if (payload.len() - 8) % 40 != 0 {
            Err(ParserError::InvalidField { packet: "MonComms", field: "ports" })
        } else {
            Ok(())
        }
    }

    /// Checks that `payload` is a valid [MonComms] payload.
    pub fn validate(payload: &[u8]) -> (r: Result<(), ParserError>)
        ensures
            r == Self::spec_validate(payload@),
    {
        if payload.len() < 8 {
            Err(ParserError::InvalidPacketLen { packet: "MonComms", expect: 8, got: payload.len() })
        } else if !MonCommsPortIter::is_valid(crate::buffer::slice_subrange(payload, 8, payload.len())) {
            Err(ParserError::InvalidField { packet: "MonComms", field: "ports" })
        } else {
            Ok(())
        }
    }

    /// Length of the payload.
    pub fn payload_len(&self) -> (r: usize)
        ensures
            r == self.0@.len(),
    {
        self.0.len()
    }

    /// Message version.
    pub fn version(&self) -> (r: u8)
        requires
            Self::spec_validate(self.0@) is Ok,
        ensures
            r == self.0@[0],
    {
        self.0[0]
    }

    /// Number of ports included.
    pub fn n_ports(&self) -> (r: u8)
        requires
            Self::spec_validate(self.0@) is Ok,
        ensures
            r == self.0@[1],
    {
        self.0[1]
    }

    /// TX error bit mask.
    pub fn tx_errors(&self) -> (r: u8)
        requires
            Self::spec_validate(self.0@) is Ok,
        ensures
            r == self.0@[2],
    {
        self.0[2]
    }

    /// Protocol identifiers that the message counts of the ports refer to
    /// (0 UBX, 1 NMEA, 2 RTCM3, 5 SPARTN).
    pub fn prot_ids(&self) -> (r: [u8; 4])
        requires
            Self::spec_validate(self.0@) is Ok,
        ensures
            r@ == self.0@.subrange(4, 8),
    {
        let r = [self.0[4], self.0[5], self.0[6], self.0[7]];
        proof {
            assert(r@ =~= self.0@.subrange(4, 8));
        }
        r
    }

    /// The port blocks.
    pub fn ports(&self) -> (r: MonCommsPortIter<'a>)
        requires
            Self::spec_validate(self.0@) is Ok,
        ensures
            r.data@ == self.0@.skip(8),
            r.offset == 0,
    {
        MonCommsPortIter::new(crate::buffer::slice_subrange(self.0, 8, self.0.len()))
    }
}

/// Interface of a port, told by the high byte of its identifier (the low
/// byte is a sub-index that differs between products).
#[derive(Debug, Copy, Clone, PartialEq, Eq, Structural)]
pub enum PortId {
    I2c,
    Uart1,
    Uart2,
    Usb,
    Spi,
    Unknown(u16),
}

/// The port an identifier stands for.
pub open spec fn port_id_of(value: u16) -> PortId {
    let hi = value / 256;
    if hi == 0 {
        PortId::I2c
    } else if hi == 1 {
        PortId::Uart1
    } else if hi == 2 {
        PortId::Uart2
    } else if hi == 3 {
        PortId::Usb
    } else if hi == 4 {
        PortId::Spi
    } else {
        PortId::Unknown(value)
    }
}

impl From<u16> for PortId {
    fn from(value: u16) -> (r: Self) {
        let hi = value >> 8;
        proof {
            assert(value >> 8 == value / 256) by (bit_vector);
        }
        match hi {
            0x00 => PortId::I2c,
            0x01 => PortId::Uart1,
            0x02 => PortId::Uart2,
            0x03 => PortId::Usb,
            0x04 => PortId::Spi,
            _ => PortId::Unknown(value),
        }
    }
}

impl vstd::std_specs::convert::FromSpecImpl<u16> for PortId {
    open spec fn obeys_from_spec() -> bool {
        true
    }

    open spec fn from_spec(value: u16) -> PortId {
        port_id_of(value)
    }
}

/// Status of one communication port.
#[derive(Debug, Clone, PartialEq, Eq)]
pub struct MonCommsPort {
    /// Port identifier.
    pub port_id: PortId,
    /// Bytes pending in the TX buffer.
    pub tx_pending: u16,
    /// Total bytes transmitted.
    pub tx_bytes: u32,
    /// TX buffer usage (0-255 for 0-100%).
    pub tx_usage: u8,
    /// Peak TX buffer usage.
    pub tx_peak_usage: u8,
    /// Bytes pending in the RX buffer.
    pub rx_pending: u16,
    /// Total bytes received.
    pub rx_bytes: u32,
    /// RX buffer usage (0-255 for 0-100%).
    pub rx_usage: u8,
    /// Peak RX buffer usage.
    pub rx_peak_usage: u8,
    /// Number of overrun errors.
    pub overrun_errs: u16,
    /// Message counts per protocol, in the order of the protocol identifiers.
    pub msgs: [u16; 4],
    /// Skipped bytes.
    pub skipped: u32,
}

/// Whether `p` is the port block that starts at `off` of `s`.
pub open spec fn is_port_block(p: MonCommsPort, s: Seq<u8>, off: int) -> bool {
    &&& p.port_id == port_id_of(le_u16(s, off))
    &&& p.tx_pending == le_u16(s, off + 2)
    &&& p.tx_bytes == le_u32(s, off + 4)
    &&& p.tx_usage == s[off + 8]
    &&& p.tx_peak_usage == s[off + 9]
    &&& p.rx_pending == le_u16(s, off + 10)
    &&& p.rx_bytes == le_u32(s, off + 12)
    &&& p.rx_usage == s[off + 16]
    &&& p.rx_peak_usage == s[off + 17]
    &&& p.overrun_errs == le_u16(s, off + 18)
    &&& p.msgs@ == seq![le_u16(s, off + 20), le_u16(s, off + 22), le_u16(s, off + 24), le_u16(s, off + 26)]
    &&& p.skipped == le_u32(s, off + 36)
}

/// Iterator over the 40-byte port blocks of a [MonComms] payload.
#[derive(Debug, Clone)]
pub struct MonCommsPortIter<'a> {
    pub data: &'a [u8],
    pub offset: usize,
}

impl<'a> MonCommsPortIter<'a> {
    /// An iterator over the port blocks in `data`.
    fn new(data: &'a [u8]) -> (r: Self)
        ensures
            r.data == data,
            r.offset == 0,
    {
        Self { data, offset: 0 }
    }

    /// Whether `payload` is a whole number of port blocks.
    fn is_valid(payload: &[u8]) -> (r: bool)
        ensures
            r == (payload@.len() % 40 == 0),
    {
        payload.len() % 40 == 0
    }

    /// The next port block, or `None` when no whole block is left.
    pub fn next(&mut self) -> (r: Option<MonCommsPort>)
        ensures
            final(self).data == old(self).data,
            old(self).offset + 40 <= old(self).data@.len() ==> {
                &&& r matches Some(p) && is_port_block(p, old(self).data@, old(self).offset as int)
                &&& final(self).offset == old(self).offset + 40
            },
            old(self).offset + 40 > old(self).data@.len() ==> r is None && final(self).offset
                == old(self).offset,
    {
        if self.data.len() < 40 || self.offset > self.data.len() - 40 {
            return None;
        }
        let s = self.data;
        let o = self.offset;
        let port = MonCommsPort {
            port_id: PortId::from(read_u16_le(s, o)),
            tx_pending: read_u16_le(s, o + 2),
            tx_bytes: read_u32_le(s, o + 4),
            tx_usage: s[o + 8],
            tx_peak_usage: s[o + 9],
            rx_pending: read_u16_le(s, o + 10),
            rx_bytes: read_u32_le(s, o + 12),
            rx_usage: s[o + 16],
            rx_peak_usage: s[o + 17],
            overrun_errs: read_u16_le(s, o + 18),
            msgs: [
                read_u16_le(s, o + 20),
                read_u16_le(s, o + 22),
                read_u16_le(s, o + 24),
                read_u16_le(s, o + 26),
            ],
            // bytes 28..36 are reserved
            skipped: read_u32_le(s, o + 36),
        };
        proof {
            assert(port.msgs@ =~= seq![
                le_u16(s@, o + 20),
                le_u16(s@, o + 22),
                le_u16(s@, o + 24),
                le_u16(s@, o + 26),
            ]);
        }
        self.offset = self.offset + 40;
        Some(port)
    }
}

/// The class, message id and longest payload of each packet type of this
/// module.
pub proof fn lemma_packet_ids()
    ensures
        MonComms::CLASS == 0x0a,
        MonComms::ID == 0x36,
        MonComms::MAX_PAYLOAD_LEN == 248,
{
}

/// The interface of a port follows the u-blox port identifier table: the
/// high byte 0 is I2C, 1 UART1, 2 UART2, 3 USB, 4 SPI, whatever the low
/// byte; any other high byte keeps the whole identifier as unknown.
pub proof fn lemma_port_id_codes(value: u16)
    ensures
        value / 256 == 0 ==> port_id_of(value) == PortId::I2c,
        value / 256 == 1 ==> port_id_of(value) == PortId::Uart1,
        value / 256 == 2 ==> port_id_of(value) == PortId::Uart2,
        value / 256 == 3 ==> port_id_of(value) == PortId::Usb,
        value / 256 == 4 ==> port_id_of(value) == PortId::Spi,
        value / 256 > 4 ==> port_id_of(value) == PortId::Unknown(value),
        port_id_of(0x0100) == PortId::Uart1,
        port_id_of(0x0201) == PortId::Uart2,
{
}

} // verus!
