use vstd::prelude::*;

use crate::buffer::slice_subrange;
use crate::error::ParserError;
use crate::ubx_packets::bytes_le::{le_u16, le_u32, read_i16_le, read_i32_le, read_u16_le, read_u32_le};
use crate::ubx_packets::UbxPacketMeta;
use crate::ubx_packets::packets::enums::{MsgAckInfoCode};

verus! {

/// GLONASS ephemeris assistance.
pub struct MgaGloEph;

impl UbxPacketMeta for MgaGloEph {
    const CLASS: u8 = 0x13;
    const ID: u8 = 0x06;
    const MAX_PAYLOAD_LEN: u16 = 48;

    fn fixed_payload_len() -> (r: Option<u16>)
        ensures
            r == Some(48u16),
    {
        Some(48)
    }
}

/// Payload of a [MgaGloEph] packet.
pub struct MgaGloEphRef<'a>(pub &'a [u8]);

impl<'a> MgaGloEphRef<'a> {
    /// The outcome of validating a payload: its length, then each field
    /// that only allows some values.
    pub open spec fn spec_validate(payload: Seq<u8>) -> Result<(), ParserError> {
        if payload.len() != 48 {
            Err(ParserError::InvalidPacketLen { packet: "MgaGloEph", expect: 48, got: payload.len() as usize })
        }
        else {
            Ok(())
        }
    }

    /// Checks that `payload` is a valid [MgaGloEph] payload.
    pub fn validate(payload: &[u8]) -> (r: Result<(), ParserError>)
        ensures
            r == Self::spec_validate(payload@),
    {
        if payload.len() != 48 {
            return Err(ParserError::InvalidPacketLen { packet: "MgaGloEph", expect: 48, got: payload.len() });
        }
        Ok(())
    }

    /// Length of the payload.
    pub fn payload_len(&self) -> (r: usize)
        ensures
            r == self.0@.len(),
    {
        self.0.len()
    }

    pub fn msg_type(&self) -> (r: u8)
        requires
            Self::spec_validate(self.0@) is Ok,
        ensures
            r == self.0@[0],
    {
        self.0[0]
    }

    pub fn version(&self) -> (r: u8)
        requires
            Self::spec_validate(self.0@) is Ok,
        ensures
            r == self.0@[1],
    {
        self.0[1]
    }

    pub fn sv_id(&self) -> (r: u8)
        requires
            Self::spec_validate(self.0@) is Ok,
        ensures
            r == self.0@[2],
    {
        self.0[2]
    }

    pub fn reserved1(&self) -> (r: u8)
        requires
            Self::spec_validate(self.0@) is Ok,
        ensures
            r == self.0@[3],
    {
        self.0[3]
    }

    pub fn ft(&self) -> (r: u8)
        requires
            Self::spec_validate(self.0@) is Ok,
        ensures
            r == self.0@[4],
    {
        self.0[4]
    }

    pub fn b(&self) -> (r: u8)
        requires
            Self::spec_validate(self.0@) is Ok,
        ensures
            r == self.0@[5],
    {
        self.0[5]
    }

    pub fn m(&self) -> (r: u8)
        requires
            Self::spec_validate(self.0@) is Ok,
        ensures
            r == self.0@[6],
    {
        self.0[6]
    }

    pub fn h(&self) -> (r: i8)
        requires
            Self::spec_validate(self.0@) is Ok,
        ensures
            r == self.0@[7] as i8,
    {
        self.0[7] as i8
    }

    pub fn x(&self) -> (r: i32)
        requires
            Self::spec_validate(self.0@) is Ok,
        ensures
            r == le_u32(self.0@, 8) as i32,
    {
        read_i32_le(self.0, 8)
    }

    pub fn y(&self) -> (r: i32)
        requires
            Self::spec_validate(self.0@) is Ok,
        ensures
            r == le_u32(self.0@, 12) as i32,
    {
        read_i32_le(self.0, 12)
    }

    pub fn z(&self) -> (r: i32)
        requires
            Self::spec_validate(self.0@) is Ok,
        ensures
            r == le_u32(self.0@, 16) as i32,
    {
        read_i32_le(self.0, 16)
    }

    pub fn dx(&self) -> (r: i32)
        requires
            Self::spec_validate(self.0@) is Ok,
        ensures
            r == le_u32(self.0@, 20) as i32,
    {
        read_i32_le(self.0, 20)
    }

    pub fn dy(&self) -> (r: i32)
        requires
            Self::spec_validate(self.0@) is Ok,
        ensures
            r == le_u32(self.0@, 24) as i32,
    {
        read_i32_le(self.0, 24)
    }

    pub fn dz(&self) -> (r: i32)
        requires
            Self::spec_validate(self.0@) is Ok,
        ensures
            r == le_u32(self.0@, 28) as i32,
    {
        read_i32_le(self.0, 28)
    }

    pub fn ddx(&self) -> (r: i8)
        requires
            Self::spec_validate(self.0@) is Ok,
        ensures
            r == self.0@[32] as i8,
    {
        self.0[32] as i8
    }

    pub fn ddy(&self) -> (r: i8)
        requires
            Self::spec_validate(self.0@) is Ok,
        ensures
            r == self.0@[33] as i8,
    {
        self.0[33] as i8
    }

    pub fn ddz(&self) -> (r: i8)
        requires
            Self::spec_validate(self.0@) is Ok,
        ensures
            r == self.0@[34] as i8,
    {
        self.0[34] as i8
    }

    pub fn tb(&self) -> (r: u8)
        requires
            Self::spec_validate(self.0@) is Ok,
        ensures
            r == self.0@[35],
    {
        self.0[35]
    }

    pub fn gamma(&self) -> (r: u16)
        requires
            Self::spec_validate(self.0@) is Ok,
        ensures
            r == le_u16(self.0@, 36),
    {
        read_u16_le(self.0, 36)
    }

    pub fn e(&self) -> (r: u8)
        requires
            Self::spec_validate(self.0@) is Ok,
        ensures
            r == self.0@[38],
    {
        self.0[38]
    }

    pub fn delta_tau(&self) -> (r: u8)
        requires
            Self::spec_validate(self.0@) is Ok,
        ensures
            r == self.0@[39],
    {
        self.0[39]
    }

    pub fn tau(&self) -> (r: i32)
        requires
            Self::spec_validate(self.0@) is Ok,
        ensures
            r == le_u32(self.0@, 40) as i32,
    {
        read_i32_le(self.0, 40)
    }

    pub fn reserved2(&self) -> (r: &[u8])
        requires
            Self::spec_validate(self.0@) is Ok,
        ensures
            r@ == self.0@.subrange(44, 48),
    {
        slice_subrange(self.0, 44, 48)
    }

}

/// GPS ionosphere assistance.
pub struct MgaGpsIono;

impl UbxPacketMeta for MgaGpsIono {
    const CLASS: u8 = 0x13;
    const ID: u8 = 0x00;
    const MAX_PAYLOAD_LEN: u16 = 16;

    fn fixed_payload_len() -> (r: Option<u16>)
        ensures
            r == Some(16u16),
    {
        Some(16)
    }
}

/// Payload of a [MgaGpsIono] packet.
pub struct MgaGpsIonoRef<'a>(pub &'a [u8]);

impl<'a> MgaGpsIonoRef<'a> {
    /// The outcome of validating a payload: its length, then each field
    /// that only allows some values.
    pub open spec fn spec_validate(payload: Seq<u8>) -> Result<(), ParserError> {
        if payload.len() != 16 {
            Err(ParserError::InvalidPacketLen { packet: "MgaGpsIono", expect: 16, got: payload.len() as usize })
        }
        else {
            Ok(())
        }
    }

    /// Checks that `payload` is a valid [MgaGpsIono] payload.
    pub fn validate(payload: &[u8]) -> (r: Result<(), ParserError>)
        ensures
            r == Self::spec_validate(payload@),
    {
        if payload.len() != 16 {
            return Err(ParserError::InvalidPacketLen { packet: "MgaGpsIono", expect: 16, got: payload.len() });
        }
        Ok(())
    }

    /// Length of the payload.
    pub fn payload_len(&self) -> (r: usize)
        ensures
            r == self.0@.len(),
    {
        self.0.len()
    }

    pub fn msg_type(&self) -> (r: u8)
        requires
            Self::spec_validate(self.0@) is Ok,
        ensures
            r == self.0@[0],
    {
        self.0[0]
    }

    pub fn version(&self) -> (r: u8)
        requires
            Self::spec_validate(self.0@) is Ok,
        ensures
            r == self.0@[1],
    {
        self.0[1]
    }

    pub fn reserved1(&self) -> (r: &[u8])
        requires
            Self::spec_validate(self.0@) is Ok,
        ensures
            r@ == self.0@.subrange(2, 4),
    {
        slice_subrange(self.0, 2, 4)
    }

    pub fn alpha0_raw(&self) -> (r: i8)
        requires
            Self::spec_validate(self.0@) is Ok,
        ensures
            r == self.0@[4] as i8,
    {
        self.0[4] as i8
    }

    pub fn alpha1_raw(&self) -> (r: i8)
        requires
            Self::spec_validate(self.0@) is Ok,
        ensures
            r == self.0@[5] as i8,
    {
        self.0[5] as i8
    }

    pub fn alpha2_raw(&self) -> (r: i8)
        requires
            Self::spec_validate(self.0@) is Ok,
        ensures
            r == self.0@[6] as i8,
    {
        self.0[6] as i8
    }

    pub fn alpha3_raw(&self) -> (r: i8)
        requires
            Self::spec_validate(self.0@) is Ok,
        ensures
            r == self.0@[7] as i8,
    {
        self.0[7] as i8
    }

    pub fn beta0_raw(&self) -> (r: i8)
        requires
            Self::spec_validate(self.0@) is Ok,
        ensures
            r == self.0@[8] as i8,
    {
        self.0[8] as i8
    }

    pub fn beta1_raw(&self) -> (r: i8)
        requires
            Self::spec_validate(self.0@) is Ok,
        ensures
            r == self.0@[9] as i8,
    {
        self.0[9] as i8
    }

    pub fn beta2_raw(&self) -> (r: i8)
        requires
            Self::spec_validate(self.0@) is Ok,
        ensures
            r == self.0@[10] as i8,
    {
        self.0[10] as i8
    }

    pub fn beta3_raw(&self) -> (r: i8)
        requires
            Self::spec_validate(self.0@) is Ok,
        ensures
            r == self.0@[11] as i8,
    {
        self.0[11] as i8
    }

    pub fn reserved2(&self) -> (r: &[u8])
        requires
            Self::spec_validate(self.0@) is Ok,
        ensures
            r@ == self.0@.subrange(12, 16),
    {
        slice_subrange(self.0, 12, 16)
    }

}

/// GPS ephemeris assistance.
pub struct MgaGpsEph;

impl UbxPacketMeta for MgaGpsEph {
    const CLASS: u8 = 0x13;
    const ID: u8 = 0x00;
    const MAX_PAYLOAD_LEN: u16 = 68;

    fn fixed_payload_len() -> (r: Option<u16>)
        ensures
            r == Some(68u16),
    {
        Some(68)
    }
}

/// Payload of a [MgaGpsEph] packet.
pub struct MgaGpsEphRef<'a>(pub &'a [u8]);

impl<'a> MgaGpsEphRef<'a> {
    /// The outcome of validating a payload: its length, then each field
    /// that only allows some values.
    pub open spec fn spec_validate(payload: Seq<u8>) -> Result<(), ParserError> {
        if payload.len() != 68 {
            Err(ParserError::InvalidPacketLen { packet: "MgaGpsEph", expect: 68, got: payload.len() as usize })
        }
        else {
            Ok(())
        }
    }

    /// Checks that `payload` is a valid [MgaGpsEph] payload.
    pub fn validate(payload: &[u8]) -> (r: Result<(), ParserError>)
        ensures
            r == Self::spec_validate(payload@),
    {
        if payload.len() != 68 {
            return Err(ParserError::InvalidPacketLen { packet: "MgaGpsEph", expect: 68, got: payload.len() });
        }
        Ok(())
    }

    /// Length of the payload.
    pub fn payload_len(&self) -> (r: usize)
        ensures
            r == self.0@.len(),
    {
        self.0.len()
    }

    pub fn msg_type(&self) -> (r: u8)
        requires
            Self::spec_validate(self.0@) is Ok,
        ensures
            r == self.0@[0],
    {
        self.0[0]
    }

    pub fn version(&self) -> (r: u8)
        requires
            Self::spec_validate(self.0@) is Ok,
        ensures
            r == self.0@[1],
    {
        self.0[1]
    }

    pub fn sv_id(&self) -> (r: u8)
        requires
            Self::spec_validate(self.0@) is Ok,
        ensures
            r == self.0@[2],
    {
        self.0[2]
    }

    pub fn reserved1(&self) -> (r: u8)
        requires
            Self::spec_validate(self.0@) is Ok,
        ensures
            r == self.0@[3],
    {
        self.0[3]
    }

    pub fn fit_interval(&self) -> (r: u8)
        requires
            Self::spec_validate(self.0@) is Ok,
        ensures
            r == self.0@[4],
    {
        self.0[4]
    }

    pub fn ura_index(&self) -> (r: u8)
        requires
            Self::spec_validate(self.0@) is Ok,
        ensures
            r == self.0@[5],
    {
        self.0[5]
    }

    pub fn sv_health(&self) -> (r: u8)
        requires
            Self::spec_validate(self.0@) is Ok,
        ensures
            r == self.0@[6],
    {
        self.0[6]
    }

    pub fn tgd(&self) -> (r: i8)
        requires
            Self::spec_validate(self.0@) is Ok,
        ensures
            r == self.0@[7] as i8,
    {
        self.0[7] as i8
    }

    pub fn iodc(&self) -> (r: u16)
        requires
            Self::spec_validate(self.0@) is Ok,
        ensures
            r == le_u16(self.0@, 8),
    {
        read_u16_le(self.0, 8)
    }

    pub fn toc(&self) -> (r: u16)
        requires
            Self::spec_validate(self.0@) is Ok,
        ensures
            r == le_u16(self.0@, 10),
    {
        read_u16_le(self.0, 10)
    }

    pub fn reserved2(&self) -> (r: u8)
        requires
            Self::spec_validate(self.0@) is Ok,
        ensures
            r == self.0@[12],
    {
        self.0[12]
    }

    pub fn af2(&self) -> (r: i8)
        requires
            Self::spec_validate(self.0@) is Ok,
        ensures
            r == self.0@[13] as i8,
    {
        self.0[13] as i8
    }

    pub fn af1(&self) -> (r: i16)
        requires
            Self::spec_validate(self.0@) is Ok,
        ensures
            r == le_u16(self.0@, 14) as i16,
    {
        read_i16_le(self.0, 14)
    }

    pub fn af0(&self) -> (r: i32)
        requires
            Self::spec_validate(self.0@) is Ok,
        ensures
            r == le_u32(self.0@, 16) as i32,
    {
        read_i32_le(self.0, 16)
    }

    pub fn crs(&self) -> (r: i16)
        requires
            Self::spec_validate(self.0@) is Ok,
        ensures
            r == le_u16(self.0@, 20) as i16,
    {
        read_i16_le(self.0, 20)
    }

    pub fn delta_n(&self) -> (r: i16)
        requires
            Self::spec_validate(self.0@) is Ok,
        ensures
            r == le_u16(self.0@, 22) as i16,
    {
        read_i16_le(self.0, 22)
    }

    pub fn m0(&self) -> (r: i32)
        requires
            Self::spec_validate(self.0@) is Ok,
        ensures
            r == le_u32(self.0@, 24) as i32,
    {
        read_i32_le(self.0, 24)
    }

    pub fn cuc(&self) -> (r: i16)
        requires
            Self::spec_validate(self.0@) is Ok,
        ensures
            r == le_u16(self.0@, 28) as i16,
    {
        read_i16_le(self.0, 28)
    }

    pub fn cus(&self) -> (r: i16)
        requires
            Self::spec_validate(self.0@) is Ok,
        ensures
            r == le_u16(self.0@, 30) as i16,
    {
        read_i16_le(self.0, 30)
    }

    pub fn e(&self) -> (r: u32)
        requires
            Self::spec_validate(self.0@) is Ok,
        ensures
            r == le_u32(self.0@, 32),
    {
        read_u32_le(self.0, 32)
    }

    pub fn sqrt_a(&self) -> (r: u32)
        requires
            Self::spec_validate(self.0@) is Ok,
        ensures
            r == le_u32(self.0@, 36),
    {
        read_u32_le(self.0, 36)
    }

    pub fn toe(&self) -> (r: u16)
        requires
            Self::spec_validate(self.0@) is Ok,
        ensures
            r == le_u16(self.0@, 40),
    {
        read_u16_le(self.0, 40)
    }

    pub fn cic(&self) -> (r: i16)
        requires
            Self::spec_validate(self.0@) is Ok,
        ensures
            r == le_u16(self.0@, 42) as i16,
    {
        read_i16_le(self.0, 42)
    }

    pub fn omega0(&self) -> (r: i32)
        requires
            Self::spec_validate(self.0@) is Ok,
        ensures
            r == le_u32(self.0@, 44) as i32,
    {
        read_i32_le(self.0, 44)
    }

    pub fn cis(&self) -> (r: i16)
        requires
            Self::spec_validate(self.0@) is Ok,
        ensures
            r == le_u16(self.0@, 48) as i16,
    {
        read_i16_le(self.0, 48)
    }

    pub fn crc(&self) -> (r: i16)
        requires
            Self::spec_validate(self.0@) is Ok,
        ensures
            r == le_u16(self.0@, 50) as i16,
    {
        read_i16_le(self.0, 50)
    }

    pub fn i0(&self) -> (r: i32)
        requires
            Self::spec_validate(self.0@) is Ok,
        ensures
            r == le_u32(self.0@, 52) as i32,
    {
        read_i32_le(self.0, 52)
    }

    pub fn omega(&self) -> (r: i32)
        requires
            Self::spec_validate(self.0@) is Ok,
        ensures
            r == le_u32(self.0@, 56) as i32,
    {
        read_i32_le(self.0, 56)
    }

    pub fn omega_dot(&self) -> (r: i32)
        requires
            Self::spec_validate(self.0@) is Ok,
        ensures
            r == le_u32(self.0@, 60) as i32,
    {
        read_i32_le(self.0, 60)
    }

    pub fn idot(&self) -> (r: i16)
        requires
            Self::spec_validate(self.0@) is Ok,
        ensures
            r == le_u16(self.0@, 64) as i16,
    {
        read_i16_le(self.0, 64)
    }

    pub fn reserved3(&self) -> (r: &[u8])
        requires
            Self::spec_validate(self.0@) is Ok,
        ensures
            r@ == self.0@.subrange(66, 68),
    {
        slice_subrange(self.0, 66, 68)
    }

}

/// GPS ephemeris assistance.
pub struct MgaGpsEPH;

impl UbxPacketMeta for MgaGpsEPH {
    const CLASS: u8 = 0x13;
    const ID: u8 = 0x00;
    const MAX_PAYLOAD_LEN: u16 = 68;

    fn fixed_payload_len() -> (r: Option<u16>)
        ensures
            r == Some(68u16),
    {
        Some(68)
    }
}

/// Payload of a [MgaGpsEPH] packet.
pub struct MgaGpsEPHRef<'a>(pub &'a [u8]);

impl<'a> MgaGpsEPHRef<'a> {
    /// The outcome of validating a payload: its length, then each field
    /// that only allows some values.
    pub open spec fn spec_validate(payload: Seq<u8>) -> Result<(), ParserError> {
        if payload.len() != 68 {
            Err(ParserError::InvalidPacketLen { packet: "MgaGpsEPH", expect: 68, got: payload.len() as usize })
        }
        else {
            Ok(())
        }
    }

    /// Checks that `payload` is a valid [MgaGpsEPH] payload.
    pub fn validate(payload: &[u8]) -> (r: Result<(), ParserError>)
        ensures
            r == Self::spec_validate(payload@),
    {
        if payload.len() != 68 {
            return Err(ParserError::InvalidPacketLen { packet: "MgaGpsEPH", expect: 68, got: payload.len() });
        }
        Ok(())
    }

    /// Length of the payload.
    pub fn payload_len(&self) -> (r: usize)
        ensures
            r == self.0@.len(),
    {
        self.0.len()
    }

    pub fn msg_type(&self) -> (r: u8)
        requires
            Self::spec_validate(self.0@) is Ok,
        ensures
            r == self.0@[0],
    {
        self.0[0]
    }

    pub fn version(&self) -> (r: u8)
        requires
            Self::spec_validate(self.0@) is Ok,
        ensures
            r == self.0@[1],
    {
        self.0[1]
    }

    pub fn sv_id(&self) -> (r: u8)
        requires
            Self::spec_validate(self.0@) is Ok,
        ensures
            r == self.0@[2],
    {
        self.0[2]
    }

    pub fn reserved1(&self) -> (r: u8)
        requires
            Self::spec_validate(self.0@) is Ok,
        ensures
            r == self.0@[3],
    {
        self.0[3]
    }

    pub fn fit_interval(&self) -> (r: u8)
        requires
            Self::spec_validate(self.0@) is Ok,
        ensures
            r == self.0@[4],
    {
        self.0[4]
    }

    pub fn ura_index(&self) -> (r: u8)
        requires
            Self::spec_validate(self.0@) is Ok,
        ensures
            r == self.0@[5],
    {
        self.0[5]
    }

    pub fn sv_health(&self) -> (r: u8)
        requires
            Self::spec_validate(self.0@) is Ok,
        ensures
            r == self.0@[6],
    {
        self.0[6]
    }

    pub fn tgd(&self) -> (r: i8)
        requires
            Self::spec_validate(self.0@) is Ok,
        ensures
            r == self.0@[7] as i8,
    {
        self.0[7] as i8
    }

    pub fn iodc(&self) -> (r: u16)
        requires
            Self::spec_validate(self.0@) is Ok,
        ensures
            r == le_u16(self.0@, 8),
    {
        read_u16_le(self.0, 8)
    }

    pub fn toc(&self) -> (r: u16)
        requires
            Self::spec_validate(self.0@) is Ok,
        ensures
            r == le_u16(self.0@, 10),
    {
        read_u16_le(self.0, 10)
    }

    pub fn reserved2(&self) -> (r: u8)
        requires
            Self::spec_validate(self.0@) is Ok,
        ensures
            r == self.0@[12],
    {
        self.0[12]
    }

    pub fn af2(&self) -> (r: i8)
        requires
            Self::spec_validate(self.0@) is Ok,
        ensures
            r == self.0@[13] as i8,
    {
        self.0[13] as i8
    }

    pub fn afl(&self) -> (r: i16)
        requires
            Self::spec_validate(self.0@) is Ok,
        ensures
            r == le_u16(self.0@, 14) as i16,
    {
        read_i16_le(self.0, 14)
    }

    pub fn af0(&self) -> (r: i32)
        requires
            Self::spec_validate(self.0@) is Ok,
        ensures
            r == le_u32(self.0@, 16) as i32,
    {
        read_i32_le(self.0, 16)
    }

    pub fn crs(&self) -> (r: i16)
        requires
            Self::spec_validate(self.0@) is Ok,
        ensures
            r == le_u16(self.0@, 20) as i16,
    {
        read_i16_le(self.0, 20)
    }

    pub fn delta_n(&self) -> (r: i16)
        requires
            Self::spec_validate(self.0@) is Ok,
        ensures
            r == le_u16(self.0@, 22) as i16,
    {
        read_i16_le(self.0, 22)
    }

    pub fn m0(&self) -> (r: i32)
        requires
            Self::spec_validate(self.0@) is Ok,
        ensures
            r == le_u32(self.0@, 24) as i32,
    {
        read_i32_le(self.0, 24)
    }

    pub fn cuc(&self) -> (r: i16)
        requires
            Self::spec_validate(self.0@) is Ok,
        ensures
            r == le_u16(self.0@, 28) as i16,
    {
        read_i16_le(self.0, 28)
    }

    pub fn cus(&self) -> (r: i16)
        requires
            Self::spec_validate(self.0@) is Ok,
        ensures
            r == le_u16(self.0@, 30) as i16,
    {
        read_i16_le(self.0, 30)
    }

    pub fn e(&self) -> (r: u32)
        requires
            Self::spec_validate(self.0@) is Ok,
        ensures
            r == le_u32(self.0@, 32),
    {
        read_u32_le(self.0, 32)
    }

    pub fn sqrt_a(&self) -> (r: u32)
        requires
            Self::spec_validate(self.0@) is Ok,
        ensures
            r == le_u32(self.0@, 36),
    {
        read_u32_le(self.0, 36)
    }

    pub fn toe(&self) -> (r: u16)
        requires
            Self::spec_validate(self.0@) is Ok,
        ensures
            r == le_u16(self.0@, 40),
    {
        read_u16_le(self.0, 40)
    }

    pub fn cic(&self) -> (r: i16)
        requires
            Self::spec_validate(self.0@) is Ok,
        ensures
            r == le_u16(self.0@, 42) as i16,
    {
        read_i16_le(self.0, 42)
    }

    pub fn omega0(&self) -> (r: i32)
        requires
            Self::spec_validate(self.0@) is Ok,
        ensures
            r == le_u32(self.0@, 44) as i32,
    {
        read_i32_le(self.0, 44)
    }

    pub fn cis(&self) -> (r: i16)
        requires
            Self::spec_validate(self.0@) is Ok,
        ensures
            r == le_u16(self.0@, 48) as i16,
    {
        read_i16_le(self.0, 48)
    }

    pub fn crc(&self) -> (r: i16)
        requires
            Self::spec_validate(self.0@) is Ok,
        ensures
            r == le_u16(self.0@, 50) as i16,
    {
        read_i16_le(self.0, 50)
    }

    pub fn i0(&self) -> (r: i32)
        requires
            Self::spec_validate(self.0@) is Ok,
        ensures
            r == le_u32(self.0@, 52) as i32,
    {
        read_i32_le(self.0, 52)
    }

    pub fn omega(&self) -> (r: i32)
        requires
            Self::spec_validate(self.0@) is Ok,
        ensures
            r == le_u32(self.0@, 56) as i32,
    {
        read_i32_le(self.0, 56)
    }

    pub fn omega_dot(&self) -> (r: i32)
        requires
            Self::spec_validate(self.0@) is Ok,
        ensures
            r == le_u32(self.0@, 60) as i32,
    {
        read_i32_le(self.0, 60)
    }

    pub fn idot(&self) -> (r: i16)
        requires
            Self::spec_validate(self.0@) is Ok,
        ensures
            r == le_u16(self.0@, 64) as i16,
    {
        read_i16_le(self.0, 64)
    }

    pub fn reserved3(&self) -> (r: &[u8])
        requires
            Self::spec_validate(self.0@) is Ok,
        ensures
            r@ == self.0@.subrange(66, 68),
    {
        slice_subrange(self.0, 66, 68)
    }

}

/// Acknowledgement of assistance input.
pub struct MgaAck;

impl UbxPacketMeta for MgaAck {
    const CLASS: u8 = 0x13;
    const ID: u8 = 0x60;
    const MAX_PAYLOAD_LEN: u16 = 8;

    fn fixed_payload_len() -> (r: Option<u16>)
        ensures
            r == Some(8u16),
    {
        Some(8)
    }
}

/// Payload of a [MgaAck] packet.
pub struct MgaAckRef<'a>(pub &'a [u8]);

impl<'a> MgaAckRef<'a> {
    /// The outcome of validating a payload: its length, then each field
    /// that only allows some values.
    pub open spec fn spec_validate(payload: Seq<u8>) -> Result<(), ParserError> {
        if payload.len() != 8 {
            Err(ParserError::InvalidPacketLen { packet: "MgaAck", expect: 8, got: payload.len() as usize })
        }
        else {
            Ok(())
        }
    }

    /// Checks that `payload` is a valid [MgaAck] payload.
    pub fn validate(payload: &[u8]) -> (r: Result<(), ParserError>)
        ensures
            r == Self::spec_validate(payload@),
    {
        if payload.len() != 8 {
            return Err(ParserError::InvalidPacketLen { packet: "MgaAck", expect: 8, got: payload.len() });
        }
        Ok(())
    }

    /// Length of the payload.
    pub fn payload_len(&self) -> (r: usize)
        ensures
            r == self.0@.len(),
    {
        self.0.len()
    }

    pub fn ack_type(&self) -> (r: u8)
        requires
            Self::spec_validate(self.0@) is Ok,
        ensures
            r == self.0@[0],
    {
        self.0[0]
    }

    pub fn version(&self) -> (r: u8)
        requires
            Self::spec_validate(self.0@) is Ok,
        ensures
            r == self.0@[1],
    {
        self.0[1]
    }

    /// Why a message was or was not accepted.
    pub fn info_code_raw(&self) -> (r: u8)
        requires
            Self::spec_validate(self.0@) is Ok,
        ensures
            r == self.0@[2],
    {
        self.0[2]
    }

    /// Why a message was or was not accepted.
    pub fn info_code(&self) -> (r: MsgAckInfoCode)
        requires
            Self::spec_validate(self.0@) is Ok,
        ensures
            r == MsgAckInfoCode::spec_from(self.0@[2]),
    {
        MsgAckInfoCode::from(self.0[2])
    }

    pub fn msg_id(&self) -> (r: u8)
        requires
            Self::spec_validate(self.0@) is Ok,
        ensures
            r == self.0@[3],
    {
        self.0[3]
    }

    pub fn msg_payload_start(&self) -> (r: &[u8])
        requires
            Self::spec_validate(self.0@) is Ok,
        ensures
            r@ == self.0@.subrange(4, 8),
    {
        slice_subrange(self.0, 4, 8)
    }

}

/// The class, message id and longest payload of each packet type of this
/// module.
pub proof fn lemma_packet_ids()
    ensures
        MgaGloEph::CLASS == 0x13,
        MgaGloEph::ID == 0x06,
        MgaGloEph::MAX_PAYLOAD_LEN == 48,
        MgaGpsIono::CLASS == 0x13,
        MgaGpsIono::ID == 0x00,
        MgaGpsIono::MAX_PAYLOAD_LEN == 16,
        MgaGpsEph::CLASS == 0x13,
        MgaGpsEph::ID == 0x00,
        MgaGpsEph::MAX_PAYLOAD_LEN == 68,
        MgaGpsEPH::CLASS == 0x13,
        MgaGpsEPH::ID == 0x00,
        MgaGpsEPH::MAX_PAYLOAD_LEN == 68,
        MgaAck::CLASS == 0x13,
        MgaAck::ID == 0x60,
        MgaAck::MAX_PAYLOAD_LEN == 8,
{
}

} // verus!
