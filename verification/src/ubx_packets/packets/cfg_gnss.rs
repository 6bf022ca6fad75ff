//! CFG-GNSS: which constellations and signals the receiver tracks.

use vstd::prelude::*;

use crate::error::ParserError;
use crate::ubx_packets::bytes_le::{le_u32, read_u32_le, u32_le_bytes, u32_to_le};
use crate::ubx_packets::frame::{build_frame, extend_vec, ubx_frame};
use crate::ubx_packets::UbxPacketMeta;

verus! {

/// Multi-GNSS configuration: a header followed by one 8-byte block per
/// constellation.
pub struct CfgGnss;

impl UbxPacketMeta for CfgGnss {
    const CLASS: u8 = 0x06;
    const ID: u8 = 0x3e;
    const MAX_PAYLOAD_LEN: u16 = 1024;

    fn fixed_payload_len() -> (r: Option<u16>)
        ensures
            r is None,
    {
        None
    }
}

/// Size of one configuration block.
pub const GNSS_BLOCK_SIZE: usize = 8;

/// Payload of a [CfgGnss] packet.
pub struct CfgGnssRef<'a>(pub &'a [u8]);

impl<'a> CfgGnssRef<'a> {
    /// The outcome of validating a payload: the header, and as many blocks
    /// as it announces, must be there.
    pub open spec fn spec_validate(payload: Seq<u8>) -> Result<(), ParserError> {
        if payload.len() < 4 {
            Err(ParserError::InvalidPacketLen { packet: "CfgGnss", expect: 4, got: payload.len() as usize })
        } else if payload.len() < 4 + 8 * payload[3] {
            Err(
                ParserError::InvalidPacketLen {
                    packet: "CfgGnss",
                    expect: (4 + 8 * payload[3]) as usize,
                    got: payload.len() as usize,
                },
            )
        } else {
            Ok(())
        }
    }

    /// Checks that `payload` is a valid [CfgGnss] payload.
    pub fn validate(payload: &[u8]) -> (r: Result<(), ParserError>)
        ensures
            r == Self::spec_validate(payload@),
    {
        if payload.len() < 4 {
            return Err(ParserError::InvalidPacketLen { packet: "CfgGnss", expect: 4, got: payload.len() });
        }
        let need = 4 + (payload[3] as usize) * GNSS_BLOCK_SIZE;
        if payload.len() < need {
            return Err(ParserError::InvalidPacketLen { packet: "CfgGnss", expect: need, got: payload.len() });
        }
        Ok(())
    }

    /// Length of the payload.
    pub fn payload_len(&self) -> (r: usize)
        ensures
            r == self.0@.len(),
    {
        self.0.len()
    }

    /// Message version.
    pub fn msg_version(&self) -> (r: u8)
        requires
            Self::spec_validate(self.0@) is Ok,
        ensures
            r == self.0@[0],
    {
        self.0[0]
    }

    /// Number of tracking channels of the hardware.
    pub fn num_trk_ch_hw(&self) -> (r: u8)
        requires
            Self::spec_validate(self.0@) is Ok,
        ensures
            r == self.0@[1],
    {
        self.0[1]
    }

    /// Number of tracking channels to use.
    pub fn num_trk_ch_use(&self) -> (r: u8)
        requires
            Self::spec_validate(self.0@) is Ok,
        ensures
            r == self.0@[2],
    {
        self.0[2]
    }

    /// Number of configuration blocks that follow.
    pub fn num_config_blocks(&self) -> (r: u8)
        requires
            Self::spec_validate(self.0@) is Ok,
        ensures
            r == self.0@[3],
    {
        self.0[3]
    }

    /// The configuration blocks.
    pub fn blocks(&self) -> (r: GnssConfigBlockIter<'a>)
        requires
            Self::spec_validate(self.0@) is Ok,
        ensures
            r matches GnssConfigBlockIter::Bytes { data, offset } && offset == 0 && data@
                == self.0@.subrange(4, 4 + 8 * self.0@[3]),
    {
        let n = self.0[3] as usize * GNSS_BLOCK_SIZE;
        GnssConfigBlockIter::new(crate::buffer::slice_subrange(self.0, 4, 4 + n))
    }
}

/// A satellite system.
#[derive(Clone, Copy, Debug, PartialEq, Eq, Structural)]
pub enum GnssId {
    GPS,
    SBAS,
    GALILEO,
    BEIDOU,
    IMES,
    QZSS,
    GLONASS,
}

/// The identifier of a satellite system in the protocol.
pub open spec fn gnss_id_raw(id: GnssId) -> u8 {
    match id {
        GnssId::GPS => 0,
        GnssId::SBAS => 1,
        GnssId::GALILEO => 2,
        GnssId::BEIDOU => 3,
        GnssId::IMES => 4,
        GnssId::QZSS => 5,
        GnssId::GLONASS => 6,
    }
}

/// The satellite system a protocol identifier stands for, if any.
pub open spec fn gnss_id_of(value: u8) -> Result<GnssId, &'static str> {
    if value == 0 {
        Ok(GnssId::GPS)
    } else if value == 1 {
        Ok(GnssId::SBAS)
    } else if value == 2 {
        Ok(GnssId::GALILEO)
    } else if value == 3 {
        Ok(GnssId::BEIDOU)
    } else if value == 4 {
        Ok(GnssId::IMES)
    } else if value == 5 {
        Ok(GnssId::QZSS)
    } else if value == 6 {
        Ok(GnssId::GLONASS)
    } else {
        Err("Invalid GnssId value: value must be in range [0, 6]")
    }
}

impl GnssId {
    /// The identifier of this satellite system in the protocol.
    pub fn into_raw(self) -> (r: u8)
        ensures
            r == gnss_id_raw(self),
    {
        match self {
            GnssId::GPS => 0,
            GnssId::SBAS => 1,
            GnssId::GALILEO => 2,
            GnssId::BEIDOU => 3,
            GnssId::IMES => 4,
            GnssId::QZSS => 5,
            GnssId::GLONASS => 6,
        }
    }
}

impl Default for GnssId {
    fn default() -> (r: Self)
        ensures
            r == GnssId::GPS,
    {
        GnssId::GPS
    }
}

impl TryFrom<u8> for GnssId {
    type Error = &'static str;

    fn try_from(value: u8) -> (r: Result<Self, Self::Error>) {
        match value {
            0 => Ok(GnssId::GPS),
            1 => Ok(GnssId::SBAS),
            2 => Ok(GnssId::GALILEO),
            3 => Ok(GnssId::BEIDOU),
            4 => Ok(GnssId::IMES),
            5 => Ok(GnssId::QZSS),
            6 => Ok(GnssId::GLONASS),
            _ => Err("Invalid GnssId value: value must be in range [0, 6]"),
        }
    }
}

impl vstd::std_specs::convert::TryFromSpecImpl<u8> for GnssId {
    open spec fn obeys_try_from_spec() -> bool {
        true
    }

    open spec fn try_from_spec(value: u8) -> Result<Self, Self::Error> {
        gnss_id_of(value)
    }
}

/// The signals of a satellite system, as the bits 16 to 23 of the block
/// flags (only the bits the system defines are kept).
#[derive(Clone, Copy, Debug, PartialEq, Eq, Structural)]
pub enum SigCfgMask {
    Gps(u8),
    Galileo(u8),
    Glonass(u8),
    BeiDou(u8),
    Sbas(u8),
    Qzss(u8),
    Imes(u8),
    Unknown(u8),
}

/// GPS L1C/A.
pub const GPS_SIG_L1CA: u8 = 0x01;
/// GPS L2C.
pub const GPS_SIG_L2C: u8 = 0x10;
/// GPS L5.
pub const GPS_SIG_L5: u8 = 0x20;
/// SBAS L1C/A.
pub const SBAS_SIG_L1CA: u8 = 0x01;
/// BeiDou B1I.
pub const BEIDOU_SIG_B1I: u8 = 0x01;
/// BeiDou B1C.
pub const BEIDOU_SIG_B1C: u8 = 0x10;
/// BeiDou B2A.
pub const BEIDOU_SIG_B2A: u8 = 0x80;
/// Galileo E1.
pub const GALILEO_SIG_E1: u8 = 0x01;
/// Galileo E5a.
pub const GALILEO_SIG_E5A: u8 = 0x10;
/// Galileo E5b.
pub const GALILEO_SIG_E5B: u8 = 0x20;
/// GLONASS L1.
pub const GLONASS_SIG_L10F: u8 = 0x01;
/// GLONASS L2.
pub const GLONASS_SIG_L20F: u8 = 0x10;
/// QZSS L1C/A.
pub const QZSS_SIG_L1CA: u8 = 0x01;
/// QZSS L1S.
pub const QZSS_SIG_L1S: u8 = 0x04;
/// QZSS L2C.
pub const QZSS_SIG_L2C: u8 = 0x10;
/// QZSS L5.
pub const QZSS_SIG_L5: u8 = 0x20;
/// IMES L1C/A.
pub const IMES_SIG_L1CA: u8 = 0x01;

impl SigCfgMask {
    /// The signal bits.
    pub open spec fn spec_raw_bits(self) -> u8 {
        match self {
            SigCfgMask::Gps(m) => m,
            SigCfgMask::Galileo(m) => m,
            SigCfgMask::Glonass(m) => m,
            SigCfgMask::BeiDou(m) => m,
            SigCfgMask::Sbas(m) => m,
            SigCfgMask::Qzss(m) => m,
            SigCfgMask::Imes(m) => m,
            SigCfgMask::Unknown(m) => m,
        }
    }

    /// The signal bits.
    pub fn raw_bits(self) -> (r: u8)
        ensures
            r == self.spec_raw_bits(),
    {
        match self {
            SigCfgMask::Gps(m) => m,
            SigCfgMask::Galileo(m) => m,
            SigCfgMask::Glonass(m) => m,
            SigCfgMask::BeiDou(m) => m,
            SigCfgMask::Sbas(m) => m,
            SigCfgMask::Qzss(m) => m,
            SigCfgMask::Imes(m) => m,
            SigCfgMask::Unknown(b) => b,
        }
    }
}

/// Configuration of one satellite system.
#[derive(Clone, Copy, Debug, PartialEq, Eq, Structural)]
pub struct GnssConfigBlock {
    /// The satellite system.
    pub gnss_id: GnssId,
    /// Minimum number of tracking channels reserved for this system.
    pub res_trk_ch: u8,
    /// Maximum number of tracking channels used for this system.
    pub max_trk_ch: u8,
    pub reserved1: u8,
    /// Bit 0: enabled; bits 16 to 23: signal configuration mask.
    pub flags: u32,
}

/// The eight bytes of a block.
pub open spec fn block_bytes(b: GnssConfigBlock) -> Seq<u8> {
    seq![gnss_id_raw(b.gnss_id), b.res_trk_ch, b.max_trk_ch, b.reserved1] + u32_le_bytes(b.flags)
}

/// The bytes of the blocks, one after the other.
pub open spec fn blocks_bytes(bs: Seq<GnssConfigBlock>) -> Seq<u8>
    decreases bs.len(),
{
    if bs.len() == 0 {
        Seq::empty()
    } else {
        block_bytes(bs[0]) + blocks_bytes(bs.skip(1))
    }
}

/// The block read from the eight bytes at the start of `s`, if its system
/// identifier is known.
pub open spec fn block_of(s: Seq<u8>) -> Option<GnssConfigBlock> {
    match gnss_id_of(s[0]) {
        Ok(id) => Some(
            GnssConfigBlock { gnss_id: id, res_trk_ch: s[1], max_trk_ch: s[2], reserved1: s[3], flags: le_u32(s, 4) },
        ),
        Err(_) => None,
    }
}

impl Default for GnssConfigBlock {
    fn default() -> (r: Self)
        ensures
            r == (GnssConfigBlock { gnss_id: GnssId::GPS, res_trk_ch: 0, max_trk_ch: 0, reserved1: 0, flags: 0 }),
    {
        GnssConfigBlock { gnss_id: GnssId::GPS, res_trk_ch: 0, max_trk_ch: 0, reserved1: 0, flags: 0 }
    }
}

impl GnssConfigBlock {
    /// Whether the system is enabled.
    pub fn enabled(&self) -> (r: bool)
        ensures
            r == (self.flags % 2 == 1),
    {
        let r = self.flags & 0x01 == 1;
        proof {
            let f = self.flags;
            assert((f & 1 == 1) == (f % 2 == 1)) by (bit_vector);
        }
        r
    }

    /// A block for `gnss_id`, enabled or not, with the given channel limits
    /// and signals.
    pub fn new(enabled: bool, gnss_id: GnssId, min: u8, max: u8, sigs: SigCfgMask) -> (r: Self)
        ensures
            r.gnss_id == gnss_id,
            r.res_trk_ch == min,
            r.max_trk_ch == max,
            r.reserved1 == 0,
            r.flags == (if enabled { 1int } else { 0int }) + sigs.spec_raw_bits() * 0x10000,
    {
        let mask = sigs.raw_bits();
        let e: u32 = if enabled {
            1
        } else {
            0
        };
        let flags = e | ((mask as u32) << 16);
        proof {
            let m = mask as u32;
            assert(e | (m << 16) == e + m * 0x10000) by (bit_vector)
                requires
                    e <= 1,
                    m < 256,
            ;
        }
        Self { gnss_id, res_trk_ch: min, max_trk_ch: max, flags, reserved1: 0 }
    }

    /// The signal configuration mask bits of the flags.
    pub fn raw_sig_mask(&self) -> (r: u8)
        ensures
            r == (self.flags / 0x10000) % 256,
    {
        let f = self.flags;
        proof {
            assert((f >> 16) & 0xff == (f / 0x10000) % 256) by (bit_vector);
        }
        ((f >> 16) & 0xff) as u8
    }

    /// The signal configuration mask, read for the system of the block.
    pub fn sig_cfg_mask(&self) -> (r: SigCfgMask)
        ensures
            ({
                let m = ((self.flags / 0x10000) % 256) as u8;
                r == match self.gnss_id {
                    GnssId::GPS => SigCfgMask::Gps(m & (GPS_SIG_L1CA | GPS_SIG_L2C | GPS_SIG_L5)),
                    GnssId::GALILEO => SigCfgMask::Galileo(
                        m & (GALILEO_SIG_E1 | GALILEO_SIG_E5A | GALILEO_SIG_E5B),
                    ),
                    GnssId::BEIDOU => SigCfgMask::BeiDou(
                        m & (BEIDOU_SIG_B1I | BEIDOU_SIG_B1C | BEIDOU_SIG_B2A),
                    ),
                    GnssId::GLONASS => SigCfgMask::Glonass(m & (GLONASS_SIG_L10F | GLONASS_SIG_L20F)),
                    GnssId::QZSS => SigCfgMask::Qzss(
                        m & (QZSS_SIG_L1CA | QZSS_SIG_L1S | QZSS_SIG_L2C | QZSS_SIG_L5),
                    ),
                    GnssId::SBAS => SigCfgMask::Sbas(m & SBAS_SIG_L1CA),
                    GnssId::IMES => SigCfgMask::Unknown(m),
                }
            }),
    {
        let m = self.raw_sig_mask();
        match self.gnss_id {
            GnssId::GPS => SigCfgMask::Gps(m & (GPS_SIG_L1CA | GPS_SIG_L2C | GPS_SIG_L5)),
            GnssId::GALILEO => SigCfgMask::Galileo(m & (GALILEO_SIG_E1 | GALILEO_SIG_E5A | GALILEO_SIG_E5B)),
            GnssId::BEIDOU => SigCfgMask::BeiDou(m & (BEIDOU_SIG_B1I | BEIDOU_SIG_B1C | BEIDOU_SIG_B2A)),
            GnssId::GLONASS => SigCfgMask::Glonass(m & (GLONASS_SIG_L10F | GLONASS_SIG_L20F)),
            GnssId::QZSS => SigCfgMask::Qzss(m & (QZSS_SIG_L1CA | QZSS_SIG_L1S | QZSS_SIG_L2C | QZSS_SIG_L5)),
            GnssId::SBAS => SigCfgMask::Sbas(m & SBAS_SIG_L1CA),
            GnssId::IMES => SigCfgMask::Unknown(m),
        }
    }

    /// Appends the eight bytes of the block to `buf` and returns their
    /// number.
    pub fn extend_to(&self, buf: &mut Vec<u8>) -> (r: usize)
        ensures
            final(buf)@ == old(buf)@ + block_bytes(*self),
            r == 8,
    {
        let flags_bytes = u32_to_le(self.flags);
        let bytes = [
            self.gnss_id.into_raw(),
            self.res_trk_ch,
            self.max_trk_ch,
            self.reserved1,
            flags_bytes[0],
            flags_bytes[1],
            flags_bytes[2],
            flags_bytes[3],
        ];
        proof {
            assert(bytes@ =~= block_bytes(*self));
        }
        extend_vec(buf, bytes.as_slice());
        bytes.len()
    }
}

/// Iterator over configuration blocks: read from the bytes of a received
/// packet, or taken from a slice when a packet is built.
pub enum GnssConfigBlockIter<'a> {
    Bytes { data: &'a [u8], offset: usize },
    Slice { blocks: &'a [GnssConfigBlock], index: usize },
}

/// The blocks read from `s` in 8-byte steps, up to the first unknown
/// system identifier or the last whole block.
pub open spec fn blocks_in(s: Seq<u8>) -> Seq<GnssConfigBlock>
    decreases s.len(),
{
    if s.len() < 8 {
        Seq::empty()
    } else {
        match block_of(s) {
            Some(b) => seq![b] + blocks_in(s.skip(8)),
            None => Seq::empty(),
        }
    }
}

impl<'a> GnssConfigBlockIter<'a> {
    /// The blocks the iterator yields before it first returns `None`.
    pub open spec fn remaining(&self) -> Seq<GnssConfigBlock> {
        match *self {
            GnssConfigBlockIter::Bytes { data, offset } => blocks_in(data@.skip(offset as int)),
            GnssConfigBlockIter::Slice { blocks, index } => blocks@.skip(index as int),
        }
    }

    /// Offsets in range.
    pub open spec fn well_formed(&self) -> bool {
        match *self {
            GnssConfigBlockIter::Bytes { data, offset } => offset <= data@.len(),
            GnssConfigBlockIter::Slice { blocks, index } => index <= blocks@.len(),
        }
    }

    /// An iterator over the given blocks.
    fn from_slice(blocks: &'a [GnssConfigBlock]) -> (r: Self)
        ensures
            r == (GnssConfigBlockIter::Slice { blocks, index: 0 }),
    {
        GnssConfigBlockIter::Slice { blocks, index: 0 }
    }

    /// An iterator over the blocks held in `bytes`.
    fn new(bytes: &'a [u8]) -> (r: Self)
        ensures
            r == (GnssConfigBlockIter::Bytes { data: bytes, offset: 0 }),
    {
        GnssConfigBlockIter::Bytes { data: bytes, offset: 0 }
    }

    /// The next block. Read from bytes, a block whose system identifier is
    /// unknown gives `None` (and is passed over).
    pub fn next(&mut self) -> (r: Option<GnssConfigBlock>)
        requires
            old(self).well_formed(),
        ensures
            final(self).well_formed(),
            match *old(self) {
                GnssConfigBlockIter::Bytes { data, offset } => if offset + 8 <= data@.len() {
                    &&& r == block_of(data@.skip(offset as int))
                    &&& *final(self) == (GnssConfigBlockIter::Bytes { data, offset: (offset + 8) as usize })
                } else {
                    r is None && *final(self) == *old(self)
                },
                GnssConfigBlockIter::Slice { blocks, index } => if index < blocks@.len() {
                    &&& r == Some(blocks@[index as int])
                    &&& *final(self) == (GnssConfigBlockIter::Slice { blocks, index: (index + 1) as usize })
                } else {
                    r is None && *final(self) == *old(self)
                },
            },
            r matches Some(b) ==> old(self).remaining().len() > 0 && b == old(self).remaining()[0]
                && final(self).remaining() == old(self).remaining().skip(1),
            r is None ==> old(self).remaining().len() == 0,
    {
        match self {
            GnssConfigBlockIter::Bytes { data, offset } => {
                let d: &[u8] = *data;
                let o: usize = *offset;
                if d.len() < 8 || o > d.len() - 8 {
                    return None;
                }
                *offset = o + 8;
                let ghost s = d@.skip(o as int);
                proof {
                    assert(s.skip(8) =~= d@.skip(o + 8));
                }
                let id = match GnssId::try_from(d[o]) {
                    Ok(id) => id,
                    Err(_) => {
                        return None;
                    },
                };
                let flags = read_u32_le(d, o + 4);
                proof {
                    assert(le_u32(d@, o + 4) == le_u32(s, 4));
                }
                Some(
                    GnssConfigBlock {
                        gnss_id: id,
                        res_trk_ch: d[o + 1],
                        max_trk_ch: d[o + 2],
                        reserved1: d[o + 3],
                        flags,
                    },
                )
            },
            GnssConfigBlockIter::Slice { blocks, index } => {
                let b: &[GnssConfigBlock] = *blocks;
                let i: usize = *index;
                if i >= b.len() {
                    return None;
                }
                *index = i + 1;
                proof {
                    assert(b@.skip(i as int).skip(1) =~= b@.skip(i + 1));
                }
                Some(b[i])
            },
        }
    }
}

/// Builder of [CfgGnss] packets.
pub struct CfgGnssBuilder<'a> {
    pub msg_version: u8,
    pub num_trk_ch_hw: u8,
    pub num_trk_ch_use: u8,
    pub num_config_blocks: u8,
    pub blocks: GnssConfigBlockIter<'a>,
}

/// The payload a builder writes: its header fields and the blocks its
/// iterator yields.
pub open spec fn cfg_gnss_payload(b: CfgGnssBuilder) -> Seq<u8> {
    seq![b.msg_version, b.num_trk_ch_hw, b.num_trk_ch_use, b.num_config_blocks] + blocks_bytes(
        b.blocks.remaining(),
    )
}

impl<'a> Default for CfgGnssBuilder<'a> {
    fn default() -> (r: Self)
        ensures
            r.msg_version == 0,
            r.num_trk_ch_hw == 0,
            r.num_trk_ch_use == 0,
            r.num_config_blocks == 0,
            r.blocks.well_formed(),
            r.blocks.remaining() == Seq::<GnssConfigBlock>::empty(),
    {
        let none: &[GnssConfigBlock] = &[];
        CfgGnssBuilder {
            msg_version: 0,
            num_trk_ch_hw: 0,
            num_trk_ch_use: 0,
            num_config_blocks: 0,
            blocks: GnssConfigBlockIter::from_slice(none),
        }
    }
}

impl<'a> CfgGnssBuilder<'a> {
    /// Sets the blocks, and their number (truncated to a byte).
    pub fn with_blocks(self, blocks: &'a [GnssConfigBlock]) -> (r: Self)
        ensures
            r.msg_version == self.msg_version,
            r.num_trk_ch_hw == self.num_trk_ch_hw,
            r.num_trk_ch_use == self.num_trk_ch_use,
            r.num_config_blocks == blocks@.len() as u8,
            r.blocks == (GnssConfigBlockIter::Slice { blocks, index: 0 }),
    {
        let mut s = self;
        s.num_config_blocks = #[verifier::truncate] (blocks.len() as u8);
        s.blocks = GnssConfigBlockIter::from_slice(blocks);
        s
    }

    /// Appends the whole packet frame to `out`.
    pub fn extend_to(self, out: &mut Vec<u8>)
        requires
            self.blocks.well_formed(),
            4 + 8 * self.blocks.remaining().len() <= u16::MAX,
        ensures
            final(out)@ == old(out)@ + ubx_frame(CfgGnss::CLASS, CfgGnss::ID, cfg_gnss_payload(self)),
    {
        let mut payload: Vec<u8> = Vec::new();
        payload.push(self.msg_version);
        payload.push(self.num_trk_ch_hw);
        payload.push(self.num_trk_ch_use);
        payload.push(self.num_config_blocks);
        let ghost all = self.blocks.remaining();
        let ghost head = seq![self.msg_version, self.num_trk_ch_hw, self.num_trk_ch_use, self.num_config_blocks];
        let mut it = self.blocks;
        proof {
            assert(payload@ =~= head + blocks_bytes(Seq::<GnssConfigBlock>::empty()));
            assert(all.skip(0) =~= all);
        }
        let ghost mut k: int = 0;
        loop
            invariant_except_break
                it.well_formed(),
                it.remaining() == all.skip(k),
            invariant
                0 <= k <= all.len(),
                payload@ == head + blocks_bytes(all.take(k)),
                4 + 8 * all.len() <= u16::MAX,
            ensures
                k == all.len(),
            decreases all.len() - k,
        {
            match it.next() {
                Some(block) => {
                    proof {
                        lemma_blocks_bytes_push(all.take(k), block);
                        assert(all.take(k).push(block) =~= all.take(k + 1));
                        k = k + 1;
                    }
                    block.extend_to(&mut payload);
                },
                None => {
                    break;
                },
            }
        }
        proof {
            assert(all.take(k) =~= all);
            lemma_blocks_bytes_len(all);
        }
        let frame = build_frame(CfgGnss::CLASS, CfgGnss::ID, payload.as_slice());
        extend_vec(out, frame.as_slice());
    }
}

/// Appending a block appends its bytes.
pub proof fn lemma_blocks_bytes_push(bs: Seq<GnssConfigBlock>, b: GnssConfigBlock)
    ensures
        blocks_bytes(bs.push(b)) == blocks_bytes(bs) + block_bytes(b),
    decreases bs.len(),
{
    if bs.len() == 0 {
        assert(bs.push(b).skip(1) =~= Seq::<GnssConfigBlock>::empty());
        assert(bs.push(b)[0] == b);
        assert(blocks_bytes(Seq::<GnssConfigBlock>::empty()) =~= Seq::<u8>::empty());
        assert(blocks_bytes(bs) =~= Seq::<u8>::empty());
        assert(block_bytes(b) + Seq::<u8>::empty() =~= block_bytes(b));
        assert(Seq::<u8>::empty() + block_bytes(b) =~= block_bytes(b));
    } else {
        assert(bs.push(b).skip(1) =~= bs.skip(1).push(b));
        lemma_blocks_bytes_push(bs.skip(1), b);
        assert(block_bytes(bs[0]) + (blocks_bytes(bs.skip(1)) + block_bytes(b)) =~= (block_bytes(bs[0])
            + blocks_bytes(bs.skip(1))) + block_bytes(b));
    }
}

/// Each block takes eight bytes.
pub proof fn lemma_blocks_bytes_len(bs: Seq<GnssConfigBlock>)
    ensures
        blocks_bytes(bs).len() == 8 * bs.len(),
    decreases bs.len(),
{
    if bs.len() > 0 {
        lemma_blocks_bytes_len(bs.skip(1));
    }
}

/// The eight bytes a block is written as (see [GnssConfigBlock::extend_to])
/// are read back as that block, and an iterator over them yields it alone.
pub proof fn lemma_block_roundtrip(b: GnssConfigBlock)
    ensures
        block_bytes(b).len() == 8,
        block_of(block_bytes(b)) == Some(b),
        blocks_in(block_bytes(b)) == seq![b],
{
    lemma_blocks_roundtrip(seq![b]);
    assert(seq![b].skip(1) =~= Seq::<GnssConfigBlock>::empty());
    assert(blocks_bytes(Seq::<GnssConfigBlock>::empty()) =~= Seq::<u8>::empty());
    assert(blocks_bytes(seq![b]) =~= block_bytes(b));
    assert(block_bytes(b).skip(8) =~= Seq::<u8>::empty());
}

/// A packet built from blocks whose number the header gives is valid, and
/// its blocks are read back as they were built.
pub proof fn lemma_cfg_gnss_roundtrip(b: CfgGnssBuilder)
    requires
        b.num_config_blocks == b.blocks.remaining().len(),
    ensures
        CfgGnssRef::spec_validate(cfg_gnss_payload(b)) is Ok,
        blocks_in(cfg_gnss_payload(b).subrange(4, 4 + 8 * cfg_gnss_payload(b)[3])) == b.blocks.remaining(),
{
    let p = cfg_gnss_payload(b);
    let bs = b.blocks.remaining();
    lemma_blocks_bytes_len(bs);
    lemma_blocks_roundtrip(bs);
    assert(p.subrange(4, 4 + 8 * p[3]) =~= blocks_bytes(bs));
}

/// Blocks written one after the other are read back as they were.
pub proof fn lemma_blocks_roundtrip(bs: Seq<GnssConfigBlock>)
    ensures
        blocks_in(blocks_bytes(bs)) == bs,
    decreases bs.len(),
{
    if bs.len() > 0 {
        let b = bs[0];
        let s = blocks_bytes(bs);
        lemma_blocks_bytes_len(bs);
        lemma_blocks_roundtrip(bs.skip(1));
        assert(s.skip(8) =~= blocks_bytes(bs.skip(1)));
        let fb = u32_le_bytes(b.flags);
        assert(le_u32(s, 4) == le_u32(fb, 0));
        crate::ubx_packets::bytes_le::lemma_u32_le_roundtrip(b.flags);
        assert(gnss_id_of(gnss_id_raw(b.gnss_id)) == Ok::<GnssId, &'static str>(b.gnss_id));
        assert(seq![b] + bs.skip(1) =~= bs);
    } else {
        assert(blocks_bytes(bs) =~= Seq::<u8>::empty());
    }
}

/// The class, message id and longest payload of each packet type of this
/// module.
pub proof fn lemma_packet_ids()
    ensures
        CfgGnss::CLASS == 0x06,
        CfgGnss::ID == 0x3e,
        CfgGnss::MAX_PAYLOAD_LEN == 1024,
{
}

/// The satellite system identifiers of the u-blox protocol: GPS 0, SBAS 1,
/// Galileo 2, BeiDou 3, IMES 4, QZSS 5, GLONASS 6; every other value is
/// refused, and every system is read back from its identifier.
pub proof fn lemma_gnss_id_codes(id: GnssId)
    ensures
        gnss_id_raw(GnssId::GPS) == 0,
        gnss_id_raw(GnssId::SBAS) == 1,
        gnss_id_raw(GnssId::GALILEO) == 2,
        gnss_id_raw(GnssId::BEIDOU) == 3,
        gnss_id_raw(GnssId::IMES) == 4,
        gnss_id_raw(GnssId::QZSS) == 5,
        gnss_id_raw(GnssId::GLONASS) == 6,
        gnss_id_of(gnss_id_raw(id)) == Ok::<GnssId, &'static str>(id),
        forall|v: u8| 6 < v ==> (#[trigger] gnss_id_of(v)) is Err,
{
}

} // verus!
