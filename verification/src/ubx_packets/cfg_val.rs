//! Keys of the configuration interface (CFG-VALSET, CFG-VALGET).

use vstd::prelude::*;

use crate::ubx_packets::bytes_le::{u32_le_bytes, u32_to_le};
use crate::ubx_packets::frame::extend_vec;

verus! {

/// Storage size of a configuration value.
#[derive(Debug, Copy, Clone, PartialEq, Eq, Structural)]
pub enum StorageSize {
    OneBit,
    OneByte,
    TwoBytes,
    FourBytes,
    EightBytes,
}

impl StorageSize {
    /// Number of bytes a value of this size takes (a bit takes a byte).
    pub open spec fn spec_to_usize(self) -> usize {
        match self {
            StorageSize::OneBit | StorageSize::OneByte => 1,
            StorageSize::TwoBytes => 2,
            StorageSize::FourBytes => 4,
            StorageSize::EightBytes => 8,
        }
    }

    /// Number of bytes a value of this size takes (a bit takes a byte).
    pub fn to_usize(self) -> (r: usize)
        ensures
            r == self.spec_to_usize(),
    {
        match self {
            Self::OneBit | Self::OneByte => 1,
            Self::TwoBytes => 2,
            Self::FourBytes => 4,
            Self::EightBytes => 8,
        }
    }
}

/// A key of the configuration interface: size code in bits 28 to 30,
/// group in bits 16 to 23, item in bits 0 to 7.
#[derive(Debug, Copy, Clone, PartialEq, Eq, Structural)]
pub struct KeyId(pub u32);

/// The size code of a key.
pub open spec fn size_code(key: u32) -> u32 {
    (key / 0x1000_0000) % 8
}

impl KeyId {
    /// Bytes a key takes.
    pub const SIZE: usize = 4;

    /// Whether the size code of the key names a storage size.
    pub open spec fn spec_has_size(&self) -> bool {
        1 <= size_code(self.0) <= 5
    }

    /// The storage size the size code names.
    pub open spec fn spec_value_size(&self) -> StorageSize {
        let c = size_code(self.0);
        if c == 1 {
            StorageSize::OneBit
        } else if c == 2 {
            StorageSize::OneByte
        } else if c == 3 {
            StorageSize::TwoBytes
        } else if c == 4 {
            StorageSize::FourBytes
        } else {
            StorageSize::EightBytes
        }
    }

    /// The storage size of the values of this key, whose size code must
    /// name one.
    pub fn value_size(&self) -> (r: StorageSize)
        requires
            self.spec_has_size(),
        ensures
            r == self.spec_value_size(),
    {
        let c = (self.0 / 0x1000_0000) % 8;
        match c {
            1 => StorageSize::OneBit,
            2 => StorageSize::OneByte,
            3 => StorageSize::TwoBytes,
            4 => StorageSize::FourBytes,
            _ => StorageSize::EightBytes,
        }
    }

    /// Group of the key.
    pub fn group_id(&self) -> (r: u8)
        ensures
            r == (self.0 / 0x1_0000) % 256,
    {
        ((self.0 / 0x1_0000) % 256) as u8
    }

    /// Item of the key within its group.
    pub fn item_id(&self) -> (r: u8)
        ensures
            r == self.0 % 256,
    {
        (self.0 % 256) as u8
    }

    /// Appends the four little-endian bytes of the key to `buf` and returns
    /// their number.
    pub fn extend_to(&self, buf: &mut Vec<u8>) -> (r: usize)
        ensures
            final(buf)@ == old(buf)@ + u32_le_bytes(self.0),
            r == 4,
    {
        let bytes = u32_to_le(self.0);
        extend_vec(buf, bytes.as_slice());
        Self::SIZE
    }
}

/// A configuration key as used in requests: a key identifier, or the
/// wildcard that stands for all keys.
#[derive(Debug, Copy, Clone, PartialEq, Eq, Structural)]
pub struct CfgKey(pub u32);

impl CfgKey {
    /// The key that stands for all keys.
    pub const WILDCARD_ALL: u32 = 0x7fffffff;

    /// Appends the four little-endian bytes of the key to `buf` and returns
    /// their number.
    pub fn extend_to(&self, buf: &mut Vec<u8>) -> (r: usize)
        ensures
            final(buf)@ == old(buf)@ + u32_le_bytes(self.0),
            r == 4,
    {
        let bytes = u32_to_le(self.0);
        let n = bytes.len();
        extend_vec(buf, bytes.as_slice());
        n
    }
}

/// The bytes a value of each storage size takes: one for a bit or a byte,
/// then two, four and eight.
pub proof fn lemma_storage_size_bytes()
    ensures
        StorageSize::OneBit.spec_to_usize() == 1,
        StorageSize::OneByte.spec_to_usize() == 1,
        StorageSize::TwoBytes.spec_to_usize() == 2,
        StorageSize::FourBytes.spec_to_usize() == 4,
        StorageSize::EightBytes.spec_to_usize() == 8,
{
}

/// The storage size a key names by the size code in its bits 28 to 30:
/// 1 a bit, 2 a byte, 3 two bytes, 4 four bytes, 5 eight bytes.
pub proof fn lemma_key_size_codes(key: u32)
    ensures
        (key / 0x1000_0000) % 8 == 1 ==> KeyId(key).spec_has_size() && KeyId(key).spec_value_size() == StorageSize::OneBit,
        (key / 0x1000_0000) % 8 == 2 ==> KeyId(key).spec_has_size() && KeyId(key).spec_value_size() == StorageSize::OneByte,
        (key / 0x1000_0000) % 8 == 3 ==> KeyId(key).spec_has_size() && KeyId(key).spec_value_size() == StorageSize::TwoBytes,
        (key / 0x1000_0000) % 8 == 4 ==> KeyId(key).spec_has_size() && KeyId(key).spec_value_size() == StorageSize::FourBytes,
        (key / 0x1000_0000) % 8 == 5 ==> KeyId(key).spec_has_size() && KeyId(key).spec_value_size() == StorageSize::EightBytes,
        !(1 <= (key / 0x1000_0000) % 8 <= 5) ==> !KeyId(key).spec_has_size(),
{
}

} // verus!
