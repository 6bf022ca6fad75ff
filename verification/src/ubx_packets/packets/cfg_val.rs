//! Configuration items (key and value) as the configuration interface
//! carries them, and iteration over a list of them.

use vstd::prelude::*;

use crate::buffer::slice_subrange;
use crate::error::ParserError;
use crate::ubx_packets::bytes_le::{
    le_u16, le_u32, lemma_u32_le_roundtrip, read_u16_le, read_u32_le, u16_le_bytes, u16_to_le,
    u32_le_bytes, u32_to_le,
};
use crate::ubx_packets::cfg_keys::{is_known_key, known_key, lemma_known_key_has_size};
use crate::ubx_packets::cfg_val::{size_code, CfgKey, KeyId};
use crate::ubx_packets::frame::{build_frame, extend_vec, ubx_frame};
use crate::ubx_packets::packets::enums::CfgLayerGet;
use crate::ubx_packets::UbxPacketMeta;

verus! {

/// Bytes that a value of the key `key` takes, from the key's size code.
pub open spec fn value_len(key: u32) -> nat {
    KeyId(key).spec_value_size().spec_to_usize() as nat
}

/// The eight little-endian bytes of `x`.
pub open spec fn u64_le_bytes(x: u64) -> Seq<u8> {
    seq![
        (x % 0x100) as u8,
        ((x / 0x100) % 0x100) as u8,
        ((x / 0x1_0000) % 0x100) as u8,
        ((x / 0x100_0000) % 0x100) as u8,
        ((x / 0x1_0000_0000) % 0x100) as u8,
        ((x / 0x100_0000_0000) % 0x100) as u8,
        ((x / 0x1_0000_0000_0000) % 0x100) as u8,
        ((x / 0x100_0000_0000_0000) % 0x100) as u8,
    ]
}

/// The bytes a value takes follow the size code in bits 28 to 30 of its key:
/// one for a bit or a byte, two, four or eight.
pub proof fn lemma_value_len_by_size_code(key: u32)
    ensures
        (key / 0x1000_0000) % 8 == 1 ==> value_len(key) == 1,
        (key / 0x1000_0000) % 8 == 2 ==> value_len(key) == 1,
        (key / 0x1000_0000) % 8 == 3 ==> value_len(key) == 2,
        (key / 0x1000_0000) % 8 == 4 ==> value_len(key) == 4,
        (key / 0x1000_0000) % 8 == 5 ==> value_len(key) == 8,
{
}

/// An item of a known key takes its four key bytes and as many value bytes
/// as the key's size code gives.
pub proof fn lemma_item_len_by_size_code(v: CfgVal)
    requires
        v.well_formed(),
    ensures
        (v.spec_key() / 0x1000_0000) % 8 <= 2 ==> v.spec_bytes().len() == 5,
        (v.spec_key() / 0x1000_0000) % 8 == 3 ==> v.spec_bytes().len() == 6,
        (v.spec_key() / 0x1000_0000) % 8 == 4 ==> v.spec_bytes().len() == 8,
        (v.spec_key() / 0x1000_0000) % 8 == 5 ==> v.spec_bytes().len() == 12,
{
    v.lemma_well_formed();
}

/// A configuration item: a key that the interface knows, and the
/// little-endian bytes of its value, as many as the key's storage size
/// gives (the rest of the array is zero).
#[derive(Debug, Copy, Clone)]
pub struct CfgVal {
    key: u32,
    value: [u8; 8],
}

impl CfgVal {
    /// The key is known and the bytes past the value are zero.
    pub closed spec fn well_formed(&self) -> bool {
        &&& is_known_key(self.key)
        &&& forall|i: int| value_len(self.key) <= i < 8 ==> self.value@[i] == 0
    }

    /// The key of the item.
    pub closed spec fn spec_key(&self) -> u32 {
        self.key
    }

    /// The little-endian bytes of the value.
    pub closed spec fn spec_value(&self) -> Seq<u8> {
        self.value@.take(value_len(self.key) as int)
    }

    /// The item as the interface carries it: the key's four little-endian
    /// bytes, then the value's.
    pub open spec fn spec_bytes(&self) -> Seq<u8> {
        u32_le_bytes(self.spec_key()) + self.spec_value()
    }

    /// What a well-formed item is made of.
    pub proof fn lemma_well_formed(&self)
        requires
            self.well_formed(),
        ensures
            is_known_key(self.spec_key()),
            1 <= size_code(self.spec_key()) <= 5,
            1 <= value_len(self.spec_key()) <= 8,
            self.spec_value().len() == value_len(self.spec_key()),
            self.spec_bytes().len() == 4 + value_len(self.spec_key()),
    {
        lemma_known_key_has_size(self.key);
    }

    /// The item of key `key` whose value is the low bytes of `value`, as many
    /// as the key's storage size gives; `None` where the key is unknown.
    pub fn new(key: u32, value: u64) -> (r: Option<CfgVal>)
        ensures
            r.is_some() == is_known_key(key),
            r matches Some(v) ==> {
                &&& v.well_formed()
                &&& v.spec_key() == key
                &&& v.spec_value() == u64_le_bytes(value).take(value_len(key) as int)
            },
    {
        if !known_key(key) {
            return None;
        }
        proof {
            lemma_known_key_has_size(key);
        }
        let n = KeyId(key).value_size().to_usize();
        let bytes: [u8; 8] = [
            (value % 0x100) as u8,
            ((value / 0x100) % 0x100) as u8,
            ((value / 0x1_0000) % 0x100) as u8,
            ((value / 0x100_0000) % 0x100) as u8,
            ((value / 0x1_0000_0000) % 0x100) as u8,
            ((value / 0x100_0000_0000) % 0x100) as u8,
            ((value / 0x1_0000_0000_0000) % 0x100) as u8,
            ((value / 0x100_0000_0000_0000) % 0x100) as u8,
        ];
        let mut kept: [u8; 8] = [0u8; 8];
        let mut i: usize = 0;
        while i < n
            invariant
                n == value_len(key),
                n <= 8,
                i <= n,
                bytes@ == u64_le_bytes(value),
                kept@.len() == 8,
                forall|j: int| 0 <= j < i ==> kept@[j] == bytes@[j],
                forall|j: int| i <= j < 8 ==> kept@[j] == 0,
            decreases n - i,
        {
            kept[i] = bytes[i];
            i = i + 1;
        }
        let v = CfgVal { key, value: kept };
        assert(v.spec_value() =~= u64_le_bytes(value).take(n as int));
        Some(v)
    }

    /// The key of the item.
    pub fn key(&self) -> (r: u32)
        ensures
            r == self.spec_key(),
    {
        self.key
    }

    /// The little-endian bytes of the value.
    pub fn value_bytes(&self) -> (r: &[u8])
        requires
            self.well_formed(),
        ensures
            r@ == self.spec_value(),
    {
        proof {
            lemma_known_key_has_size(self.key);
        }
        let n = KeyId(self.key).value_size().to_usize();
        slice_subrange(self.value.as_slice(), 0, n)
    }

    /// Bytes the item takes: key and value.
    pub fn len(&self) -> (r: usize)
        requires
            self.well_formed(),
        ensures
            r == self.spec_bytes().len(),
    {
        proof {
            lemma_known_key_has_size(self.key);
        }
        KeyId::SIZE + KeyId(self.key).value_size().to_usize()
    }

    /// Whether the item takes no bytes, which no item does.
    pub fn is_empty(&self) -> (r: bool)
        requires
            self.well_formed(),
        ensures
            r == (self.spec_bytes().len() == 0),
            !r,
    {
        self.len() == 0
    }

    /// Reads the item at the start of `buf`: `None` where its key is not
    /// one the interface knows.  A known key's value must be in `buf`.
    pub fn parse(buf: &[u8]) -> (r: Option<CfgVal>)
        requires
            buf@.len() >= 4,
            is_known_key(le_u32(buf@, 0)) ==> buf@.len() >= 4 + value_len(le_u32(buf@, 0)),
        ensures
            r.is_some() == is_known_key(le_u32(buf@, 0)),
            r matches Some(v) ==> {
                &&& v.well_formed()
                &&& v.spec_key() == le_u32(buf@, 0)
                &&& v.spec_bytes() == buf@.take(4 + value_len(le_u32(buf@, 0)) as int)
            },
    {
        let key = read_u32_le(buf, 0);
        if !known_key(key) {
            return None;
        }
        proof {
            lemma_known_key_has_size(key);
        }
        let n = KeyId(key).value_size().to_usize();
        let mut value: [u8; 8] = [0u8; 8];
        let mut i: usize = 0;
        while i < n
            invariant
                n == value_len(key),
                n <= 8,
                4 + n <= buf@.len(),
                i <= n,
                value@.len() == 8,
                forall|j: int| 0 <= j < i ==> value@[j] == buf@[4 + j],
                forall|j: int| i <= j < 8 ==> value@[j] == 0,
            decreases n - i,
        {
            value[i] = buf[4 + i];
            i = i + 1;
        }
        let v = CfgVal { key, value };
        proof {
            assert(u32_le_bytes(key) =~= buf@.take(4)) by {
                lemma_u32_le_roundtrip_bytes(buf@.take(4));
            }
            assert(v.spec_bytes() =~= buf@.take(4 + n as int));
        }
        Some(v)
    }

    /// Appends the item's bytes to `buf` and returns their number.
    pub fn extend_to(&self, buf: &mut Vec<u8>) -> (r: usize)
        requires
            self.well_formed(),
        ensures
            final(buf)@ == old(buf)@ + self.spec_bytes(),
            r == self.spec_bytes().len(),
    {
        proof {
            lemma_known_key_has_size(self.key);
        }
        let n = KeyId(self.key).value_size().to_usize();
        let key_bytes = u32_to_le(self.key);
        extend_vec(buf, key_bytes.as_slice());
        extend_vec(buf, slice_subrange(self.value.as_slice(), 0, n));
        proof {
            assert(final(buf)@ =~= old(buf)@ + self.spec_bytes());
        }
        KeyId::SIZE + n
    }

    /// Writes the item's bytes at `at` in `buf` and returns their number.
    fn write_at(&self, buf: &mut [u8], at: usize) -> (r: usize)
        requires
            self.well_formed(),
            at + self.spec_bytes().len() <= old(buf)@.len(),
        ensures
            r == self.spec_bytes().len(),
            final(buf)@ == old(buf)@.take(at as int) + self.spec_bytes() + old(buf)@.skip(
                at + r,
            ),
    {
        let mut kv: Vec<u8> = Vec::new();
        let n = self.extend_to(&mut kv);
        let blen = buf.len();
        let mut i: usize = 0;
        while i < n
            invariant
                blen == buf@.len(),
                n == kv@.len(),
                kv@ == self.spec_bytes(),
                at + n <= buf@.len(),
                buf@.len() == old(buf)@.len(),
                i <= n,
                forall|j: int| 0 <= j < at ==> buf@[j] == old(buf)@[j],
                forall|j: int| 0 <= j < i ==> buf@[at + j] == kv@[j],
                forall|j: int| at + n <= j < buf@.len() ==> buf@[j] == old(buf)@[j],
            decreases n - i,
        {
            buf[at + i] = kv[i];
            i = i + 1;
        }
        proof {
            assert(buf@ =~= old(buf)@.take(at as int) + self.spec_bytes() + old(buf)@.skip(at + n));
        }
        n
    }

    /// Writes the item's bytes at the start of `buf`, which must have room
    /// for them, and returns their number.
    pub fn write_to(&self, buf: &mut [u8]) -> (r: usize)
        requires
            self.well_formed(),
            self.spec_bytes().len() <= old(buf)@.len(),
        ensures
            r == self.spec_bytes().len(),
            final(buf)@ == self.spec_bytes() + old(buf)@.skip(r as int),
    {
        let r = self.write_at(buf, 0);
        proof {
            assert(old(buf)@.take(0) + self.spec_bytes() =~= self.spec_bytes());
        }
        r
    }
}

/// The bytes of the items `vals`, one after another.
pub open spec fn cfg_vals_bytes(vals: Seq<CfgVal>) -> Seq<u8>
    decreases vals.len(),
{
    if vals.len() == 0 {
        Seq::empty()
    } else {
        cfg_vals_bytes(vals.drop_last()) + vals.last().spec_bytes()
    }
}

/// Bytes of the item at the start of `rest`, where an iterator reads one
/// there: at least five bytes are left and the key is known.
pub open spec fn cfg_item_len(rest: Seq<u8>) -> Option<nat> {
    if rest.len() >= 5 && is_known_key(le_u32(rest, 0)) {
        Some(4 + value_len(le_u32(rest, 0)))
    } else {
        None
    }
}

/// The item that an iterator reads at the start of `rest` lies within it.
pub open spec fn cfg_item_in_bounds(rest: Seq<u8>) -> bool {
    cfg_item_len(rest) matches Some(n) ==> n <= rest.len()
}

/// The bytes of the items read one after another from `rest`, as long as
/// each lies within what is left.
pub open spec fn cfg_item_chunks(rest: Seq<u8>) -> Seq<Seq<u8>>
    decreases rest.len(),
{
    match cfg_item_len(rest) {
        Some(n) => if n <= rest.len() {
            seq![rest.take(n as int)] + cfg_item_chunks(rest.skip(n as int))
        } else {
            Seq::empty()
        },
        None => Seq::empty(),
    }
}

/// Reads configuration items one after another from a list of their bytes.
pub struct CfgValIter<'a> {
    data: &'a [u8],
    offset: usize,
}

impl<'a> CfgValIter<'a> {
    /// The bytes not read yet.
    pub closed spec fn rest(&self) -> Seq<u8> {
        self.data@.skip(self.offset as int)
    }

    /// The read position lies within the data.
    pub closed spec fn well_formed(&self) -> bool {
        self.offset <= self.data@.len()
    }

    /// Writes the bytes of `values` one after another at the start of
    /// `data`, which must have room for them, and iterates over them.
    pub fn new(data: &'a mut [u8], values: &[CfgVal]) -> (r: Self)
        requires
            forall|i: int| 0 <= i < values@.len() ==> values@[i].well_formed(),
            cfg_vals_bytes(values@).len() <= old(data)@.len(),
        ensures
            r.well_formed(),
            r.rest() == cfg_vals_bytes(values@),
    {
        let dlen = data.len();
        let mut offset: usize = 0;
        let mut i: usize = 0;
        while i < values.len()
            invariant
                dlen == data@.len(),
                forall|j: int| 0 <= j < values@.len() ==> values@[j].well_formed(),
                cfg_vals_bytes(values@).len() <= data@.len(),
                i <= values@.len(),
                offset == cfg_vals_bytes(values@.take(i as int)).len(),
                data@.take(offset as int) == cfg_vals_bytes(values@.take(i as int)),
                data@.len() == old(data)@.len(),
            decreases values@.len() - i,
        {
            let ghost before = data@;
            proof {
                lemma_cfg_vals_prefix_len(values@, i as int + 1);
                assert(values@.take(i as int + 1).drop_last() =~= values@.take(i as int));
                values@[i as int].lemma_well_formed();
            }
            let n = values[i].write_at(data, offset);
            proof {
                assert(data@.take(offset + n) =~= before.take(offset as int) + values@[i as int].spec_bytes());
            }
            offset = offset + n;
            i = i + 1;
        }
        proof {
            assert(values@.take(i as int) =~= values@);
        }
        let written: &'a [u8] = data;
        CfgValIter { data: slice_subrange(written, 0, offset), offset: 0 }
    }

    /// Iterates over the items whose bytes `data` lists.
    pub fn from_bytes(data: &'a [u8]) -> (r: Self)
        ensures
            r.well_formed(),
            r.rest() == data@,
    {
        let r = CfgValIter { data, offset: 0 };
        assert(r.rest() =~= data@);
        r
    }

    /// Whether `bytes` can hold an item: a key and at least one byte of value.
    pub fn is_valid(bytes: &[u8]) -> (r: bool)
        ensures
            r == (bytes@.len() >= 5),
    {
        bytes.len() >= 5
    }

    /// The next item: `None` once fewer than five bytes are left or the key
    /// there is unknown.  A known key's value must lie within what is left.
    pub fn next(&mut self) -> (r: Option<CfgVal>)
        requires
            old(self).well_formed(),
            cfg_item_in_bounds(old(self).rest()),
        ensures
            final(self).well_formed(),
            r.is_some() == cfg_item_len(old(self).rest()).is_some(),
            r matches Some(v) ==> {
                let n = cfg_item_len(old(self).rest()).unwrap();
                &&& v.well_formed()
                &&& v.spec_bytes() == old(self).rest().take(n as int)
                &&& v.spec_bytes() == cfg_item_chunks(old(self).rest())[0]
                &&& final(self).rest() == old(self).rest().skip(n as int)
                &&& cfg_item_chunks(final(self).rest()) == cfg_item_chunks(old(self).rest()).drop_first()
            },
            r is None ==> final(self).rest() == old(self).rest(),
    {
        let rest = slice_subrange(self.data, self.offset, self.data.len());
        assert(rest@ =~= old(self).rest());
        if Self::is_valid(rest) {
            match CfgVal::parse(rest) {
                Some(v) => {
                    proof {
                        v.lemma_well_formed();
                    }
                    let n = v.len();
                    self.offset = self.offset + n;
                    proof {
                        assert(self.rest() =~= old(self).rest().skip(n as int));
                        assert((seq![rest@.take(n as int)] + cfg_item_chunks(rest@.skip(n as int))).drop_first()
                            =~= cfg_item_chunks(rest@.skip(n as int)));
                    }
                    return Some(v);
                },
                None => {},
            }
        }
        None
    }
}

/// The bytes of a non-empty list of items are those of its first item, then
/// those of the others.
proof fn lemma_cfg_vals_bytes_first(vals: Seq<CfgVal>)
    requires
        vals.len() > 0,
    ensures
        cfg_vals_bytes(vals) == vals[0].spec_bytes() + cfg_vals_bytes(vals.drop_first()),
    decreases vals.len(),
{
    if vals.len() == 1 {
        assert(vals.drop_last() =~= Seq::<CfgVal>::empty());
        assert(vals.drop_first() =~= Seq::<CfgVal>::empty());
        assert(cfg_vals_bytes(vals) =~= vals[0].spec_bytes() + cfg_vals_bytes(vals.drop_first()));
    } else {
        lemma_cfg_vals_bytes_first(vals.drop_last());
        assert(vals.drop_last().drop_first() =~= vals.drop_first().drop_last());
        assert(vals.drop_last()[0] == vals[0]);
        assert(vals.drop_first().last() == vals.last());
        assert(cfg_vals_bytes(vals) =~= vals[0].spec_bytes() + cfg_vals_bytes(vals.drop_first()));
    }
}

/// The bytes of a prefix of a list of items are no longer than those of
/// the list, and the next item extends them.
proof fn lemma_cfg_vals_prefix_len(vals: Seq<CfgVal>, i: int)
    requires
        0 <= i <= vals.len(),
    ensures
        cfg_vals_bytes(vals.take(i)).len() <= cfg_vals_bytes(vals).len(),
        i > 0 ==> cfg_vals_bytes(vals.take(i)) == cfg_vals_bytes(vals.take(i - 1)) + vals[i - 1].spec_bytes(),
    decreases vals.len() - i,
{
    if i > 0 {
        assert(vals.take(i).drop_last() =~= vals.take(i - 1));
    }
    if i < vals.len() {
        lemma_cfg_vals_prefix_len(vals, i + 1);
        assert(vals.take(i + 1).drop_last() =~= vals.take(i));
    } else {
        assert(vals.take(i) =~= vals);
    }
}

/// Two well-formed items with the same bytes have the same key and value.
pub proof fn lemma_item_bytes_determine_item(a: CfgVal, b: CfgVal)
    requires
        a.well_formed(),
        b.well_formed(),
        a.spec_bytes() == b.spec_bytes(),
    ensures
        a.spec_key() == b.spec_key(),
        a.spec_value() == b.spec_value(),
{
    lemma_u32_le_roundtrip(a.spec_key());
    lemma_u32_le_roundtrip(b.spec_key());
    assert(a.spec_bytes().take(4) =~= u32_le_bytes(a.spec_key()));
    assert(b.spec_bytes().take(4) =~= u32_le_bytes(b.spec_key()));
    assert(a.spec_value() =~= a.spec_bytes().skip(4));
    assert(b.spec_value() =~= b.spec_bytes().skip(4));
}

/// Reading back the bytes of a list of well-formed items gives the bytes of
/// each item, in order, and every read lies within what is left.
pub proof fn lemma_cfg_vals_roundtrip(vals: Seq<CfgVal>)
    requires
        forall|i: int| 0 <= i < vals.len() ==> vals[i].well_formed(),
    ensures
        cfg_item_in_bounds(cfg_vals_bytes(vals)),
        cfg_item_chunks(cfg_vals_bytes(vals)) == vals.map_values(|v: CfgVal| v.spec_bytes()),
    decreases vals.len(),
{
    let bytes = cfg_vals_bytes(vals);
    if vals.len() == 0 {
        assert(cfg_item_chunks(bytes) =~= vals.map_values(|v: CfgVal| v.spec_bytes()));
    } else {
        let v = vals[0];
        lemma_cfg_vals_bytes_first(vals);
        v.lemma_well_formed();
        lemma_u32_le_roundtrip(v.spec_key());
        let n = v.spec_bytes().len();
        assert(le_u32(bytes, 0) == le_u32(u32_le_bytes(v.spec_key()), 0));
        assert(bytes.take(n as int) =~= v.spec_bytes());
        assert(bytes.skip(n as int) =~= cfg_vals_bytes(vals.drop_first()));
        lemma_cfg_vals_roundtrip(vals.drop_first());
        assert(cfg_item_chunks(bytes) =~= vals.map_values(|v: CfgVal| v.spec_bytes()));
    }
}

/// The most keys one CFG-VALGET request may hold.
pub const MAX_CFG_KEYS: u16 = 64;

/// Layer bits of a CFG-VALSET request: RAM.
pub const CFG_LAYER_SET_RAM: u8 = 0b001;
/// Layer bits of a CFG-VALSET request: battery-backed RAM.
pub const CFG_LAYER_SET_BBR: u8 = 0b010;
/// Layer bits of a CFG-VALSET request: flash.
pub const CFG_LAYER_SET_FLASH: u8 = 0b100;

/// Sets configuration items in the given layers.
pub struct CfgValSet;

impl UbxPacketMeta for CfgValSet {
    const CLASS: u8 = 0x06;
    const ID: u8 = 0x8a;
    const MAX_PAYLOAD_LEN: u16 = 772;

    fn fixed_payload_len() -> (r: Option<u16>)
        ensures
            r is None,
    {
        None
    }
}

/// Builder of [CfgValSet] packets.
pub struct CfgValSetBuilder<'a> {
    pub version: u8,
    /// The layers to write the items to (the `CFG_LAYER_SET_*` bits).
    pub layers: u8,
    pub reserved1: u16,
    pub cfg_data: &'a [CfgVal],
}

impl<'a> CfgValSetBuilder<'a> {
    /// The payload: version, layers, reserved bytes, then the items.
    pub open spec fn payload(&self) -> Seq<u8> {
        seq![self.version, self.layers] + u16_le_bytes(self.reserved1) + cfg_vals_bytes(self.cfg_data@)
    }

    /// Appends the whole packet frame to `out`.
    pub fn extend_to(self, out: &mut Vec<u8>)
        requires
            forall|i: int| 0 <= i < self.cfg_data@.len() ==> self.cfg_data@[i].well_formed(),
            self.payload().len() <= u16::MAX,
        ensures
            final(out)@ == old(out)@ + ubx_frame(CfgValSet::CLASS, CfgValSet::ID, self.payload()),
    {
        let mut payload: Vec<u8> = Vec::new();
        payload.push(self.version);
        payload.push(self.layers);
        extend_vec(&mut payload, u16_to_le(self.reserved1).as_slice());
        let ghost head = seq![self.version, self.layers] + u16_le_bytes(self.reserved1);
        let vals = self.cfg_data;
        let mut i: usize = 0;
        proof {
            assert(vals@.take(0) =~= Seq::<CfgVal>::empty());
            assert(payload@ =~= head + cfg_vals_bytes(vals@.take(0)));
        }
        while i < vals.len()
            invariant
                forall|j: int| 0 <= j < vals@.len() ==> vals@[j].well_formed(),
                i <= vals@.len(),
                payload@ == head + cfg_vals_bytes(vals@.take(i as int)),
            decreases vals@.len() - i,
        {
            proof {
                lemma_cfg_vals_prefix_len(vals@, i as int + 1);
            }
            vals[i].extend_to(&mut payload);
            i = i + 1;
        }
        proof {
            assert(vals@.take(i as int) =~= vals@);
        }
        let frame = build_frame(CfgValSet::CLASS, CfgValSet::ID, payload.as_slice());
        extend_vec(out, frame.as_slice());
    }
}

/// The bytes of the keys `keys`, one after another.
pub open spec fn cfg_keys_bytes(keys: Seq<CfgKey>) -> Seq<u8>
    decreases keys.len(),
{
    if keys.len() == 0 {
        Seq::empty()
    } else {
        cfg_keys_bytes(keys.drop_last()) + u32_le_bytes(keys.last().0)
    }
}

/// Requests the values of configuration items.
pub struct CfgValGetRequest;

impl UbxPacketMeta for CfgValGetRequest {
    const CLASS: u8 = 0x06;
    const ID: u8 = 0x8b;
    const MAX_PAYLOAD_LEN: u16 = 260;

    fn fixed_payload_len() -> (r: Option<u16>)
        ensures
            r is None,
    {
        None
    }
}

/// Builder of [CfgValGetRequest] packets.
pub struct CfgValGetRequestBuilder<'a> {
    pub version: u8,
    /// The layer to read the values from.
    pub layers: CfgLayerGet,
    pub position: u16,
    pub cfg_keys: &'a [CfgKey],
}

impl<'a> CfgValGetRequestBuilder<'a> {
    /// The payload: version, layer, position, then the keys.
    pub open spec fn payload(&self) -> Seq<u8> {
        seq![self.version, self.layers.spec_into_raw()] + u16_le_bytes(self.position) + cfg_keys_bytes(
            self.cfg_keys@,
        )
    }

    /// Appends the whole packet frame to `out`.
    pub fn extend_to(self, out: &mut Vec<u8>)
        requires
            self.payload().len() <= u16::MAX,
        ensures
            final(out)@ == old(out)@ + ubx_frame(CfgValGetRequest::CLASS, CfgValGetRequest::ID, self.payload()),
    {
        let mut payload: Vec<u8> = Vec::new();
        payload.push(self.version);
        payload.push(self.layers.into_raw());
        extend_vec(&mut payload, u16_to_le(self.position).as_slice());
        let ghost head = seq![self.version, self.layers.spec_into_raw()] + u16_le_bytes(self.position);
        let keys = self.cfg_keys;
        let mut i: usize = 0;
        proof {
            assert(keys@.take(0) =~= Seq::<CfgKey>::empty());
            assert(payload@ =~= head + cfg_keys_bytes(keys@.take(0)));
        }
        while i < keys.len()
            invariant
                i <= keys@.len(),
                payload@ == head + cfg_keys_bytes(keys@.take(i as int)),
            decreases keys@.len() - i,
        {
            proof {
                assert(keys@.take(i as int + 1).drop_last() =~= keys@.take(i as int));
            }
            keys[i].extend_to(&mut payload);
            i = i + 1;
        }
        proof {
            assert(keys@.take(i as int) =~= keys@);
        }
        let frame = build_frame(CfgValGetRequest::CLASS, CfgValGetRequest::ID, payload.as_slice());
        extend_vec(out, frame.as_slice());
    }
}

/// The values of configuration items, in answer to a request.
pub struct CfgValGetResponse;

impl UbxPacketMeta for CfgValGetResponse {
    const CLASS: u8 = 0x06;
    const ID: u8 = 0x8b;
    const MAX_PAYLOAD_LEN: u16 = 772;

    fn fixed_payload_len() -> (r: Option<u16>)
        ensures
            r is None,
    {
        None
    }
}

/// Payload of a [CfgValGetResponse] packet.
pub struct CfgValGetResponseRef<'a>(pub &'a [u8]);

impl<'a> CfgValGetResponseRef<'a> {
    /// The outcome of validating a payload: the four header bytes, then room
    /// for at least one item.
    pub open spec fn spec_validate(payload: Seq<u8>) -> Result<(), ParserError> {
        if payload.len() < 4 {
            Err(ParserError::InvalidPacketLen { packet: "CfgValGetResponse", expect: 4, got: payload.len() as usize })
        } else if payload.len() < 9 {
            Err(ParserError::InvalidField { packet: "CfgValGetResponse", field: "cfg_data" })
        } else {
            Ok(())
        }
    }

    /// Checks that `payload` is a valid [CfgValGetResponse] payload.
    pub fn validate(payload: &[u8]) -> (r: Result<(), ParserError>)
        ensures
            r == Self::spec_validate(payload@),
    {
        if payload.len() < 4 {
            return Err(ParserError::InvalidPacketLen { packet: "CfgValGetResponse", expect: 4, got: payload.len() });
        }
        if !CfgValIter::is_valid(slice_subrange(payload, 4, payload.len())) {
            return Err(ParserError::InvalidField { packet: "CfgValGetResponse", field: "cfg_data" });
        }
        Ok(())
    }

    /// Message version.
    pub fn version(&self) -> (r: u8)
        requires
            Self::spec_validate(self.0@) is Ok,
        ensures
            r == self.0@[0],
    {
        self.0[0]
    }

    /// The layer the values were read from.
    pub fn layers(&self) -> (r: CfgLayerGet)
        requires
            Self::spec_validate(self.0@) is Ok,
        ensures
            r == CfgLayerGet::spec_from(self.0@[1]),
    {
        CfgLayerGet::from(self.0[1])
    }

    /// Number of items skipped before the first one returned.
    pub fn position(&self) -> (r: u16)
        requires
            Self::spec_validate(self.0@) is Ok,
        ensures
            r == le_u16(self.0@, 2),
    {
        read_u16_le(self.0, 2)
    }

    /// The items.
    pub fn cfg_data(&self) -> (r: CfgValIter<'a>)
        requires
            Self::spec_validate(self.0@) is Ok,
        ensures
            r.well_formed(),
            r.rest() == self.0@.skip(4),
    {
        let rest = slice_subrange(self.0, 4, self.0.len());
        assert(rest@ =~= self.0@.skip(4));
        CfgValIter::from_bytes(rest)
    }
}

/// Reading the four bytes of a key back as bytes gives them again.
proof fn lemma_u32_le_roundtrip_bytes(s: Seq<u8>)
    requires
        s.len() == 4,
    ensures
        u32_le_bytes(le_u32(s, 0)) =~= s,
{
    let a = s[0];
    let b = s[1];
    let c = s[2];
    let d = s[3];
    let x = le_u32(s, 0);
    assert(x == (a as u32) + 0x100u32 * (b as u32) + 0x1_0000u32 * (c as u32) + 0x100_0000u32 * (
    d as u32));
    assert((x % 0x100) as u8 == a && ((x / 0x100) % 0x100) as u8 == b && ((x / 0x1_0000)
        % 0x100) as u8 == c && (x / 0x100_0000) as u8 == d) by (bit_vector)
        requires
            x == (a as u32) + 0x100u32 * (b as u32) + 0x1_0000u32 * (c as u32) + 0x100_0000u32 * (
            d as u32),
    ;
}

/// The class, message id and longest payload of each packet type of this
/// module.
pub proof fn lemma_packet_ids()
    ensures
        CfgValSet::CLASS == 0x06,
        CfgValSet::ID == 0x8a,
        CfgValSet::MAX_PAYLOAD_LEN == 772,
        CfgValGetRequest::CLASS == 0x06,
        CfgValGetRequest::ID == 0x8b,
        CfgValGetRequest::MAX_PAYLOAD_LEN == 260,
        CfgValGetResponse::CLASS == 0x06,
        CfgValGetResponse::ID == 0x8b,
        CfgValGetResponse::MAX_PAYLOAD_LEN == 772,
{
}

} // verus!
