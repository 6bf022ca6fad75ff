//! MON-VER: receiver and software versions, as NUL-terminated UTF-8 texts.

use vstd::prelude::*;
use vstd::utf8::{decode_utf8, valid_utf8};

use crate::buffer::slice_subrange;
use crate::error::ParserError;
use crate::ubx_packets::UbxPacketMeta;

verus! {

/// Receiver and software version: a 30-byte software version, a 10-byte
/// hardware version and any number of 30-byte extension texts.
pub struct MonVer;

impl UbxPacketMeta for MonVer {
    const CLASS: u8 = 0x0a;
    const ID: u8 = 0x04;
    const MAX_PAYLOAD_LEN: u16 = 1240;

    fn fixed_payload_len() -> (r: Option<u16>)
        ensures
            r is None,
    {
        None
    }
}

/// Reads `bytes` as UTF-8 with `core::str::from_utf8`, which accepts exactly
/// the valid UTF-8 encodings and then gives the text they encode.
#[verifier::external_body]
fn str_from_utf8(bytes: &[u8]) -> (r: Option<&str>)
    ensures
        r is Some <==> valid_utf8(bytes@),
        r matches Some(s) ==> s@ == decode_utf8(bytes@),
{
    core::str::from_utf8(bytes).ok()
}

/// Index of the first NUL byte of `s`, if any.
#[verifier::opaque]
pub open spec fn first_nul(s: Seq<u8>) -> Option<int> {
    if exists|i: int| 0 <= i < s.len() && s[i] == 0 {
        Some(choose|i: int| 0 <= i < s.len() && s[i] == 0 && forall|j: int| 0 <= j < i ==> s[j] != 0)
    } else {
        None
    }
}

/// If the NUL byte at `i` is the first one, `first_nul` finds it.
proof fn lemma_first_nul(s: Seq<u8>, i: int)
    requires
        0 <= i < s.len(),
        s[i] == 0,
        forall|j: int| 0 <= j < i ==> s[j] != 0,
    ensures
        first_nul(s) == Some(i),
{
    reveal(first_nul);
    let k = choose|k: int| 0 <= k < s.len() && s[k] == 0 && forall|j: int| 0 <= j < k ==> s[j] != 0;
    assert(0 <= k < s.len() && s[k] == 0);
    if k < i {
        assert(s[k] != 0);
    } else if i < k {
        assert(s[i] != 0);
    }
}

/// Without a NUL byte, `first_nul` finds none.
proof fn lemma_no_nul(s: Seq<u8>)
    requires
        forall|j: int| 0 <= j < s.len() ==> s[j] != 0,
    ensures
        first_nul(s) is None,
{
    reveal(first_nul);
}

/// Whether `s` holds a NUL-terminated text whose bytes before the NUL are
/// valid UTF-8.
pub open spec fn is_cstr(s: Seq<u8>) -> bool {
    match first_nul(s) {
        Some(i) => valid_utf8(s.take(i)),
        None => false,
    }
}

/// The text of a NUL-terminated field.
pub open spec fn cstr_text(s: Seq<u8>) -> Seq<char> {
    match first_nul(s) {
        Some(i) => decode_utf8(s.take(i)),
        None => Seq::empty(),
    }
}

/// Index of the first NUL byte of `bytes`.
fn nul_position(bytes: &[u8]) -> (r: Option<usize>)
    ensures
        match r {
            Some(i) => first_nul(bytes@) == Some(i as int) && i < bytes@.len(),
            None => first_nul(bytes@) is None,
        },
{
    let mut i: usize = 0;
    while i < bytes.len()
        invariant
            i <= bytes@.len(),
            forall|j: int| 0 <= j < i ==> bytes@[j] != 0,
        decreases bytes@.len() - i,
    {
        if bytes[i] == 0 {
            proof {
                lemma_first_nul(bytes@, i as int);
            }
            return Some(i);
        }
        i = i + 1;
    }
    proof {
        lemma_no_nul(bytes@);
    }
    None
}

/// Whether `bytes` holds a NUL-terminated UTF-8 text.
fn is_cstr_valid(bytes: &[u8]) -> (r: bool)
    ensures
        r == is_cstr(bytes@),
{
    let null_pos = match nul_position(bytes) {
        Some(pos) => pos,
        None => {
            return false;
        },
    };
    let text = slice_subrange(bytes, 0, null_pos);
    proof {
        assert(text@ =~= bytes@.take(null_pos as int));
    }
    str_from_utf8(text).is_some()
}

/// The text of a NUL-terminated field known to be valid.
fn convert_to_str_unchecked(bytes: &[u8]) -> (r: &str)
    requires
        is_cstr(bytes@),
    ensures
        r@ == cstr_text(bytes@),
{
    let null_pos = match nul_position(bytes) {
        Some(pos) => pos,
        None => {
            proof {
                assert(false);
            }
            return "";
        },
    };
    let text = slice_subrange(bytes, 0, null_pos);
    proof {
        assert(text@ =~= bytes@.take(null_pos as int));
    }
    match str_from_utf8(text) {
        Some(s) => s,
        None => {
            proof {
                assert(false);
            }
            ""
        },
    }
}

/// Whether every 30-byte piece of `s` is a NUL-terminated UTF-8 text.
pub open spec fn all_cstr_chunks(s: Seq<u8>) -> bool {
    forall|k: int| 0 <= k < s.len() / 30 ==> #[trigger] is_cstr(s.subrange(30 * k, 30 * k + 30))
}

/// Payload of a [MonVer] packet.
pub struct MonVerRef<'a>(pub &'a [u8]);

impl<'a> MonVerRef<'a> {
    /// The outcome of validating a payload.
    pub open spec fn spec_validate(payload: Seq<u8>) -> Result<(), ParserError> {
        if payload.len() < 40 {
            Err(ParserError::InvalidPacketLen { packet: "MonVer", expect: 40, got: payload.len() as usize })
        } else if !is_cstr(payload.subrange(0, 30)) {
            Err(ParserError::InvalidField { packet: "MonVer", field: "software_version" })
        } else if !is_cstr(payload.subrange(30, 40)) {
            Err(ParserError::InvalidField { packet: "MonVer", field: "hardware_version" })
        } else if !((payload.len() - 40) % 30 == 0 && all_cstr_chunks(payload.skip(40))) {
            Err(ParserError::InvalidField { packet: "MonVer", field: "extension" })
        } else {
            Ok(())
        }
    }

    /// Checks that `payload` is a valid [MonVer] payload.
    pub fn validate(payload: &[u8]) -> (r: Result<(), ParserError>)
        ensures
            r == Self::spec_validate(payload@),
    {
        if payload.len() < 40 {
            return Err(ParserError::InvalidPacketLen { packet: "MonVer", expect: 40, got: payload.len() });
        }
        let sw = slice_subrange(payload, 0, 30);
        if !is_cstr_valid(sw) {
            return Err(ParserError::InvalidField { packet: "MonVer", field: "software_version" });
        }
        let hw = slice_subrange(payload, 30, 40);
        if !is_cstr_valid(hw) {
            return Err(ParserError::InvalidField { packet: "MonVer", field: "hardware_version" });
        }
        let ext = slice_subrange(payload, 40, payload.len());
        proof {
            assert(ext@ =~= payload@.skip(40));
        }
        if !MonVerExtensionIter::is_valid(ext) {
            return Err(ParserError::InvalidField { packet: "MonVer", field: "extension" });
        }
        Ok(())
    }

    /// Length of the payload.
    pub fn payload_len(&self) -> (r: usize)
        ensures
            r == self.0@.len(),
    {
        self.0.len()
    }

    /// Software version.
    pub fn software_version(&self) -> (r: &'a str)
        requires
            Self::spec_validate(self.0@) is Ok,
        ensures
            r@ == cstr_text(self.0@.subrange(0, 30)),
    {
        convert_to_str_unchecked(slice_subrange(self.0, 0, 30))
    }

    /// Hardware version.
    pub fn hardware_version(&self) -> (r: &'a str)
        requires
            Self::spec_validate(self.0@) is Ok,
        ensures
            r@ == cstr_text(self.0@.subrange(30, 40)),
    {
        convert_to_str_unchecked(slice_subrange(self.0, 30, 40))
    }

    /// The extension texts.
    pub fn extension(&self) -> (r: MonVerExtensionIter<'a>)
        requires
            Self::spec_validate(self.0@) is Ok,
        ensures
            r.well_formed(),
            r.data@ == self.0@.skip(40),
            r.offset == 0,
    {
        let ext = slice_subrange(self.0, 40, self.0.len());
        proof {
            assert(ext@ =~= self.0@.skip(40));
        }
        MonVerExtensionIter::new(ext)
    }
}

/// Iterator over the 30-byte extension texts of a [MonVer] payload.
#[derive(Debug, Clone)]
pub struct MonVerExtensionIter<'a> {
    pub data: &'a [u8],
    pub offset: usize,
}

impl<'a> MonVerExtensionIter<'a> {
    /// Whole 30-byte texts, each valid, and the offset at one of them.
    pub open spec fn well_formed(&self) -> bool {
        &&& self.data@.len() % 30 == 0
        &&& all_cstr_chunks(self.data@)
        &&& self.offset % 30 == 0
        &&& self.offset <= self.data@.len()
    }

    /// An iterator over the texts in `data`.
    fn new(data: &'a [u8]) -> (r: Self)
        requires
            data@.len() % 30 == 0,
            all_cstr_chunks(data@),
        ensures
            r.data == data,
            r.offset == 0,
            r.well_formed(),
    {
        Self { data, offset: 0 }
    }

    /// Whether `payload` is a whole number of valid 30-byte texts.
    fn is_valid(payload: &[u8]) -> (r: bool)
        ensures
            r == (payload@.len() % 30 == 0 && all_cstr_chunks(payload@)),
    {
        if payload.len() % 30 != 0 {
            return false;
        }
        let plen = payload.len();
        let n = plen / 30;
        let mut k: usize = 0;
        let mut start: usize = 0;
        while k < n
            invariant
                plen == payload@.len(),
                n == payload@.len() / 30,
                payload@.len() % 30 == 0,
                k <= n,
                start == 30 * k,
                forall|m: int| 0 <= m < k ==> #[trigger] is_cstr(payload@.subrange(30 * m, 30 * m + 30)),
            decreases n - k,
        {
            proof {
                let len = payload@.len() as int;
                assert(30 * k + 30 <= len) by (nonlinear_arith)
                    requires
                        k < n,
                        n == len / 30,
                        len >= 0,
                ;
            }
            let chunk = slice_subrange(payload, start, start + 30);
            if !is_cstr_valid(chunk) {
                return false;
            }
            k = k + 1;
            start = start + 30;
        }
        true
    }

    /// The next text, or `None` after the last one.
    pub fn next(&mut self) -> (r: Option<&'a str>)
        requires
            old(self).well_formed(),
        ensures
            final(self).well_formed(),
            final(self).data == old(self).data,
            old(self).offset < old(self).data@.len() ==> {
                let o = old(self).offset as int;
                &&& r matches Some(s) && s@ == cstr_text(old(self).data@.subrange(o, o + 30))
                &&& final(self).offset == old(self).offset + 30
            },
            old(self).offset >= old(self).data@.len() ==> r is None && final(self).offset
                == old(self).offset,
    {
        if self.offset < self.data.len() {
            let o = self.offset;
            proof {
                let k = o / 30;
                assert(o == 30 * k);
                assert(k < self.data@.len() / 30);
                assert(is_cstr(self.data@.subrange(30 * k, 30 * k + 30)));
            }
            let data = slice_subrange(self.data, o, o + 30);
            self.offset = o + 30;
            Some(convert_to_str_unchecked(data))
        } else {
            None
        }
    }
}

/// The class, message id and longest payload of each packet type of this
/// module.
pub proof fn lemma_packet_ids()
    ensures
        MonVer::CLASS == 0x0a,
        MonVer::ID == 0x04,
        MonVer::MAX_PAYLOAD_LEN == 1240,
{
}

} // verus!
