//! TBL string tables (e.g. `stat_txt.tbl`): unit, tech and upgrade names and
//! other game text.
//!
//! ```text
//! [u16 string_count]
//! [u16 offset] * string_count   — byte offset from start of file
//! [null-terminated strings...]
//! ```
//!
//! Text is typically ASCII, or EUC-KR for the Korean localization.

use vstd::prelude::*;
use vstd::utf8::{decode_utf8, valid_utf8};
use crate::bytes::{find_nul, le16_at, nul_index_from, read_u16_le};
use crate::error::{EngineError, EngineErrorView};
use crate::text::{decimal_string, decimal_text, euc_kr_string, euc_kr_text, utf8_string};

verus! {

/// Whether a byte of TBL text is kept: bytes below 0x20 are colour and
/// formatting codes, except tab and newline.
pub open spec fn is_text_byte(b: u8) -> bool {
    b >= 0x20 || b == 9 || b == 10
}

/// `raw` without its colour and formatting codes.
pub open spec fn without_codes(raw: Seq<u8>) -> Seq<u8>
    decreases raw.len(),
{
    if raw.len() == 0 {
        Seq::empty()
    } else if is_text_byte(raw.last()) {
        without_codes(raw.drop_last()).push(raw.last())
    } else {
        without_codes(raw.drop_last())
    }
}

/// Stripping codes keeps exactly the bytes from 0x20 up, tabs and newlines, in
/// their order, and drops every other byte below 0x20.
pub proof fn lemma_without_codes_keeps(raw: Seq<u8>)
    ensures
        without_codes(raw) == raw.filter(|b: u8| b >= 0x20 || b == 9 || b == 10),
    decreases raw.len(),
{
    reveal(Seq::filter);
    if raw.len() > 0 {
        lemma_without_codes_keeps(raw.drop_last());
    }
}

/// The text of a TBL string's bytes: without colour codes, read as UTF-8 where
/// it is valid UTF-8 and as EUC-KR otherwise.
pub open spec fn tbl_text(raw: Seq<u8>) -> Seq<char> {
    let cleaned = without_codes(raw);
    if cleaned.len() == 0 {
        Seq::empty()
    } else if valid_utf8(cleaned) {
        decode_utf8(cleaned)
    } else {
        euc_kr_text(cleaned)
    }
}

/// String `i` of a TBL file whose offsets table is complete: the text from its
/// offset to the next zero byte, or empty when the offset is past the end.
pub open spec fn tbl_entry(data: Seq<u8>, i: int) -> Seq<char> {
    let off = le16_at(data, 2 + 2 * i) as int;
    if off >= data.len() {
        Seq::empty()
    } else {
        tbl_text(data.subrange(off, nul_index_from(data, off)))
    }
}

/// The message for a file too short for its offsets table.
pub open spec fn tbl_offsets_message(expected: int, count: int, actual: int) -> Seq<char> {
    "expected at least "@ + decimal_text(expected as nat) + " bytes for "@ + decimal_text(
        count as nat,
    ) + " offsets, got "@ + decimal_text(actual as nat)
}

/// A whole TBL file: its strings, in order.
pub open spec fn spec_tbl(data: Seq<u8>) -> Result<Seq<Seq<char>>, EngineErrorView> {
    if data.len() < 2 {
        Err(EngineErrorView::InvalidTbl("data too short"@))
    } else {
        let count = le16_at(data, 0) as int;
        let offsets_end = 2 + 2 * count;
        if data.len() < offsets_end {
            Err(
                EngineErrorView::InvalidTbl(
                    tbl_offsets_message(offsets_end, count, data.len() as int),
                ),
            )
        } else {
            Ok(Seq::new(count as nat, |i: int| tbl_entry(data, i)))
        }
    }
}

/// Decode a TBL string, stripping StarCraft colour and formatting codes.
fn decode_tbl_string(raw: &[u8]) -> (s: String)
    requires
        raw@.len() <= 0x3fff_ffff,
    ensures
        s@ == tbl_text(raw@),
{
    let mut cleaned: Vec<u8> = Vec::new();
    let mut i: usize = 0;
    while i < raw.len()
        invariant
            i <= raw@.len(),
            cleaned@ == without_codes(raw@.take(i as int)),
            cleaned@.len() <= i,
        decreases raw@.len() - i,
    {
        let b = raw[i];
        assert(raw@.take(i + 1).drop_last() =~= raw@.take(i as int));
        if b >= 0x20 || b == 9 || b == 10 {
            cleaned.push(b);
        }
        i = i + 1;
    }
    assert(raw@.take(i as int) =~= raw@);
    if cleaned.len() == 0 {
        return String::new();
    }
    match utf8_string(cleaned.as_slice()) {
        Some(s) => s,
        None => euc_kr_string(cleaned.as_slice()),
    }
}

/// A parsed string table.
#[derive(Debug, Clone)]
pub struct StringTable {
    strings: Vec<String>,
}

impl View for StringTable {
    type V = Seq<Seq<char>>;

    closed spec fn view(&self) -> Seq<Seq<char>> {
        self.strings@.map_values(|s: String| s@)
    }
}

impl StringTable {
    /// Parse a TBL file from raw bytes.
    pub fn from_bytes(data: &[u8]) -> (r: Result<StringTable, EngineError>)
        requires
            data@.len() <= 0x3fff_ffff,
        ensures
            match spec_tbl(data@) {
                Ok(strings) => r matches Ok(t) && t@ == strings,
                Err(e) => r matches Err(x) && x@ == e,
            },
    {
        let len = data.len();
        if len < 2 {
            return Err(EngineError::InvalidTbl(String::from_str("data too short")));
        }
        let count = read_u16_le(data, 0) as usize;
        let offsets_end = 2 + count * 2;
        if len < offsets_end {
            let mut msg = String::from_str("expected at least ");
            msg.append(decimal_string(offsets_end).as_str());
            msg.append(" bytes for ");
            msg.append(decimal_string(count).as_str());
            msg.append(" offsets, got ");
            msg.append(decimal_string(len).as_str());
            return Err(EngineError::InvalidTbl(msg));
        }
        let mut strings: Vec<String> = Vec::new();
        let mut i: usize = 0;
        while i < count
            invariant
                len == data@.len(),
                len <= 0x3fff_ffff,
                count == le16_at(data@, 0),
                2 + 2 * count <= len,
                i <= count,
                strings@.len() == i,
                forall|k: int| 0 <= k < i ==> #[trigger] strings@[k]@ == tbl_entry(data@, k),
            decreases count - i,
        {
            let offset = read_u16_le(data, 2 + i * 2) as usize;
            if offset >= len {
                strings.push(String::new());
            } else {
                let end = find_nul(data, offset);
                strings.push(decode_tbl_string(&data[offset..end]));
            }
            i = i + 1;
        }
        let t = StringTable { strings };
        assert(t@ =~= Seq::new(count as nat, |k: int| tbl_entry(data@, k)));
        Ok(t)
    }

    /// A string by its 0-based index.
    pub fn get(&self, index: usize) -> (r: Option<&str>)
        ensures
            index < self@.len() ==> (r matches Some(s) && s@ == self@[index as int]),
            index >= self@.len() ==> r is None,
    {
        if index < self.strings.len() {
            Some(self.strings[index].as_str())
        } else {
            None
        }
    }

    /// Number of strings in the table.
    pub fn len(&self) -> (n: usize)
        ensures
            n == self@.len(),
    {
        self.strings.len()
    }

    /// Whether the table is empty.
    pub fn is_empty(&self) -> (b: bool)
        ensures
            b == (self@.len() == 0),
    {
        self.strings.len() == 0
    }

    /// All strings, in order.
    pub fn iter(&self) -> (v: Vec<&str>)
        ensures
            v@.len() == self@.len(),
            forall|i: int| 0 <= i < v@.len() ==> #[trigger] v@[i]@ == self@[i],
    {
        let mut v: Vec<&str> = Vec::new();
        let mut i: usize = 0;
        while i < self.strings.len()
            invariant
                i <= self.strings@.len(),
                v@.len() == i,
                forall|k: int| 0 <= k < i ==> #[trigger] v@[k]@ == self.strings@[k]@,
            decreases self.strings@.len() - i,
        {
            v.push(self.strings[i].as_str());
            i = i + 1;
        }
        v
    }
}

} // verus!
