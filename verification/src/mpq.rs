//! MPQ (Mo'PaQ) archive reader for StarCraft: Brood War data files.
//!
//! Supports reading files from game data archives and from map files (which
//! are small MPQ archives). Only reading is supported.

use vstd::prelude::*;
use vstd::string::StringSliceAdditionalSpecFns;
use vstd::wrapping::u32_specs;
use crate::bytes::{le16_at, le32_at, read_u16_le, read_u32_le};
use crate::error::{EngineError, EngineErrorView};
use crate::text::{
    decimal_string, decimal_text, lossy_utf8, nonblank_lines, nonblank_lines_of, texts,
    utf8_lossy_string,
};
use crate::decompress::{explode_pkware, inflate_zlib, pkware_explode, zlib_inflate};

verus! {

broadcast use vstd::array::group_array_axioms;

/// Seed of the crypto table generator.
pub const CRYPTO_SEED_START: u32 = 0x0010_0001;

/// Initial value of the second cipher state word.
pub const CIPHER_SEED2: u32 = 0xEEEE_EEEE;

/// Key of the hash table: the hash of `(hash table)` with hash type 3.
pub const HASH_TABLE_KEY: u32 = 0xC3AF3770;

/// Key of the block table: the hash of `(block table)` with hash type 3.
pub const BLOCK_TABLE_KEY: u32 = 0xEC83B3A3;

/// One step of the crypto table generator.
pub open spec fn crypto_next(seed: u32) -> u32 {
    ((seed as int * 125 + 3) % 0x002A_AAAB) as u32
}

/// The generator state after `n` steps.
pub open spec fn crypto_seed(n: nat) -> u32
    decreases n,
{
    if n == 0 {
        CRYPTO_SEED_START
    } else {
        crypto_next(crypto_seed((n - 1) as nat))
    }
}

/// The `k`-th value that the generator produces: two consecutive states, high
/// half from the first and low half from the second.
pub open spec fn crypto_value(k: nat) -> u32 {
    ((crypto_seed(2 * k + 1) & 0xFFFF) << 16u32) | (crypto_seed(2 * k + 2) & 0xFFFF)
}

/// `t` is the 1280-entry MPQ crypto table: entry `i + 256 * j` (for `i < 256`,
/// `j < 5`) is the generator's value number `5 * i + j`.
pub open spec fn is_crypto_table(t: Seq<u32>) -> bool {
    &&& t.len() == 1280
    &&& forall|i: int, j: int|
        0 <= i < 256 && 0 <= j < 5 ==> #[trigger] t[i + 256 * j] == crypto_value(
            (5 * i + j) as nat,
        )
}

/// Build the pre-computed encryption/hash table (1280 entries).
pub fn build_crypto_table() -> (table: [u32; 1280])
    ensures
        is_crypto_table(table@),
{
    let mut table = [0u32; 1280];
    let mut seed: u32 = CRYPTO_SEED_START;
    let mut i: u32 = 0;
    while i < 256
        invariant
            i <= 256,
            table@.len() == 1280,
            seed == crypto_seed((2 * (5 * i)) as nat),
            seed < 0x002A_AAAB,
            forall|a: int, j: int|
                0 <= a < i && 0 <= j < 5 ==> #[trigger] table@[a + 256 * j] == crypto_value(
                    (5 * a + j) as nat,
                ),
        decreases 256 - i,
    {
        let mut index: u32 = i;
        let mut j: u32 = 0;
        while j < 5
            invariant
                i < 256,
                j <= 5,
                index == i + 256 * j,
                table@.len() == 1280,
                seed == crypto_seed((2 * (5 * i + j)) as nat),
                seed < 0x002A_AAAB,
                forall|a: int, b: int|
                    0 <= a < i && 0 <= b < 5 ==> #[trigger] table@[a + 256 * b] == crypto_value(
                        (5 * a + b) as nat,
                    ),
                forall|b: int|
                    0 <= b < j ==> #[trigger] table@[i + 256 * b] == crypto_value(
                        (5 * i + b) as nat,
                    ),
            decreases 5 - j,
        {
            let ghost k: nat = (5 * i + j) as nat;
            seed = (seed * 125 + 3) % 0x002A_AAAB;
            assert(seed == crypto_seed(2 * k + 1));
            let temp1 = (seed & 0xFFFF) << 0x10u32;
            seed = (seed * 125 + 3) % 0x002A_AAAB;
            assert(seed == crypto_seed(2 * k + 2));
            let temp2 = seed & 0xFFFF;
            table[index as usize] = temp1 | temp2;
            index = index + 256;
            j = j + 1;
        }
        i = i + 1;
    }
    table
}

} // verus!

verus! {

/// ASCII upper-casing of a byte (what `char::to_ascii_uppercase` does to a byte's char).
pub open spec fn ascii_upper(b: u8) -> u8 {
    if 97 <= b <= 122 {
        (b - 32) as u8
    } else {
        b
    }
}

/// The hash state `(seed1, seed2)` after hashing `bytes` from state `(s1, s2)`.
pub open spec fn hash_state(bytes: Seq<u8>, hash_type: u32, t: Seq<u32>, s1: u32, s2: u32) -> (
    u32,
    u32,
)
    decreases bytes.len(),
{
    if bytes.len() == 0 {
        (s1, s2)
    } else {
        let ch = ascii_upper(bytes[0]) as u32;
        let val = t[(hash_type * 256 + ch) as int];
        let n1 = val ^ u32_specs::wrapping_add(s1, s2);
        let n2 = u32_specs::wrapping_add(
            u32_specs::wrapping_add(
                u32_specs::wrapping_add(u32_specs::wrapping_add(ch, n1), s2),
                s2 << 5u32,
            ),
            3,
        );
        hash_state(bytes.drop_first(), hash_type, t, n1, n2)
    }
}

/// The MPQ hash of a byte string for hash type `hash_type` (0: table index,
/// 1 and 2: the two check hashes, 3: file key).
pub open spec fn spec_hash(bytes: Seq<u8>, hash_type: u32, t: Seq<u32>) -> u32 {
    hash_state(bytes, hash_type, t, 0x7FED_7FED, 0xEEEE_EEEE).0
}

/// ASCII upper-casing of a byte.
fn to_ascii_upper(b: u8) -> (r: u8)
    ensures
        r == ascii_upper(b),
{
    if 97 <= b && b <= 122 {
        b - 32
    } else {
        b
    }
}

/// Hash a byte string for MPQ hash table lookup.
fn hash_bytes(bytes: &[u8], hash_type: u32, crypto_table: &[u32; 1280]) -> (h: u32)
    requires
        hash_type < 5,
        crypto_table@.len() == 1280,
    ensures
        h == spec_hash(bytes@, hash_type, crypto_table@),
{
    let mut seed1: u32 = 0x7FED_7FED;
    let mut seed2: u32 = 0xEEEE_EEEE;
    let mut i: usize = 0;
    proof {
        assert(bytes@.skip(0) =~= bytes@);
    }
    while i < bytes.len()
        invariant
            hash_type < 5,
            crypto_table@.len() == 1280,
            i <= bytes@.len(),
            hash_state(bytes@.skip(i as int), hash_type, crypto_table@, seed1, seed2)
                == hash_state(bytes@, hash_type, crypto_table@, 0x7FED_7FED, 0xEEEE_EEEE),
        decreases bytes@.len() - i,
    {
        let ch = to_ascii_upper(bytes[i]) as u32;
        let val = crypto_table[(hash_type * 256 + ch) as usize];
        seed1 = val ^ seed1.wrapping_add(seed2);
        seed2 = ch.wrapping_add(seed1).wrapping_add(seed2).wrapping_add(seed2 << 5u32).wrapping_add(
            3,
        );
        proof {
            assert(bytes@.skip(i as int).drop_first() =~= bytes@.skip(i + 1));
        }
        i = i + 1;
    }
    proof {
        assert(bytes@.skip(i as int) =~= Seq::<u8>::empty());
    }
    seed1
}

/// Hash a string for MPQ hash table lookup.
pub fn hash_string(name: &str, hash_type: u32, crypto_table: &[u32; 1280]) -> (h: u32)
    requires
        hash_type < 5,
    ensures
        h == spec_hash(name.spec_bytes(), hash_type, crypto_table@),
{
    hash_bytes(name.as_bytes(), hash_type, crypto_table)
}

/// Hashing ignores ASCII case: byte strings that agree up to upper-casing hash alike.
pub proof fn lemma_hash_case_insensitive(
    a: Seq<u8>,
    b: Seq<u8>,
    hash_type: u32,
    t: Seq<u32>,
    s1: u32,
    s2: u32,
)
    requires
        a.len() == b.len(),
        forall|i: int| 0 <= i < a.len() ==> ascii_upper(#[trigger] a[i]) == ascii_upper(b[i]),
    ensures
        hash_state(a, hash_type, t, s1, s2) == hash_state(b, hash_type, t, s1, s2),
    decreases a.len(),
{
    if a.len() > 0 {
        assert(ascii_upper(a[0]) == ascii_upper(b[0]));
        let ch = ascii_upper(a[0]) as u32;
        let val = t[(hash_type * 256 + ch) as int];
        let n1 = val ^ u32_specs::wrapping_add(s1, s2);
        let n2 = u32_specs::wrapping_add(
            u32_specs::wrapping_add(
                u32_specs::wrapping_add(u32_specs::wrapping_add(ch, n1), s2),
                s2 << 5u32,
            ),
            3,
        );
        assert forall|i: int| 0 <= i < a.drop_first().len() implies ascii_upper(
            #[trigger] a.drop_first()[i],
        ) == ascii_upper(b.drop_first()[i]) by {
            assert(ascii_upper(a[i + 1]) == ascii_upper(b[i + 1]));
        }
        lemma_hash_case_insensitive(a.drop_first(), b.drop_first(), hash_type, t, n1, n2);
    }
}

/// The next value of the first cipher state word.
pub open spec fn cipher_next_seed1(s1: u32) -> u32 {
    u32_specs::wrapping_add(!s1 << 0x15u32, 0x1111_1111) | (s1 >> 0x0Bu32)
}

/// The cipher stream value mixed into the word after `s1`, and the second state
/// word once the table value is added.
pub open spec fn cipher_seed2(s1: u32, s2: u32, t: Seq<u32>) -> u32 {
    u32_specs::wrapping_add(s2, t[0x400 + (s1 & 0xFF) as int])
}

/// The next value of the second cipher state word, from the plaintext word `plain`.
pub open spec fn cipher_next_seed2(plain: u32, s2b: u32) -> u32 {
    u32_specs::wrapping_add(
        u32_specs::wrapping_add(u32_specs::wrapping_add(plain, s2b), s2b << 5u32),
        3,
    )
}

/// MPQ decryption of `vals` from cipher state `(s1, s2)`.
pub open spec fn decrypt_from(vals: Seq<u32>, s1: u32, s2: u32, t: Seq<u32>) -> Seq<u32>
    decreases vals.len(),
{
    if vals.len() == 0 {
        seq![]
    } else {
        let s2b = cipher_seed2(s1, s2, t);
        let plain = vals[0] ^ u32_specs::wrapping_add(s1, s2b);
        seq![plain] + decrypt_from(
            vals.drop_first(),
            cipher_next_seed1(s1),
            cipher_next_seed2(plain, s2b),
            t,
        )
    }
}

/// MPQ encryption of `vals` from cipher state `(s1, s2)`: the cipher that the
/// archive tables and encrypted files are written with.
pub open spec fn encrypt_from(vals: Seq<u32>, s1: u32, s2: u32, t: Seq<u32>) -> Seq<u32>
    decreases vals.len(),
{
    if vals.len() == 0 {
        seq![]
    } else {
        let s2b = cipher_seed2(s1, s2, t);
        let plain = vals[0];
        seq![plain ^ u32_specs::wrapping_add(s1, s2b)] + encrypt_from(
            vals.drop_first(),
            cipher_next_seed1(s1),
            cipher_next_seed2(plain, s2b),
            t,
        )
    }
}

/// MPQ decryption of `vals` with `key`.
pub open spec fn spec_decrypt(vals: Seq<u32>, key: u32, t: Seq<u32>) -> Seq<u32> {
    decrypt_from(vals, key, CIPHER_SEED2, t)
}

/// MPQ encryption of `vals` with `key`.
pub open spec fn spec_encrypt(vals: Seq<u32>, key: u32, t: Seq<u32>) -> Seq<u32> {
    encrypt_from(vals, key, CIPHER_SEED2, t)
}

/// Decryption undoes encryption: decrypting with a key what was encrypted with
/// the same key gives back the plaintext.
pub proof fn lemma_decrypt_encrypt(vals: Seq<u32>, key: u32, t: Seq<u32>)
    ensures
        spec_decrypt(spec_encrypt(vals, key, t), key, t) == vals,
{
    lemma_decrypt_encrypt_from(vals, key, CIPHER_SEED2, t);
}

proof fn lemma_decrypt_encrypt_from(vals: Seq<u32>, s1: u32, s2: u32, t: Seq<u32>)
    ensures
        decrypt_from(encrypt_from(vals, s1, s2, t), s1, s2, t) == vals,
    decreases vals.len(),
{
    if vals.len() > 0 {
        let s2b = cipher_seed2(s1, s2, t);
        let k = u32_specs::wrapping_add(s1, s2b);
        let p = vals[0];
        let c = encrypt_from(vals, s1, s2, t);
        assert((p ^ k) ^ k == p) by (bit_vector);
        lemma_decrypt_encrypt_from(
            vals.drop_first(),
            cipher_next_seed1(s1),
            cipher_next_seed2(p, s2b),
            t,
        );
        assert(c.drop_first() =~= encrypt_from(
            vals.drop_first(),
            cipher_next_seed1(s1),
            cipher_next_seed2(p, s2b),
            t,
        ));
        assert(decrypt_from(c, s1, s2, t) =~= vals);
    } else {
        assert(decrypt_from(encrypt_from(vals, s1, s2, t), s1, s2, t) =~= vals);
    }
}

/// Decryption keeps the number of words.
pub proof fn lemma_decrypt_len(vals: Seq<u32>, s1: u32, s2: u32, t: Seq<u32>)
    ensures
        decrypt_from(vals, s1, s2, t).len() == vals.len(),
    decreases vals.len(),
{
    if vals.len() > 0 {
        let s2b = cipher_seed2(s1, s2, t);
        let plain = vals[0] ^ u32_specs::wrapping_add(s1, s2b);
        lemma_decrypt_len(vals.drop_first(), cipher_next_seed1(s1), cipher_next_seed2(plain, s2b), t);
    }
}

/// Decrypt a block of `u32` values in place.
pub fn decrypt_block(data: &mut [u32], key: u32, crypto_table: &[u32; 1280])
    ensures
        final(data)@ == spec_decrypt(old(data)@, key, crypto_table@),
{
    let ghost orig = data@;
    let mut seed1: u32 = key;
    let mut seed2: u32 = CIPHER_SEED2;
    let mut i: usize = 0;
    proof {
        assert(orig.skip(0) =~= orig);
        assert(data@.take(0) + decrypt_from(orig, seed1, seed2, crypto_table@) =~= decrypt_from(
            orig,
            seed1,
            seed2,
            crypto_table@,
        ));
    }
    while i < data.len()
        invariant
            crypto_table@.len() == 1280,
            data@.len() == orig.len(),
            i <= orig.len(),
            data@.skip(i as int) == orig.skip(i as int),
            data@.take(i as int) + decrypt_from(orig.skip(i as int), seed1, seed2, crypto_table@)
                == spec_decrypt(orig, key, crypto_table@),
        decreases orig.len() - i,
    {
        assert(seed1 & 0xFF < 256) by (bit_vector);
        let ghost s1_before = seed1;
        let ghost s2_before = seed2;
        seed2 = seed2.wrapping_add(crypto_table[(0x400 + (seed1 & 0xFF)) as usize]);
        let encrypted = data[i];
        let plain = encrypted ^ seed1.wrapping_add(seed2);
        let ghost prev = data@;
        data[i] = plain;
        seed1 = (!seed1 << 0x15u32).wrapping_add(0x1111_1111) | (seed1 >> 0x0Bu32);
        seed2 = plain.wrapping_add(seed2).wrapping_add(seed2 << 5u32).wrapping_add(3);
        proof {
            let rest = orig.skip(i as int);
            assert(rest[0] == encrypted);
            assert(rest.drop_first() =~= orig.skip(i + 1));
            assert(decrypt_from(rest, s1_before, s2_before, crypto_table@) =~= seq![plain]
                + decrypt_from(orig.skip(i + 1), seed1, seed2, crypto_table@));
            assert(data@.take(i + 1) =~= prev.take(i as int).push(plain));
            assert(data@.skip(i + 1) =~= orig.skip(i + 1));
            assert(data@.take(i + 1) + decrypt_from(orig.skip(i + 1), seed1, seed2, crypto_table@)
                =~= prev.take(i as int) + decrypt_from(rest, s1_before, s2_before, crypto_table@));
        }
        i = i + 1;
    }
    proof {
        assert(data@.take(i as int) =~= data@);
        assert(orig.skip(i as int) =~= Seq::<u32>::empty());
    }
}

} // verus!

verus! {

/// The MPQ crypto table.
pub open spec fn mpq_crypto_table() -> Seq<u32> {
    Seq::new(1280, |idx: int| crypto_value((5 * (idx % 256) + idx / 256) as nat))
}

/// A crypto table is the crypto table.
pub proof fn lemma_crypto_table_unique(t: Seq<u32>)
    requires
        is_crypto_table(t),
    ensures
        t == mpq_crypto_table(),
{
    assert forall|idx: int| 0 <= idx < 1280 implies t[idx] == mpq_crypto_table()[idx] by {
        let i = idx % 256;
        let j = idx / 256;
        assert(0 <= i < 256 && 0 <= j < 5 && idx == i + 256 * j);
        assert(t[i + 256 * j] == crypto_value((5 * i + j) as nat));
    }
    assert(t =~= mpq_crypto_table());
}

} // verus!

verus! {

/// "MPQ\x1A" read as a little-endian `u32`.
pub const MPQ_MAGIC: u32 = 0x1A51504D;

pub const FILE_IMPLODE: u32 = 0x0000_0100;
pub const FILE_COMPRESS: u32 = 0x0000_0200;
pub const FILE_ENCRYPTED: u32 = 0x0001_0000;
pub const FILE_FIX_KEY: u32 = 0x0002_0000;
pub const FILE_EXISTS: u32 = 0x8000_0000;

pub const HASH_ENTRY_EMPTY: u32 = 0xFFFF_FFFF;
pub const HASH_ENTRY_DELETED: u32 = 0xFFFF_FFFE;

/// Compression method bits (first byte of compressed sector data).
pub const COMPRESS_ZLIB: u8 = 0x02;
pub const COMPRESS_PKWARE: u8 = 0x08;
pub const COMPRESS_BZIP2: u8 = 0x10;

/// MPQ archive header (v1, used by BW).
#[derive(Debug, Clone, Copy)]
struct MpqHeader {
    /// Offset of the archive within the file (where "MPQ\x1A" was found).
    archive_offset: usize,
    _header_size: u32,
    _archive_size: u32,
    /// Sector size = 512 << sector_size_shift.
    sector_size: u32,
    /// Offset to hash table (relative to archive start).
    hash_table_offset: u32,
    /// Offset to block table (relative to archive start).
    block_table_offset: u32,
    /// Number of entries in hash table.
    hash_table_size: u32,
    /// Number of entries in block table.
    block_table_size: u32,
}

/// A hash table entry.
#[derive(Debug, Clone, Copy)]
struct HashEntry {
    hash_a: u32,
    hash_b: u32,
    locale: u16,
    _platform: u16,
    block_index: u32,
}

/// A block table entry.
#[derive(Debug, Clone, Copy)]
struct BlockEntry {
    /// Offset of the file data (relative to archive start).
    offset: u32,
    _compressed_size: u32,
    /// Uncompressed file size.
    file_size: u32,
    /// File flags.
    flags: u32,
}

/// The first 512-byte boundary at or after `off` where a 32-byte header fits
/// and the MPQ magic stands.
spec fn spec_find_magic(data: Seq<u8>, off: nat) -> Option<nat>
    decreases data.len() - off,
{
    if off + 32 > data.len() {
        None
    } else if le32_at(data, off as int) == MPQ_MAGIC {
        Some(off)
    } else if off + 512 > data.len() {
        None
    } else {
        spec_find_magic(data, off + 512)
    }
}

proof fn lemma_find_magic_bound(data: Seq<u8>, off: nat)
    ensures
        spec_find_magic(data, off) matches Some(b) ==> b + 32 <= data.len(),
    decreases data.len() - off,
{
    if off + 32 <= data.len() && le32_at(data, off as int) != MPQ_MAGIC && off + 512 <= data.len() {
        lemma_find_magic_bound(data, off + 512);
    }
}

/// The archive header: found at the first 512-byte boundary holding the magic.
spec fn spec_read_header(data: Seq<u8>) -> Result<MpqHeader, Seq<char>> {
    match spec_find_magic(data, 0) {
        None => Err("MPQ magic not found"@),
        Some(base) => {
            let version = le16_at(data, base + 12int);
            if version > 1 {
                Err("unsupported MPQ format version "@ + decimal_text(version as nat))
            } else {
                Ok(
                    MpqHeader {
                        archive_offset: base as usize,
                        _header_size: le32_at(data, base + 4int),
                        _archive_size: le32_at(data, base + 8int),
                        sector_size: u32_specs::wrapping_shl(512, le16_at(data, base + 14int) as u32),
                        hash_table_offset: le32_at(data, base + 16int),
                        block_table_offset: le32_at(data, base + 20int),
                        hash_table_size: le32_at(data, base + 24int),
                        block_table_size: le32_at(data, base + 28int),
                    },
                )
            }
        },
    }
}

/// `count` little-endian words starting at `abs`.
spec fn table_words(data: Seq<u8>, abs: int, count: nat) -> Seq<u32> {
    Seq::new(count, |i: int| le32_at(data, abs + 4 * i))
}

/// Hash table entries from decrypted words, four words each.
spec fn hash_entries(w: Seq<u32>, n: nat) -> Seq<HashEntry> {
    Seq::new(
        n,
        |i: int|
            HashEntry {
                hash_a: w[4 * i],
                hash_b: w[4 * i + 1],
                locale: (w[4 * i + 2] & 0xFFFF) as u16,
                _platform: ((w[4 * i + 2] >> 16u32) & 0xFFFF) as u16,
                block_index: w[4 * i + 3],
            },
    )
}

/// Block table entries from decrypted words, four words each.
spec fn block_entries(w: Seq<u32>, n: nat) -> Seq<BlockEntry> {
    Seq::new(
        n,
        |i: int|
            BlockEntry {
                offset: w[4 * i],
                _compressed_size: w[4 * i + 1],
                file_size: w[4 * i + 2],
                flags: w[4 * i + 3],
            },
    )
}

/// The hash table: `hash_table_size` entries of 16 bytes at the table offset,
/// encrypted with the hash table key.
spec fn spec_read_hash_table(data: Seq<u8>, h: MpqHeader) -> Result<Seq<HashEntry>, Seq<char>> {
    let abs = h.archive_offset + h.hash_table_offset;
    let n = h.hash_table_size as nat;
    if abs + 16 * n > data.len() {
        Err("hash table extends beyond file"@)
    } else {
        Ok(
            hash_entries(
                spec_decrypt(table_words(data, abs, 4 * n), HASH_TABLE_KEY, mpq_crypto_table()),
                n,
            ),
        )
    }
}

/// The block table: `block_table_size` entries of 16 bytes at the table offset,
/// encrypted with the block table key.
spec fn spec_read_block_table(data: Seq<u8>, h: MpqHeader) -> Result<Seq<BlockEntry>, Seq<char>> {
    let abs = h.archive_offset + h.block_table_offset;
    let n = h.block_table_size as nat;
    if abs + 16 * n > data.len() {
        Err("block table extends beyond file"@)
    } else {
        Ok(
            block_entries(
                spec_decrypt(table_words(data, abs, 4 * n), BLOCK_TABLE_KEY, mpq_crypto_table()),
                n,
            ),
        )
    }
}

/// The parts of an archive read from its bytes, or the message of the header error.
#[verifier::opaque]
spec fn spec_open(data: Seq<u8>) -> Result<(MpqHeader, Seq<HashEntry>, Seq<BlockEntry>), Seq<char>> {
    match spec_read_header(data) {
        Err(m) => Err(m),
        Ok(h) => match spec_read_hash_table(data, h) {
            Err(m) => Err(m),
            Ok(ht) => match spec_read_block_table(data, h) {
                Err(m) => Err(m),
                Ok(bt) => Ok((h, ht, bt)),
            },
        },
    }
}

/// `data` opens to header `h` and tables `ht` and `bt`.
#[verifier::opaque]
spec fn parts_of(data: Seq<u8>, h: MpqHeader, ht: Seq<HashEntry>, bt: Seq<BlockEntry>) -> bool {
    spec_open(data) == Ok::<_, Seq<char>>((h, ht, bt))
}

/// Opening an archive from `data` fails with this error, if it fails.
pub closed spec fn spec_open_error(data: Seq<u8>) -> Option<EngineErrorView> {
    match spec_open(data) {
        Err(m) => Some(EngineErrorView::MpqInvalidHeader(m)),
        Ok(_) => None,
    }
}

} // verus!

verus! {

/// A read-only MPQ archive.
pub struct MpqArchive {
    data: Vec<u8>,
    header: MpqHeader,
    hash_table: Vec<HashEntry>,
    block_table: Vec<BlockEntry>,
    crypto_table: [u32; 1280],
}

impl View for MpqArchive {
    type V = Seq<u8>;

    /// An archive is its bytes; header and tables are read from them.
    closed spec fn view(&self) -> Seq<u8> {
        self.data@
    }
}

impl MpqArchive {
    /// The header and tables are those that the bytes hold, and the crypto table is the MPQ one.
    #[verifier::type_invariant]
    spec fn wf(self) -> bool {
        &&& self.crypto_table@ == mpq_crypto_table()
        &&& parts_of(self.data@, self.header, self.hash_table@, self.block_table@)
        &&& self.header.archive_offset + 32 <= self.data@.len()
    }

    /// Open an MPQ archive from raw bytes.
    pub fn from_bytes(data: Vec<u8>) -> (r: Result<Self, EngineError>)
        ensures
            match r {
                Ok(a) => a@ == data@ && spec_open_error(data@) is None,
                Err(e) => spec_open_error(data@) == Some(e@),
            },
    {
        let crypto_table = build_crypto_table();
        proof {
            lemma_crypto_table_unique(crypto_table@);
        }
        let len = data.len();
        let header = match Self::read_header(data.as_slice()) {
            Ok(h) => h,
            Err(e) => {
                assert(spec_open_error(data@) == Some(e@)) by {
                    reveal(spec_open);
                }
                return Err(e);
            },
        };
        let hash_table = match Self::read_hash_table(data.as_slice(), &header, &crypto_table) {
            Ok(t) => t,
            Err(e) => {
                assert(spec_open_error(data@) == Some(e@)) by {
                    reveal(spec_open);
                }
                return Err(e);
            },
        };
        let block_table = match Self::read_block_table(data.as_slice(), &header, &crypto_table) {
            Ok(t) => t,
            Err(e) => {
                assert(spec_open_error(data@) == Some(e@)) by {
                    reveal(spec_open);
                }
                return Err(e);
            },
        };
        assert(parts_of(data@, header, hash_table@, block_table@)) by {
            reveal(parts_of);
            reveal(spec_open);
        }
        assert(spec_open_error(data@) is None) by {
            reveal(parts_of);
        }
        Ok(Self { data, header, hash_table, block_table, crypto_table })
    }

    // -- Header parsing --

    fn read_header(data: &[u8]) -> (r: Result<MpqHeader, EngineError>)
        ensures
            r matches Ok(h) ==> h.archive_offset + 32 <= data@.len(),
            match spec_read_header(data@) {
                Ok(h) => r matches Ok(h2) && h2 == h,
                Err(m) => r matches Err(e) && e@ == EngineErrorView::MpqInvalidHeader(m),
            },
    {
        // Search for the MPQ magic at 512-byte boundaries.
        let mut offset: usize = 0;
        loop
            invariant
                offset <= data@.len() || offset == 0,
                spec_find_magic(data@, offset as nat) == spec_find_magic(data@, 0),
            ensures
                offset + 32 <= data@.len(),
                spec_find_magic(data@, offset as nat) == Some(offset as nat),
                spec_find_magic(data@, offset as nat) == spec_find_magic(data@, 0),
            decreases data@.len() + 512 - offset,
        {
            if offset > data.len() || data.len() - offset < 32 {
                return Err(EngineError::MpqInvalidHeader(String::from_str("MPQ magic not found")));
            }
            let magic = read_u32_le(data, offset);
            if magic == MPQ_MAGIC {
                break;
            }
            if data.len() - offset < 512 {
                return Err(EngineError::MpqInvalidHeader(String::from_str("MPQ magic not found")));
            }
            offset = offset + 512;
        }

        let base = offset;
        proof {
            lemma_find_magic_bound(data@, 0);
            assert(spec_find_magic(data@, 0) == Some(base as nat));
        }
        if data.len() - base < 32 {
            return Err(EngineError::MpqInvalidHeader(String::from_str("header truncated")));
        }

        let header_size = read_u32_le(data, base + 4);
        let archive_size = read_u32_le(data, base + 8);
        let format_version = read_u16_le(data, base + 12);
        let sector_size_shift = read_u16_le(data, base + 14);
        let hash_table_offset = read_u32_le(data, base + 16);
        let block_table_offset = read_u32_le(data, base + 20);
        let hash_table_size = read_u32_le(data, base + 24);
        let block_table_size = read_u32_le(data, base + 28);

        if format_version > 1 {
            let mut msg = String::from_str("unsupported MPQ format version ");
            let num = decimal_string(format_version as usize);
            msg.append(num.as_str());
            return Err(EngineError::MpqInvalidHeader(msg));
        }

        Ok(MpqHeader {
            archive_offset: offset,
            _header_size: header_size,
            _archive_size: archive_size,
            sector_size: 512u32.wrapping_shl(sector_size_shift as u32),
            hash_table_offset,
            block_table_offset,
            hash_table_size,
            block_table_size,
        })
    }

    // -- Table parsing --

    /// Read `4 * n` little-endian words at `abs` and decrypt them with `key`.
    fn read_table_words(data: &[u8], abs: usize, n: usize, key: u32, crypto_table: &[u32; 1280]) -> (w:
        Vec<u32>)
        requires
            abs + 16 * n <= data@.len(),
            crypto_table@ == mpq_crypto_table(),
        ensures
            w@ == spec_decrypt(table_words(data@, abs as int, 4 * n as nat), key, mpq_crypto_table()),
            w@.len() == 4 * n,
    {
        let len = data.len();
        let count = n * 4;
        let mut buf: Vec<u32> = Vec::with_capacity(count);
        let mut i: usize = 0;
        while i < count
            invariant
                count == 4 * n,
                len == data@.len(),
                abs + 16 * n <= data@.len(),
                i <= count,
                buf@.len() == i,
                forall|j: int| 0 <= j < i ==> buf@[j] == le32_at(data@, abs + 4 * j),
            decreases count - i,
        {
            buf.push(read_u32_le(data, abs + i * 4));
            i = i + 1;
        }
        proof {
            assert(buf@ =~= table_words(data@, abs as int, 4 * n as nat));
        }
        decrypt_block(buf.as_mut_slice(), key, crypto_table);
        proof {
            lemma_decrypt_len(table_words(data@, abs as int, 4 * n as nat), key, CIPHER_SEED2, mpq_crypto_table());
        }
        buf
    }

    fn read_hash_table(data: &[u8], header: &MpqHeader, crypto_table: &[u32; 1280]) -> (r: Result<
        Vec<HashEntry>,
        EngineError,
    >)
        requires
            crypto_table@ == mpq_crypto_table(),
            header.archive_offset <= data@.len(),
        ensures
            match spec_read_hash_table(data@, *header) {
                Ok(t) => r matches Ok(t2) && t2@ == t,
                Err(m) => r matches Err(e) && e@ == EngineErrorView::MpqInvalidHeader(m),
            },
    {
        let remaining = data.len() - header.archive_offset;
        let byte_count = header.hash_table_size as u64 * 16;
        if header.hash_table_offset as u64 + byte_count > remaining as u64 {
            return Err(
                EngineError::MpqInvalidHeader(String::from_str("hash table extends beyond file")),
            );
        }
        let abs = header.archive_offset + header.hash_table_offset as usize;
        let n = header.hash_table_size as usize;
        let buf = Self::read_table_words(data, abs, n, HASH_TABLE_KEY, crypto_table);
        let blen = buf.len();
        let mut entries: Vec<HashEntry> = Vec::with_capacity(n);
        let mut i: usize = 0;
        while i < n
            invariant
                blen == buf@.len(),
                buf@.len() == 4 * n,
                i <= n,
                entries@.len() == i,
                forall|j: int|
                    0 <= j < i ==> entries@[j] == #[trigger] hash_entries(buf@, n as nat)[j],
            decreases n - i,
        {
            let base = i * 4;
            entries.push(
                HashEntry {
                    hash_a: buf[base],
                    hash_b: buf[base + 1],
                    locale: (buf[base + 2] & 0xFFFF) as u16,
                    _platform: ((buf[base + 2] >> 16u32) & 0xFFFF) as u16,
                    block_index: buf[base + 3],
                },
            );
            i = i + 1;
        }
        proof {
            assert(entries@ =~= hash_entries(buf@, n as nat));
        }
        Ok(entries)
    }

    fn read_block_table(data: &[u8], header: &MpqHeader, crypto_table: &[u32; 1280]) -> (r: Result<
        Vec<BlockEntry>,
        EngineError,
    >)
        requires
            crypto_table@ == mpq_crypto_table(),
            header.archive_offset <= data@.len(),
        ensures
            match spec_read_block_table(data@, *header) {
                Ok(t) => r matches Ok(t2) && t2@ == t,
                Err(m) => r matches Err(e) && e@ == EngineErrorView::MpqInvalidHeader(m),
            },
    {
        let remaining = data.len() - header.archive_offset;
        let byte_count = header.block_table_size as u64 * 16;
        if header.block_table_offset as u64 + byte_count > remaining as u64 {
            return Err(
                EngineError::MpqInvalidHeader(String::from_str("block table extends beyond file")),
            );
        }
        let abs = header.archive_offset + header.block_table_offset as usize;
        let n = header.block_table_size as usize;
        let buf = Self::read_table_words(data, abs, n, BLOCK_TABLE_KEY, crypto_table);
        let blen = buf.len();
        let mut entries: Vec<BlockEntry> = Vec::with_capacity(n);
        let mut i: usize = 0;
        while i < n
            invariant
                blen == buf@.len(),
                buf@.len() == 4 * n,
                i <= n,
                entries@.len() == i,
                forall|j: int|
                    0 <= j < i ==> entries@[j] == #[trigger] block_entries(buf@, n as nat)[j],
            decreases n - i,
        {
            let base = i * 4;
            entries.push(
                BlockEntry {
                    offset: buf[base],
                    _compressed_size: buf[base + 1],
                    file_size: buf[base + 2],
                    flags: buf[base + 3],
                },
            );
            i = i + 1;
        }
        proof {
            assert(entries@ =~= block_entries(buf@, n as nat));
        }
        Ok(entries)
    }
}

} // verus!

verus! {

// -- File lookup --

/// Linear probing from `start`, step `k` of at most `entries.len()`: the index of
/// the first entry matching both check hashes (and locale 0 when `strict`),
/// stopping at the first empty entry and skipping deleted ones.
spec fn probe(entries: Seq<HashEntry>, start: int, k: int, ha: u32, hb: u32, strict: bool) -> Option<
    int,
>
    decreases entries.len() - k,
{
    if k < 0 || k >= entries.len() {
        None
    } else {
        let n = entries.len() as int;
        let idx = if start + k < n {
            start + k
        } else {
            start + k - n
        };
        let e = entries[idx];
        if e.block_index == HASH_ENTRY_EMPTY {
            None
        } else if e.block_index != HASH_ENTRY_DELETED && e.hash_a == ha && e.hash_b == hb && (
        !strict || e.locale == 0) {
            Some(idx)
        } else {
            probe(entries, start, k + 1, ha, hb, strict)
        }
    }
}

/// The hash table slot of a file name: probing from the name's table hash for
/// an entry with its two check hashes, first with locale 0, then any locale.
spec fn spec_find(ht: Seq<HashEntry>, name: Seq<u8>) -> Option<int> {
    let n = ht.len() as int;
    if n == 0 {
        None
    } else {
        let t = mpq_crypto_table();
        let start = (spec_hash(name, 0, t) as int) % n;
        let ha = spec_hash(name, 1, t);
        let hb = spec_hash(name, 2, t);
        match probe(ht, start, 0, ha, hb, true) {
            Some(i) => Some(i),
            None => probe(ht, start, 0, ha, hb, false),
        }
    }
}

/// A name is looked up at its home slot, the type-0 hash of the name modulo
/// the table size: a live entry there with the name's type-1 and type-2 check
/// hashes and locale 0 is the one found, and an empty entry there means the
/// name is not in the table.
proof fn lemma_find_home_slot(ht: Seq<HashEntry>, name: Seq<u8>)
    requires
        ht.len() > 0,
    ensures
        ({
            let home = (spec_hash(name, 0, mpq_crypto_table()) as int) % (ht.len() as int);
            let e = ht[home];
            &&& e.block_index != HASH_ENTRY_EMPTY && e.block_index != HASH_ENTRY_DELETED && e.hash_a
                == spec_hash(name, 1, mpq_crypto_table()) && e.hash_b == spec_hash(
                name,
                2,
                mpq_crypto_table(),
            ) && e.locale == 0 ==> spec_find(ht, name) == Some(home)
            &&& e.block_index == HASH_ENTRY_EMPTY ==> spec_find(ht, name) is None
        }),
{
}

proof fn lemma_probe_bound(entries: Seq<HashEntry>, start: int, k: int, ha: u32, hb: u32, strict: bool)
    requires
        0 <= start < entries.len(),
    ensures
        probe(entries, start, k, ha, hb, strict) matches Some(i) ==> 0 <= i < entries.len(),
    decreases entries.len() - k,
{
    if 0 <= k < entries.len() {
        lemma_probe_bound(entries, start, k + 1, ha, hb, strict);
    }
}

/// The bytes after the last backslash of `b` (all of `b` if it has none).
pub open spec fn after_last_backslash(b: Seq<u8>) -> Seq<u8>
    decreases b.len(),
{
    if b.len() == 0 {
        b
    } else if b.last() == 0x5C {
        seq![]
    } else {
        after_last_backslash(b.drop_last()).push(b.last())
    }
}

/// The decryption key of a file: the hash (type 3) of its name after the last
/// backslash, adjusted by the block offset and size for `FILE_FIX_KEY` files.
spec fn spec_file_key(name: Seq<u8>, block: BlockEntry) -> u32 {
    let key = spec_hash(after_last_backslash(name), 3, mpq_crypto_table());
    if block.flags & FILE_FIX_KEY != 0 {
        u32_specs::wrapping_add(key, block.offset) ^ block.file_size
    } else {
        key
    }
}

/// The bytes after the last backslash of `b` are those from just past it: if
/// `k` is 0 or follows a backslash, and no backslash comes at or after `k`,
/// they are `b[k..]`.
pub proof fn lemma_after_last_backslash_at(b: Seq<u8>, k: int)
    requires
        0 <= k <= b.len(),
        k == 0 || b[k - 1] == 0x5C,
        forall|j: int| k <= j < b.len() ==> b[j] != 0x5C,
    ensures
        after_last_backslash(b) == b.subrange(k, b.len() as int),
    decreases b.len(),
{
    if b.len() == k {
        if k > 0 {
            assert(b.last() == b[k - 1]);
        }
        assert(b.subrange(k, k) =~= Seq::<u8>::empty());
    } else {
        assert(b.last() == b[b.len() - 1]);
        let p = b.drop_last();
        assert forall|j: int| k <= j < p.len() implies p[j] != 0x5C by {
            assert(p[j] == b[j]);
        }
        if k > 0 {
            assert(p[k - 1] == b[k - 1]);
        }
        lemma_after_last_backslash_at(p, k);
        assert(p.subrange(k, p.len() as int).push(b.last()) =~= b.subrange(k, b.len() as int));
    }
}

/// The decryption key of a file with the given name, kept in a block at
/// `offset` holding `file_size` bytes, with the given flags.
pub closed spec fn file_decryption_key(name: Seq<u8>, offset: u32, file_size: u32, flags: u32) -> u32 {
    spec_file_key(name, BlockEntry { offset, _compressed_size: 0, file_size, flags })
}

/// The decryption key of an encrypted file is the type-3 hash of the part of
/// its name after the last backslash (`name[k..]`, `k` just past it or 0),
/// whatever directories come before; for `FILE_FIX_KEY` files the block offset
/// is added to it (wrapping) and the file size xored in.
pub proof fn lemma_file_key_of_short_name(
    name: Seq<u8>,
    offset: u32,
    file_size: u32,
    flags: u32,
    k: int,
)
    requires
        0 <= k <= name.len(),
        k == 0 || name[k - 1] == 0x5C,
        forall|j: int| k <= j < name.len() ==> name[j] != 0x5C,
    ensures
        file_decryption_key(name, offset, file_size, flags) == if flags & FILE_FIX_KEY != 0 {
            u32_specs::wrapping_add(
                spec_hash(name.subrange(k, name.len() as int), 3, mpq_crypto_table()),
                offset,
            ) ^ file_size
        } else {
            spec_hash(name.subrange(k, name.len() as int), 3, mpq_crypto_table())
        },
{
    lemma_after_last_backslash_at(name, k);
}

// -- Sector decryption and decompression --

/// The byte at `k` of `b` padded with zeros.
pub open spec fn padded_byte(b: Seq<u8>, k: int) -> u8 {
    if 0 <= k < b.len() {
        b[k]
    } else {
        0
    }
}

/// Number of 4-byte words covering `n` bytes.
pub open spec fn word_count(n: nat) -> nat {
    n / 4 + if n % 4 == 0 {
        0nat
    } else {
        1nat
    }
}

/// The little-endian words of `b`, zero-padded to a multiple of four bytes.
pub open spec fn byte_words(b: Seq<u8>) -> Seq<u32> {
    Seq::new(
        word_count(b.len()),
        |j: int|
            crate::bytes::le32(
                padded_byte(b, 4 * j),
                padded_byte(b, 4 * j + 1),
                padded_byte(b, 4 * j + 2),
                padded_byte(b, 4 * j + 3),
            ),
    )
}

/// Byte `r` (0 to 3, little-endian) of `w`.
pub open spec fn word_byte(w: u32, r: int) -> u8 {
    if r == 0 {
        (w & 0xFF) as u8
    } else if r == 1 {
        ((w >> 8u32) & 0xFF) as u8
    } else if r == 2 {
        ((w >> 16u32) & 0xFF) as u8
    } else {
        ((w >> 24u32) & 0xFF) as u8
    }
}

/// Decryption of a byte string: as little-endian words, zero-padded, cut back to its length.
pub open spec fn decrypt_bytes(b: Seq<u8>, key: u32) -> Seq<u8> {
    let dw = spec_decrypt(byte_words(b), key, mpq_crypto_table());
    Seq::new(b.len(), |k: int| word_byte(dw[k / 4], k % 4))
}

/// PKWare DCL decompression of MPQ data: at most two bytes are taken raw.
spec fn spec_pkware_mpq(d: Seq<u8>) -> Result<Seq<u8>, EngineErrorView> {
    if d.len() <= 2 {
        Ok(d)
    } else {
        match pkware_explode(d) {
            Ok(v) => Ok(v),
            Err(m) => Err(EngineErrorView::MpqDecompression("pkware: "@ + m)),
        }
    }
}

/// A compressed sector: imploded files use PKWare; otherwise the first byte
/// names the method (bzip2 is refused, then zlib, then PKWare, else raw).
pub closed spec fn spec_decompress_sector(d: Seq<u8>, flags: u32) -> Result<Seq<u8>, EngineErrorView> {
    if flags & FILE_IMPLODE != 0 {
        spec_pkware_mpq(d)
    } else if flags & FILE_COMPRESS != 0 && d.len() > 0 {
        let method = d[0];
        let payload = d.drop_first();
        if method & COMPRESS_BZIP2 != 0 {
            Err(EngineErrorView::MpqDecompression("bzip2 compression not supported"@))
        } else if method & COMPRESS_ZLIB != 0 {
            match zlib_inflate(payload) {
                Ok(v) => Ok(v),
                Err(m) => Err(EngineErrorView::MpqDecompression("zlib: "@ + m)),
            }
        } else if method & COMPRESS_PKWARE != 0 {
            spec_pkware_mpq(payload)
        } else {
            Ok(payload)
        }
    } else {
        Ok(d)
    }
}

fn decompress_pkware(data: &[u8], _expected_size: usize) -> (r: Result<Vec<u8>, EngineError>)
    ensures
        match spec_pkware_mpq(data@) {
            Ok(v) => r matches Ok(w) && w@ == v,
            Err(e) => r matches Err(x) && x@ == e,
        },
{
    if data.len() <= 2 {
        let mut out: Vec<u8> = Vec::new();
        crate::section::append_bytes(&mut out, data);
        return Ok(out);
    }
    match explode_pkware(data) {
        Ok(v) => Ok(v),
        Err(m) => {
            let mut msg = String::from_str("pkware: ");
            msg.append(m.as_str());
            Err(EngineError::MpqDecompression(msg))
        },
    }
}

fn decompress_zlib(data: &[u8], _expected_size: usize) -> (r: Result<Vec<u8>, EngineError>)
    ensures
        match zlib_inflate(data@) {
            Ok(v) => r matches Ok(w) && w@ == v,
            Err(m) => r matches Err(x) && x@ == EngineErrorView::MpqDecompression("zlib: "@ + m),
        },
{
    match inflate_zlib(data) {
        Ok(v) => Ok(v),
        Err(m) => {
            let mut msg = String::from_str("zlib: ");
            msg.append(m.as_str());
            Err(EngineError::MpqDecompression(msg))
        },
    }
}

/// Decompress one sector according to the file flags and the method byte.
fn decompress_sector(data: &[u8], expected_size: usize, flags: u32) -> (r: Result<Vec<u8>, EngineError>)
    ensures
        match spec_decompress_sector(data@, flags) {
            Ok(v) => r matches Ok(w) && w@ == v,
            Err(e) => r matches Err(x) && x@ == e,
        },
{
    if flags & FILE_IMPLODE != 0 {
        return decompress_pkware(data, expected_size);
    }
    if flags & FILE_COMPRESS != 0 && data.len() > 0 {
        let method = data[0];
        let payload = &data[1..data.len()];
        proof {
            assert(payload@ =~= data@.drop_first());
        }
        if method & COMPRESS_BZIP2 != 0 {
            return Err(
                EngineError::MpqDecompression(String::from_str("bzip2 compression not supported")),
            );
        }
        if method & COMPRESS_ZLIB != 0 {
            return decompress_zlib(payload, expected_size);
        }
        if method & COMPRESS_PKWARE != 0 {
            return decompress_pkware(payload, expected_size);
        }
        let mut out: Vec<u8> = Vec::new();
        crate::section::append_bytes(&mut out, payload);
        return Ok(out);
    }
    let mut out: Vec<u8> = Vec::new();
    crate::section::append_bytes(&mut out, data);
    Ok(out)
}

/// The byte at `k` of `bytes`, zero past the end.
fn padded_byte_at(bytes: &[u8], k: usize) -> (r: u8)
    ensures
        r == padded_byte(bytes@, k as int),
{
    if k < bytes.len() {
        bytes[k]
    } else {
        0
    }
}

/// Byte `r` (little-endian) of `w`.
fn byte_of_word(w: u32, r: usize) -> (b: u8)
    requires
        r < 4,
    ensures
        b == word_byte(w, r as int),
{
    if r == 0 {
        (w & 0xFF) as u8
    } else if r == 1 {
        ((w >> 8u32) & 0xFF) as u8
    } else if r == 2 {
        ((w >> 16u32) & 0xFF) as u8
    } else {
        ((w >> 24u32) & 0xFF) as u8
    }
}

/// Decrypt sector bytes: read as little-endian words (zero-padded), decrypt,
/// and write back as many bytes as there were.
fn decrypt_sector(bytes: &[u8], key: u32, crypto_table: &[u32; 1280]) -> (r: Vec<u8>)
    requires
        crypto_table@ == mpq_crypto_table(),
    ensures
        r@ == decrypt_bytes(bytes@, key),
{
    let len = bytes.len();
    let nwords = len / 4 + if len % 4 == 0 {
        0
    } else {
        1
    };
    let mut words: Vec<u32> = Vec::with_capacity(nwords);
    let mut j: usize = 0;
    while j < nwords
        invariant
            len == bytes@.len(),
            nwords == word_count(len as nat),
            j <= nwords,
            words@.len() == j,
            forall|a: int| 0 <= a < j ==> words@[a] == #[trigger] byte_words(bytes@)[a],
        decreases nwords - j,
    {
        let b0 = padded_byte_at(bytes, 4 * j);
        let b1 = padded_byte_at(bytes, 4 * j + 1);
        let b2 = padded_byte_at(bytes, 4 * j + 2);
        let b3 = padded_byte_at(bytes, 4 * j + 3);
        words.push(b0 as u32 + (b1 as u32) * 256 + (b2 as u32) * 65536 + (b3 as u32) * 16777216);
        j = j + 1;
    }
    proof {
        assert(words@ =~= byte_words(bytes@));
    }
    decrypt_block(&mut words, key, crypto_table);
    proof {
        lemma_decrypt_len(byte_words(bytes@), key, CIPHER_SEED2, mpq_crypto_table());
    }
    let mut out: Vec<u8> = Vec::with_capacity(len);
    let mut k: usize = 0;
    while k < len
        invariant
            len == bytes@.len(),
            nwords == word_count(len as nat),
            words@ == spec_decrypt(byte_words(bytes@), key, mpq_crypto_table()),
            words@.len() == nwords,
            k <= len,
            out@.len() == k,
            forall|a: int| 0 <= a < k ==> out@[a] == #[trigger] decrypt_bytes(bytes@, key)[a],
        decreases len - k,
    {
        out.push(byte_of_word(words[k / 4], k % 4));
        k = k + 1;
    }
    proof {
        assert(out@ =~= decrypt_bytes(bytes@, key));
    }
    out
}

} // verus!

verus! {

/// The bytes that sector `i` contributes to a file, or the error it raises.
spec fn spec_sector_bytes(
    data: Seq<u8>,
    fo: int,
    offs: Seq<u32>,
    i: int,
    count: int,
    ss: int,
    block: BlockEntry,
    enc: bool,
    key: u32,
) -> Result<Seq<u8>, EngineErrorView> {
    let start = fo + offs[i];
    let end = fo + offs[i + 1];
    if end > data.len() || start > end {
        Err(EngineErrorView::MpqDecompression("sector data out of bounds"@))
    } else {
        let raw = data.subrange(start, end);
        let sd = if enc {
            decrypt_bytes(raw, u32_specs::wrapping_add(key, i as u32))
        } else {
            raw
        };
        let expected = if i < count - 1 {
            ss
        } else {
            block.file_size - i * ss
        };
        let compressed = block.flags & (FILE_IMPLODE | FILE_COMPRESS) != 0;
        if sd.len() < expected && compressed {
            spec_decompress_sector(sd, block.flags)
        } else {
            let kept = if expected < sd.len() {
                expected
            } else {
                sd.len() as int
            };
            Ok(sd.take(kept))
        }
    }
}

/// Extracting a file's bytes: the sectors from `i` on, appended to `out`, then
/// cut to the file size.
spec fn spec_sectors(
    data: Seq<u8>,
    fo: int,
    offs: Seq<u32>,
    i: int,
    count: int,
    ss: int,
    block: BlockEntry,
    enc: bool,
    key: u32,
    out: Seq<u8>,
) -> Result<Seq<u8>, EngineErrorView>
    decreases count - i,
{
    if i >= count || i < 0 {
        let fs = block.file_size as int;
        Ok(
            if out.len() > fs {
                out.take(fs)
            } else {
                out
            },
        )
    } else {
        match spec_sector_bytes(data, fo, offs, i, count, ss, block, enc, key) {
            Err(e) => Err(e),
            Ok(b) => spec_sectors(data, fo, offs, i + 1, count, ss, block, enc, key, out + b),
        }
    }
}

/// Extracting the file of a block: stored files are a plain byte range;
/// compressed or encrypted files are split in sectors through an offset table.
spec fn spec_extract(data: Seq<u8>, h: MpqHeader, block: BlockEntry, name: Seq<u8>) -> Result<
    Seq<u8>,
    EngineErrorView,
> {
    let fo = h.archive_offset + block.offset;
    let compressed = block.flags & (FILE_IMPLODE | FILE_COMPRESS) != 0;
    let enc = block.flags & FILE_ENCRYPTED != 0;
    if !compressed && !enc {
        let end = fo + block.file_size;
        if end > data.len() {
            Err(EngineErrorView::MpqDecompression("file data extends beyond archive"@))
        } else {
            Ok(data.subrange(fo, end))
        }
    } else if h.sector_size == 0 {
        Err(EngineErrorView::MpqDecompression("sector size is zero"@))
    } else {
        let ss = h.sector_size as int;
        let count = (block.file_size + ss - 1) / ss;
        if fo + 4 * (count + 1) > data.len() {
            Err(EngineErrorView::MpqDecompression("sector offset table truncated"@))
        } else {
            let raw = table_words(data, fo, (count + 1) as nat);
            let key = spec_file_key(name, block);
            let offs = if enc {
                spec_decrypt(raw, u32_specs::wrapping_sub(key, 1), mpq_crypto_table())
            } else {
                raw
            };
            spec_sectors(data, fo, offs, 0, count, ss, block, enc, key, seq![])
        }
    }
}

/// Reading a named file from the archive parts.
spec fn spec_read_parts(
    data: Seq<u8>,
    h: MpqHeader,
    ht: Seq<HashEntry>,
    bt: Seq<BlockEntry>,
    name: Seq<char>,
) -> Result<Seq<u8>, EngineErrorView> {
    let nb = vstd::utf8::encode_utf8(name);
    match spec_find(ht, nb) {
        None => Err(EngineErrorView::MpqFileNotFound { name }),
        Some(i) => {
            let bi = ht[i].block_index as int;
            if bi >= bt.len() {
                Err(EngineErrorView::MpqFileNotFound { name })
            } else if bt[bi].flags & FILE_EXISTS == 0 {
                Err(EngineErrorView::MpqFileNotFound { name })
            } else {
                spec_extract(data, h, bt[bi], nb)
            }
        },
    }
}

/// Reading the file `name` from the archive with bytes `data`.
pub closed spec fn spec_read_file(data: Seq<u8>, name: Seq<char>) -> Result<Seq<u8>, EngineErrorView> {
    match spec_open(data) {
        Err(m) => Err(EngineErrorView::MpqInvalidHeader(m)),
        Ok((h, ht, bt)) => spec_read_parts(data, h, ht, bt, name),
    }
}

/// The archive with bytes `data` has a hash table entry for `name`.
pub closed spec fn spec_contains(data: Seq<u8>, name: Seq<char>) -> bool {
    match spec_open(data) {
        Err(_) => false,
        Ok((h, ht, bt)) => spec_find(ht, vstd::utf8::encode_utf8(name)) is Some,
    }
}

/// A file that can be read is one that the archive contains; a file that
/// the archive does not contain reads as "not found".
pub proof fn lemma_read_implies_contains(data: Seq<u8>, name: Seq<char>)
    ensures
        spec_read_file(data, name) is Ok ==> spec_contains(data, name),
        spec_open_error(data) is None && !spec_contains(data, name) ==> spec_read_file(data, name)
            == Err::<Seq<u8>, EngineErrorView>(EngineErrorView::MpqFileNotFound { name }),
{
}

/// The `j`-th 512-byte boundary of `data` has room for a header and holds the
/// MPQ magic.
pub open spec fn magic_at(data: Seq<u8>, j: nat) -> bool {
    512 * j + 32 <= data.len() && le32_at(data, (512 * j) as int) == MPQ_MAGIC
}

/// No 512-byte boundary from `512 * k` on has room for a header that starts
/// with the magic: the search from there finds nothing.
proof fn lemma_find_magic_none(data: Seq<u8>, k: nat)
    requires
        forall|j: nat| j >= k ==> !#[trigger] magic_at(data, j),
    ensures
        spec_find_magic(data, 512 * k) is None,
    decreases data.len() - 512 * k,
{
    if 512 * k + 32 <= data.len() {
        assert(!magic_at(data, k));
        if 512 * k + 512 <= data.len() {
            assert(512 * (k + 1) == 512 * k + 512);
            lemma_find_magic_none(data, k + 1);
        }
    }
}

/// Opening fails only with an invalid-header error, and then no file reads
/// and none is contained. Data without the MPQ magic at any 512-byte boundary
/// where a header fits (data under 32 bytes, say) fails with "MPQ magic not
/// found"; a header at the start with a format version above 1 fails with
/// "unsupported MPQ format version" and the version.
pub proof fn lemma_open_errors(data: Seq<u8>, name: Seq<char>)
    ensures
        spec_open_error(data) matches Some(e) ==> e is MpqInvalidHeader,
        spec_open_error(data) matches Some(e) ==> spec_read_file(data, name) == Err::<
            Seq<u8>,
            EngineErrorView,
        >(e) && !spec_contains(data, name),
        (forall|j: nat| !#[trigger] magic_at(data, j))
            ==> spec_open_error(data) == Some(EngineErrorView::MpqInvalidHeader("MPQ magic not found"@)),
        data.len() >= 32 && le32_at(data, 0) == MPQ_MAGIC && le16_at(data, 12) > 1
            ==> spec_open_error(data) == Some(
            EngineErrorView::MpqInvalidHeader(
                "unsupported MPQ format version "@ + decimal_text(le16_at(data, 12) as nat),
            ),
        ),
{
    reveal(spec_open);
    if forall|j: nat| !#[trigger] magic_at(data, j) {
        lemma_find_magic_none(data, 0);
    }
}

/// Whole sectors of size `ss` needed for `fs` bytes: fewer would not cover them.
proof fn lemma_sector_count(fs: int, ss: int, i: int)
    requires
        ss > 0,
        fs >= 0,
        0 <= i < (fs + ss - 1) / ss,
    ensures
        i * ss < fs,
        (fs + ss - 1) / ss <= fs,
{
    let c = (fs + ss - 1) / ss;
    assert(c * ss <= fs + ss - 1) by (nonlinear_arith)
        requires
            ss > 0,
            c == (fs + ss - 1) / ss,
    ;
    assert(i * ss <= (c - 1) * ss) by (nonlinear_arith)
        requires
            ss > 0,
            i <= c - 1,
    ;
    assert((c - 1) * ss == c * ss - ss) by (nonlinear_arith);
    assert(c <= fs) by (nonlinear_arith)
        requires
            ss > 0,
            fs >= 0,
            c == (fs + ss - 1) / ss,
    ;
}

impl MpqArchive {
    /// Probe the hash table linearly from `start` for the two check hashes.
    fn probe_table(&self, start: usize, hash_a: u32, hash_b: u32, strict: bool) -> (r: Option<usize>)
        requires
            start < self.hash_table@.len(),
        ensures
            match probe(self.hash_table@, start as int, 0, hash_a, hash_b, strict) {
                Some(i) => r matches Some(j) && j == i,
                None => r is None,
            },
    {
        let table_size = self.hash_table.len();
        let mut k: usize = 0;
        while k < table_size
            invariant
                table_size == self.hash_table@.len(),
                start < table_size,
                k <= table_size,
                probe(self.hash_table@, start as int, k as int, hash_a, hash_b, strict) == probe(
                    self.hash_table@,
                    start as int,
                    0,
                    hash_a,
                    hash_b,
                    strict,
                ),
            decreases table_size - k,
        {
            let index = if start < table_size - k {
                start + k
            } else {
                start - (table_size - k)
            };
            let entry = &self.hash_table[index];
            if entry.block_index == HASH_ENTRY_EMPTY {
                return None;
            }
            if entry.block_index != HASH_ENTRY_DELETED && entry.hash_a == hash_a && entry.hash_b
                == hash_b && (!strict || entry.locale == 0) {
                return Some(index);
            }
            k = k + 1;
        }
        None
    }

    fn find_hash_entry(&self, name: &str) -> (r: Result<usize, EngineError>)
        ensures
            match spec_find(self.hash_table@, name.spec_bytes()) {
                Some(i) => r matches Ok(j) && j == i,
                None => r matches Err(e) && e@ == (EngineErrorView::MpqFileNotFound { name: name@ }),
            },
            r matches Ok(j) ==> j < self.hash_table@.len(),
    {
        proof {
            use_type_invariant(self);
        }
        let table_size = self.hash_table.len();
        if table_size == 0 {
            return Err(EngineError::MpqFileNotFound { name: String::from_str(name) });
        }
        let bytes = name.as_bytes();
        let name_hash = hash_bytes(bytes, 0, &self.crypto_table);
        let hash_a = hash_bytes(bytes, 1, &self.crypto_table);
        let hash_b = hash_bytes(bytes, 2, &self.crypto_table);
        let start = (name_hash as usize) % table_size;
        proof {
            vstd::arithmetic::div_mod::lemma_mod_bound(name_hash as int, table_size as int);
            lemma_probe_bound(self.hash_table@, start as int, 0, hash_a, hash_b, true);
            lemma_probe_bound(self.hash_table@, start as int, 0, hash_a, hash_b, false);
        }
        if let Some(index) = self.probe_table(start, hash_a, hash_b, true) {
            return Ok(index);
        }
        if let Some(index) = self.probe_table(start, hash_a, hash_b, false) {
            return Ok(index);
        }
        Err(EngineError::MpqFileNotFound { name: String::from_str(name) })
    }

    /// Check whether a file exists in the archive.
    pub fn contains(&self, name: &str) -> (r: bool)
        ensures
            r == spec_contains(self@, name@),
    {
        proof {
            use_type_invariant(self);
            reveal(parts_of);
        }
        self.find_hash_entry(name).is_ok()
    }
}

} // verus!

verus! {

/// The bytes of `bytes` after its last backslash.
fn short_name(bytes: &[u8]) -> (r: &[u8])
    ensures
        r@ == after_last_backslash(bytes@),
{
    let len = bytes.len();
    let mut start = len;
    proof {
        assert(bytes@.take(len as int) =~= bytes@);
        assert(bytes@.subrange(len as int, len as int) =~= Seq::<u8>::empty());
        assert(after_last_backslash(bytes@) =~= after_last_backslash(bytes@.take(start as int))
            + bytes@.subrange(start as int, len as int));
    }
    while start > 0 && bytes[start - 1] != 0x5C
        invariant
            start <= len,
            len == bytes@.len(),
            after_last_backslash(bytes@) == after_last_backslash(bytes@.take(start as int))
                + bytes@.subrange(start as int, len as int),
        decreases start,
    {
        proof {
            let t = bytes@.take(start as int);
            assert(t.drop_last() =~= bytes@.take(start - 1));
            assert(bytes@.subrange(start - 1, len as int) =~= seq![bytes@[start - 1]]
                + bytes@.subrange(start as int, len as int));
            assert(after_last_backslash(t) == after_last_backslash(t.drop_last()).push(t.last()));
            assert(after_last_backslash(bytes@.take(start - 1)).push(bytes@[start - 1])
                + bytes@.subrange(start as int, len as int) =~= after_last_backslash(
                bytes@.take(start - 1),
            ) + bytes@.subrange(start - 1, len as int));
        }
        start = start - 1;
    }
    proof {
        if start == 0 {
            assert(bytes@.take(0) =~= Seq::<u8>::empty());
        }
        assert(after_last_backslash(bytes@.take(start as int)) =~= Seq::<u8>::empty());
        assert(bytes@.subrange(start as int, len as int) =~= after_last_backslash(bytes@));
    }
    &bytes[start..len]
}

impl MpqArchive {
    fn compute_file_key(&self, name: &str, block: &BlockEntry) -> (k: u32)
        ensures
            k == spec_file_key(name.spec_bytes(), *block),
    {
        proof {
            use_type_invariant(self);
        }
        // Use only the filename portion (after last backslash).
        let short = short_name(name.as_bytes());
        let mut key = hash_bytes(short, 3, &self.crypto_table);
        if block.flags & FILE_FIX_KEY != 0 {
            key = (key.wrapping_add(block.offset)) ^ block.file_size;
        }
        key
    }

    // -- File extraction --

    fn extract_file(&self, block: &BlockEntry, name: &str) -> (r: Result<Vec<u8>, EngineError>)
        ensures
            match spec_extract(self.data@, self.header, *block, name.spec_bytes()) {
                Ok(v) => r matches Ok(w) && w@ == v,
                Err(e) => r matches Err(x) && x@ == e,
            },
    {
        proof {
            use_type_invariant(self);
        }
        let data = self.data.as_slice();
        let len = data.len();
        let is_compressed = block.flags & (FILE_IMPLODE | FILE_COMPRESS) != 0;
        let is_encrypted = block.flags & FILE_ENCRYPTED != 0;
        let fo_opt = (self.header.archive_offset as u64).checked_add(block.offset as u64);

        // Single-sector file (uncompressed and unencrypted).
        if !is_compressed && !is_encrypted {
            let end_opt = match fo_opt {
                Some(fo) => fo.checked_add(block.file_size as u64),
                None => None,
            };
            match end_opt {
                Some(end) => {
                    if end > len as u64 {
                        return Err(
                            EngineError::MpqDecompression(
                                String::from_str("file data extends beyond archive"),
                            ),
                        );
                    }
                    let fo = fo_opt.unwrap() as usize;
                    let mut out: Vec<u8> = Vec::new();
                    crate::section::append_bytes(&mut out, &data[fo..end as usize]);
                    return Ok(out);
                },
                None => {
                    return Err(
                        EngineError::MpqDecompression(
                            String::from_str("file data extends beyond archive"),
                        ),
                    );
                },
            }
        }
        if self.header.sector_size == 0 {
            return Err(EngineError::MpqDecompression(String::from_str("sector size is zero")));
        }

        // Multi-sector file: read sector offset table.
        let ss = self.header.sector_size as u64;
        let fs = block.file_size as u64;
        let count = (fs + ss - 1) / ss;
        proof {
            if count > 0 {
                lemma_sector_count(fs as int, ss as int, 0);
            }
        }
        let table_end = match fo_opt {
            Some(fo) => fo.checked_add(4 * (count + 1)),
            None => None,
        };
        let fo: u64 = match table_end {
            Some(te) => {
                if te > len as u64 {
                    return Err(
                        EngineError::MpqDecompression(
                            String::from_str("sector offset table truncated"),
                        ),
                    );
                }
                fo_opt.unwrap()
            },
            None => {
                return Err(
                    EngineError::MpqDecompression(
                        String::from_str("sector offset table truncated"),
                    ),
                );
            },
        };
        let entries = (count + 1) as usize;
        let mut offsets: Vec<u32> = Vec::with_capacity(entries);
        let mut j: usize = 0;
        while j < entries
            invariant
                len == data@.len(),
                data@ == self.data@,
                fo + 4 * entries <= len,
                j <= entries,
                offsets@.len() == j,
                forall|a: int|
                    0 <= a < j ==> offsets@[a] == #[trigger] table_words(
                        data@,
                        fo as int,
                        entries as nat,
                    )[a],
            decreases entries - j,
        {
            offsets.push(read_u32_le(data, fo as usize + j * 4));
            j = j + 1;
        }
        proof {
            assert(offsets@ =~= table_words(data@, fo as int, entries as nat));
        }
        let mut file_key: u32 = 0;
        if is_encrypted {
            file_key = self.compute_file_key(name, block);
            decrypt_block(&mut offsets, file_key.wrapping_sub(1), &self.crypto_table);
            proof {
                lemma_decrypt_len(
                    table_words(data@, fo as int, entries as nat),
                    u32_specs::wrapping_sub(file_key, 1),
                    CIPHER_SEED2,
                    mpq_crypto_table(),
                );
            }
        }
        let ghost offs = offsets@;
        let ghost key = spec_file_key(name.spec_bytes(), *block);

        // Extract each sector.
        let mut output: Vec<u8> = Vec::new();
        let mut i: u64 = 0;
        while i < count
            invariant
                len == data@.len(),
                data@ == self.data@,
                self.crypto_table@ == mpq_crypto_table(),
                ss == self.header.sector_size,
                ss > 0,
                fs == block.file_size,
                count as int == (fs as int + ss as int - 1) / (ss as int),
                count <= fs,
                fo + 4 * (count + 1) <= len,
                offsets@ == offs,
                offs.len() == count + 1,
                is_encrypted ==> file_key == key,
                i <= count,
                spec_extract(self.data@, self.header, *block, name.spec_bytes()) == spec_sectors(
                    data@,
                    fo as int,
                    offs,
                    i as int,
                    count as int,
                    ss as int,
                    *block,
                    is_encrypted,
                    key,
                    output@,
                ),
            decreases count - i,
        {
            let bytes = match self.read_sector(
                block,
                fo,
                &offsets,
                i,
                count,
                is_encrypted,
                file_key,
                Ghost(key),
            ) {
                Ok(v) => v,
                Err(e) => return Err(e),
            };
            crate::section::append_bytes(&mut output, bytes.as_slice());
            i = i + 1;
        }
        output.truncate(fs as usize);
        Ok(output)
    }

    /// The bytes that sector `i` of a file contributes.
    fn read_sector(
        &self,
        block: &BlockEntry,
        fo: u64,
        offsets: &Vec<u32>,
        i: u64,
        count: u64,
        is_encrypted: bool,
        file_key: u32,
        Ghost(key): Ghost<u32>,
    ) -> (r: Result<Vec<u8>, EngineError>)
        requires
            self.header.sector_size > 0,
            count as int == (block.file_size as int + self.header.sector_size as int - 1) / (
            self.header.sector_size as int),
            i < count,
            offsets@.len() == count + 1,
            fo <= self.data@.len(),
            is_encrypted ==> file_key == key,
        ensures
            match spec_sector_bytes(
                self.data@,
                fo as int,
                offsets@,
                i as int,
                count as int,
                self.header.sector_size as int,
                *block,
                is_encrypted,
                key,
            ) {
                Ok(v) => r matches Ok(w) && w@ == v,
                Err(e) => r matches Err(x) && x@ == e,
            },
    {
        proof {
            use_type_invariant(self);
            lemma_sector_count(block.file_size as int, self.header.sector_size as int, i as int);
        }
        let data = self.data.as_slice();
        let len = data.len();
        let ss = self.header.sector_size as u64;
        let fs = block.file_size as u64;
        let is_compressed = block.flags & (FILE_IMPLODE | FILE_COMPRESS) != 0;
        let sector_start = fo.checked_add(offsets[i as usize] as u64);
        let sector_end = fo.checked_add(offsets[(i + 1) as usize] as u64);
        let (start, end) = match (sector_start, sector_end) {
            (Some(st), Some(en)) => {
                if en > len as u64 || st > en {
                    return Err(
                        EngineError::MpqDecompression(String::from_str("sector data out of bounds")),
                    );
                }
                (st as usize, en as usize)
            },
            _ => {
                return Err(
                    EngineError::MpqDecompression(String::from_str("sector data out of bounds")),
                );
            },
        };
        let raw = &data[start..end];
        let sector_data: Vec<u8> = if is_encrypted {
            decrypt_sector(raw, file_key.wrapping_add(i as u32), &self.crypto_table)
        } else {
            let mut v: Vec<u8> = Vec::new();
            crate::section::append_bytes(&mut v, raw);
            v
        };
        let expected_size: u64 = if i < count - 1 {
            ss
        } else {
            fs - i * ss
        };
        if (sector_data.len() as u64) < expected_size && is_compressed {
            decompress_sector(sector_data.as_slice(), expected_size as usize, block.flags)
        } else {
            let kept = if expected_size < sector_data.len() as u64 {
                expected_size as usize
            } else {
                sector_data.len()
            };
            let mut out: Vec<u8> = Vec::new();
            crate::section::append_bytes(&mut out, &sector_data.as_slice()[0..kept]);
            proof {
                assert(sector_data@.subrange(0, kept as int) =~= sector_data@.take(kept as int));
            }
            Ok(out)
        }
    }

    /// The file names in the archive's `(listfile)`, if it has one: the
    /// non-empty trimmed lines of its text (decoded leniently as UTF-8).
    pub fn list_files(&self) -> (r: Option<Vec<String>>)
        ensures
            match spec_read_file(self@, "(listfile)"@) {
                Ok(bytes) => r matches Some(v) && texts(v@) == nonblank_lines(lossy_utf8(bytes)),
                Err(_) => r is None,
            },
    {
        let data = match self.read_file("(listfile)") {
            Ok(d) => d,
            Err(_) => return None,
        };
        let text = utf8_lossy_string(data.as_slice());
        Some(nonblank_lines_of(text.as_str()))
    }

    /// Read a file from the archive by its path (e.g., `"staredit\\scenario.chk"`).
    pub fn read_file(&self, name: &str) -> (r: Result<Vec<u8>, EngineError>)
        ensures
            match spec_read_file(self@, name@) {
                Ok(v) => r matches Ok(w) && w@ == v,
                Err(e) => r matches Err(x) && x@ == e,
            },
    {
        proof {
            use_type_invariant(self);
            reveal(parts_of);
        }
        let hash_index = match self.find_hash_entry(name) {
            Ok(i) => i,
            Err(e) => return Err(e),
        };
        let block_index = self.hash_table[hash_index].block_index as usize;

        if block_index >= self.block_table.len() {
            return Err(EngineError::MpqFileNotFound { name: String::from_str(name) });
        }

        let block = &self.block_table[block_index];
        if block.flags & FILE_EXISTS == 0 {
            return Err(EngineError::MpqFileNotFound { name: String::from_str(name) });
        }

        self.extract_file(block, name)
    }
}

} // verus!
