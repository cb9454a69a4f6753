use std::io::Write;

use bw_replay::dat::{
    parse_flingy_dat, parse_units_dat_flingy, GameData, FLINGY_ACCEL_OFFSET, FLINGY_COUNT,
    FLINGY_DAT_MIN_SIZE, FLINGY_MOVE_TYPE_OFFSET, FLINGY_TOP_SPEED_OFFSET,
    FLINGY_TURN_RATE_OFFSET, UNIT_TYPE_COUNT,
};
use bw_replay::error::EngineError;
use bw_replay::grp::Grp;
use bw_replay::mpq::{
    build_crypto_table, decrypt_block, hash_string, MpqArchive, BLOCK_TABLE_KEY, FILE_EXISTS,
    HASH_ENTRY_EMPTY, HASH_TABLE_KEY, MPQ_MAGIC,
};
use bw_replay::selection::{SelectionState, MAX_SELECTION};
use bw_replay::tbl::StringTable;
use bw_replay::text::nonblank_lines_of;
use bw_replay::tileset::{
    parse_cv5, parse_vf4, Palette, PaletteColor, Tileset, TilesetData, Vr4Data, Vx4Data,
    CV5_ENTRY_SIZE, VF4_ENTRY_SIZE, VR4_ENTRY_SIZE, VX4_ENTRY_SIZE, WPE_SIZE,
};

// ---------------------------------------------------------------------------
// DAT
// ---------------------------------------------------------------------------

fn build_flingy_dat() -> Vec<u8> {
    let mut data = vec![0u8; FLINGY_DAT_MIN_SIZE];
    // Flingy 0 (Marine): top_speed=4*256=1024, accel=1*256=256, halt=0, turn=20
    let i = 0;
    let speed: i32 = 1024;
    data[FLINGY_TOP_SPEED_OFFSET + i * 4..FLINGY_TOP_SPEED_OFFSET + i * 4 + 4]
        .copy_from_slice(&speed.to_le_bytes());
    let accel: i16 = 256;
    data[FLINGY_ACCEL_OFFSET + i * 2..FLINGY_ACCEL_OFFSET + i * 2 + 2]
        .copy_from_slice(&accel.to_le_bytes());
    data[FLINGY_TURN_RATE_OFFSET + i] = 20;
    data[FLINGY_MOVE_TYPE_OFFSET + i] = 0; // ground
    data
}

fn build_units_dat() -> Vec<u8> {
    let mut data = vec![0u8; UNIT_TYPE_COUNT];
    data[0] = 0; // Marine (unit 0) -> flingy 0
    data[7] = 0; // SCV (unit 7) -> flingy 0 (simplified)
    data
}

#[test]
fn test_parse_flingy_dat() {
    let data = build_flingy_dat();
    let types = parse_flingy_dat(&data).unwrap();
    assert_eq!(types.len(), FLINGY_COUNT);
    assert_eq!(types[0].top_speed, 1024);
    assert_eq!(types[0].acceleration, 256);
    assert_eq!(types[0].turn_rate, 20);
    assert_eq!(types[0].movement_type, 0);
}

#[test]
fn test_parse_flingy_dat_too_short() {
    let data = vec![0u8; 100];
    assert!(parse_flingy_dat(&data).is_err());
}

#[test]
fn test_parse_units_dat_flingy() {
    let data = build_units_dat();
    let flingy_ids = parse_units_dat_flingy(&data).unwrap();
    assert_eq!(flingy_ids.len(), UNIT_TYPE_COUNT);
    assert_eq!(flingy_ids[0], 0);
}

#[test]
fn test_game_data_from_dat() {
    let flingy = build_flingy_dat();
    let units = build_units_dat();
    let gd = GameData::from_dat(&units, &flingy).unwrap();
    let ft = gd.flingy_for_unit(0).unwrap();
    assert_eq!(ft.top_speed, 1024);
}

#[test]
fn test_flingy_for_unknown_unit() {
    let flingy = build_flingy_dat();
    let units = build_units_dat();
    let gd = GameData::from_dat(&units, &flingy).unwrap();
    assert!(gd.flingy_for_unit(999).is_none());
}

#[test]
fn dat_errors_name_the_file_and_sizes() {
    match parse_flingy_dat(&[0u8; 100]) {
        Err(EngineError::DatTooShort { file, expected, actual }) => {
            assert_eq!(file, "flingy.dat");
            assert_eq!(expected, 3135);
            assert_eq!(actual, 100);
        }
        other => panic!("unexpected {:?}", other),
    }
    match parse_units_dat_flingy(&[0u8; 10]) {
        Err(EngineError::DatTooShort { file, expected, actual }) => {
            assert_eq!(file, "units.dat");
            assert_eq!(expected, 228);
            assert_eq!(actual, 10);
        }
        other => panic!("unexpected {:?}", other),
    }
    // flingy.dat is checked first.
    match GameData::from_dat(&[0u8; 10], &[0u8; 10]) {
        Err(EngineError::DatTooShort { file, .. }) => assert_eq!(file, "flingy.dat"),
        other => panic!("unexpected {:?}", other.is_ok()),
    }
}

#[test]
fn dat_reads_parallel_arrays_and_signed_values() {
    let mut data = build_flingy_dat();
    let halt: i32 = -5;
    data[1672 + 3 * 4..1672 + 3 * 4 + 4].copy_from_slice(&halt.to_le_bytes());
    data[FLINGY_MOVE_TYPE_OFFSET + 208] = 2;
    let types = parse_flingy_dat(&data).unwrap();
    assert_eq!(types[3].halt_distance, -5);
    assert_eq!(types[208].movement_type, 2);
    let mut units = build_units_dat();
    units[5] = 250; // flingy id out of range
    let gd = GameData::from_dat(&units, &data).unwrap();
    assert!(gd.flingy_for_unit(5).is_none());
    assert_eq!(gd.flingy_for_unit(7).unwrap().turn_rate, 20);
}

// ---------------------------------------------------------------------------
// GRP
// ---------------------------------------------------------------------------

fn build_grp(width: u8, height: u8, rle_rows: &[Vec<u8>]) -> Vec<u8> {
    let frame_count: u16 = 1;
    let max_w = width as u16;
    let max_h = height as u16;
    let mut data = Vec::new();
    data.extend_from_slice(&frame_count.to_le_bytes());
    data.extend_from_slice(&max_w.to_le_bytes());
    data.extend_from_slice(&max_h.to_le_bytes());
    let frame_offset = 6 + 4;
    data.extend_from_slice(&(frame_offset as u32).to_le_bytes());
    data.push(0);
    data.push(0);
    data.push(width);
    data.push(height);
    let row_data_start = 4 + height as usize * 2;
    let mut row_offset = row_data_start;
    for rle_row in rle_rows {
        data.extend_from_slice(&(row_offset as u16).to_le_bytes());
        row_offset += rle_row.len();
    }
    for rle_row in rle_rows {
        data.extend_from_slice(rle_row);
    }
    data
}

#[test]
fn test_parse_grp_transparent_frame() {
    let row = vec![0x84];
    let grp_data = build_grp(4, 2, &[row.clone(), row]);
    let grp = Grp::from_bytes(&grp_data).unwrap();
    assert_eq!(grp.frame_count(), 1);
    assert_eq!(grp.width, 4);
    assert_eq!(grp.height, 2);
    assert_eq!(grp.frames[0].pixels, vec![0; 8]);
}

#[test]
fn test_parse_grp_color_run() {
    let row = vec![0x43, 5];
    let grp_data = build_grp(3, 1, &[row]);
    let grp = Grp::from_bytes(&grp_data).unwrap();
    assert_eq!(grp.frames[0].pixels, vec![5, 5, 5]);
}

#[test]
fn test_parse_grp_literal_run() {
    let row = vec![3, 10, 20, 30];
    let grp_data = build_grp(3, 1, &[row]);
    let grp = Grp::from_bytes(&grp_data).unwrap();
    assert_eq!(grp.frames[0].pixels, vec![10, 20, 30]);
}

#[test]
fn test_parse_grp_mixed_rle() {
    let row = vec![0x82, 0x43, 7];
    let grp_data = build_grp(5, 1, &[row]);
    let grp = Grp::from_bytes(&grp_data).unwrap();
    assert_eq!(grp.frames[0].pixels, vec![0, 0, 7, 7, 7]);
}

#[test]
fn test_parse_grp_too_short() {
    assert!(Grp::from_bytes(&[0; 4]).is_err());
}

#[test]
fn test_parse_grp_empty_frame() {
    let frame_offset: u32 = 10;
    let mut data = Vec::new();
    data.extend_from_slice(&1u16.to_le_bytes());
    data.extend_from_slice(&0u16.to_le_bytes());
    data.extend_from_slice(&0u16.to_le_bytes());
    data.extend_from_slice(&frame_offset.to_le_bytes());
    data.extend_from_slice(&[0, 0, 0, 0]);
    data.extend_from_slice(&[0, 0, 0, 0]);
    let grp = Grp::from_bytes(&data).unwrap();
    assert_eq!(grp.frames[0].pixels.len(), 0);
}

#[test]
fn grp_runs_are_cut_at_the_row_end_and_rows_keep_their_width() {
    // A colour run of 5 in a row 3 wide, then a literal run past the end.
    let grp_data = build_grp(3, 2, &[vec![0x45, 9], vec![5, 1, 2]]);
    let grp = Grp::from_bytes(&grp_data).unwrap();
    let f = &grp.frames[0];
    assert_eq!(f.pixels.len(), f.width as usize * f.height as usize);
    assert_eq!(f.pixels, vec![9, 9, 9, 1, 2, 0]);
}

#[test]
fn grp_transparent_bit_wins_over_colour_bit() {
    // 0xC3 has both bits: a transparent run of 0x43 pixels.
    let grp_data = build_grp(2, 1, &[vec![0xC3, 5]]);
    let grp = Grp::from_bytes(&grp_data).unwrap();
    assert_eq!(grp.frames[0].pixels, vec![0, 0]);
}

#[test]
fn grp_colour_run_without_colour_byte_ends_the_row() {
    let grp_data = build_grp(4, 1, &[vec![0x01, 6, 0x43]]);
    let grp = Grp::from_bytes(&grp_data).unwrap();
    assert_eq!(grp.frames[0].pixels, vec![6, 0, 0, 0]);
}

#[test]
fn grp_error_messages() {
    match Grp::from_bytes(&[0; 4]) {
        Err(EngineError::InvalidGrp(m)) => assert_eq!(m, "data too short"),
        _ => panic!("expected InvalidGrp"),
    }
    // 2 frames announced, no room for their offsets.
    match Grp::from_bytes(&[2, 0, 0, 0, 0, 0, 1, 2]) {
        Err(EngineError::InvalidGrp(m)) => {
            assert_eq!(m, "expected 14 bytes for frame offsets, got 8")
        }
        _ => panic!("expected InvalidGrp"),
    }
    // Frame offset past the end.
    let mut data = vec![1, 0, 0, 0, 0, 0];
    data.extend_from_slice(&100u32.to_le_bytes());
    match Grp::from_bytes(&data) {
        Err(EngineError::InvalidGrp(m)) => assert_eq!(m, "frame 0 offset 100 out of bounds"),
        _ => panic!("expected InvalidGrp"),
    }
    // Frame header truncated: offset leaves 4 bytes but a header needs 8.
    let mut data = vec![1, 0, 0, 0, 0, 0];
    data.extend_from_slice(&10u32.to_le_bytes());
    data.extend_from_slice(&[0, 0, 2, 2]);
    match Grp::from_bytes(&data) {
        Err(EngineError::InvalidGrp(m)) => assert_eq!(m, "frame header truncated"),
        _ => panic!("expected InvalidGrp"),
    }
    // Row offsets truncated: height 3 needs 6 bytes of row offsets.
    let mut data = vec![1, 0, 0, 0, 0, 0];
    data.extend_from_slice(&10u32.to_le_bytes());
    data.extend_from_slice(&[0, 0, 2, 3, 0, 0, 0, 0]);
    match Grp::from_bytes(&data) {
        Err(EngineError::InvalidGrp(m)) => assert_eq!(m, "frame row offsets truncated"),
        _ => panic!("expected InvalidGrp"),
    }
}

#[test]
fn grp_row_offset_past_end_stays_transparent() {
    let mut data = build_grp(2, 1, &[vec![0x42, 3]]);
    // Point the only row far past the end of the file.
    data[14] = 0xFF;
    data[15] = 0x7F;
    let grp = Grp::from_bytes(&data).unwrap();
    assert_eq!(grp.frames[0].pixels, vec![0, 0]);
}

// ---------------------------------------------------------------------------
// MPQ
// ---------------------------------------------------------------------------

#[test]
fn test_crypto_table_deterministic() {
    let t1 = build_crypto_table();
    let t2 = build_crypto_table();
    assert_eq!(t1, t2);
    assert_ne!(t1[0], 0);
}

#[test]
fn test_hash_string_known_values() {
    let ct = build_crypto_table();
    let key = hash_string("(hash table)", 3, &ct);
    assert_eq!(key, HASH_TABLE_KEY);
    let key = hash_string("(block table)", 3, &ct);
    assert_eq!(key, BLOCK_TABLE_KEY);
}

#[test]
fn test_hash_string_case_insensitive() {
    let ct = build_crypto_table();
    let h1 = hash_string("staredit\\scenario.chk", 1, &ct);
    let h2 = hash_string("STAREDIT\\SCENARIO.CHK", 1, &ct);
    assert_eq!(h1, h2);
}

#[test]
fn test_decrypt_roundtrip() {
    let ct = build_crypto_table();
    let plain: Vec<u32> = vec![0xDEAD_BEEF, 0xCAFE_BABE, 0x1234_5678, 0x0000_0001];
    let mut buf = plain.clone();
    decrypt_block(&mut buf, 42, &ct);
    assert_ne!(buf, plain);
}

#[test]
fn test_read_header_no_magic() {
    let data = vec![0u8; 64];
    let result = MpqArchive::from_bytes(data);
    assert!(result.is_err());
}

/// Build a minimal valid MPQ archive with one uncompressed file.
fn build_test_mpq(file_name: &str, file_data: &[u8]) -> Vec<u8> {
    build_mpq(file_name, file_data, file_data.len() as u32, FILE_EXISTS)
}

/// Build a minimal MPQ archive with one file stored as `file_data`, with the
/// given file size and flags in its block entry.
fn build_mpq(file_name: &str, file_data: &[u8], file_size: u32, flags: u32) -> Vec<u8> {
    let ct = build_crypto_table();
    let hash_table_count = 16u32;
    let block_table_count = 1u32;
    let file_offset = 32u32;
    let hash_table_offset = file_offset + file_data.len() as u32;
    let block_table_offset = hash_table_offset + hash_table_count * 16;
    let archive_size = block_table_offset + block_table_count * 16;
    let mut buf = vec![0u8; archive_size as usize];
    buf[0..4].copy_from_slice(&MPQ_MAGIC.to_le_bytes());
    buf[4..8].copy_from_slice(&32u32.to_le_bytes());
    buf[8..12].copy_from_slice(&archive_size.to_le_bytes());
    buf[12..14].copy_from_slice(&0u16.to_le_bytes());
    buf[14..16].copy_from_slice(&3u16.to_le_bytes());
    buf[16..20].copy_from_slice(&hash_table_offset.to_le_bytes());
    buf[20..24].copy_from_slice(&block_table_offset.to_le_bytes());
    buf[24..28].copy_from_slice(&hash_table_count.to_le_bytes());
    buf[28..32].copy_from_slice(&block_table_count.to_le_bytes());
    buf[file_offset as usize..file_offset as usize + file_data.len()].copy_from_slice(file_data);

    let mut hash_buf = vec![0u32; hash_table_count as usize * 4];
    for i in 0..hash_table_count as usize {
        let base = i * 4;
        hash_buf[base] = HASH_ENTRY_EMPTY;
        hash_buf[base + 1] = HASH_ENTRY_EMPTY;
        hash_buf[base + 2] = 0xFFFF_FFFF;
        hash_buf[base + 3] = HASH_ENTRY_EMPTY;
    }
    let name_hash = hash_string(file_name, 0, &ct) % hash_table_count;
    let hash_a = hash_string(file_name, 1, &ct);
    let hash_b = hash_string(file_name, 2, &ct);
    let slot = name_hash as usize * 4;
    hash_buf[slot] = hash_a;
    hash_buf[slot + 1] = hash_b;
    hash_buf[slot + 2] = 0;
    hash_buf[slot + 3] = 0;
    encrypt_block(&mut hash_buf, HASH_TABLE_KEY, &ct);
    for (i, &val) in hash_buf.iter().enumerate() {
        let off = hash_table_offset as usize + i * 4;
        buf[off..off + 4].copy_from_slice(&val.to_le_bytes());
    }

    let mut block_buf = vec![0u32; 4];
    block_buf[0] = file_offset;
    block_buf[1] = file_data.len() as u32;
    block_buf[2] = file_size;
    block_buf[3] = flags;
    encrypt_block(&mut block_buf, BLOCK_TABLE_KEY, &ct);
    for (i, &val) in block_buf.iter().enumerate() {
        let off = block_table_offset as usize + i * 4;
        buf[off..off + 4].copy_from_slice(&val.to_le_bytes());
    }
    buf
}

/// Encrypt helper (inverse of decrypt) for test MPQ construction.
fn encrypt_block(data: &mut [u32], key: u32, crypto_table: &[u32]) {
    let mut seed1 = key;
    let mut seed2: u32 = 0xEEEE_EEEE;
    for val in data.iter_mut() {
        seed2 = seed2.wrapping_add(crypto_table[(0x400 + (seed1 & 0xFF)) as usize]);
        let plain = *val;
        *val = plain ^ seed1.wrapping_add(seed2);
        seed1 = (!seed1 << 0x15).wrapping_add(0x1111_1111) | (seed1 >> 0x0B);
        seed2 = plain.wrapping_add(seed2).wrapping_add(seed2 << 5).wrapping_add(3);
    }
}

#[test]
fn test_encrypt_decrypt_roundtrip() {
    let ct = build_crypto_table();
    let plain: Vec<u32> = vec![0xDEAD_BEEF, 0xCAFE_BABE, 0x1234_5678, 0x0000_0001];
    let mut buf = plain.clone();
    encrypt_block(&mut buf, 42, &ct);
    assert_ne!(buf, plain);
    decrypt_block(&mut buf, 42, &ct);
    assert_eq!(buf, plain);
}

#[test]
fn test_read_file_from_test_mpq() {
    let file_data = b"Hello, StarCraft!";
    let mpq_bytes = build_test_mpq("test\\hello.txt", file_data);
    let archive = MpqArchive::from_bytes(mpq_bytes).expect("should parse test MPQ");
    let result = archive.read_file("test\\hello.txt").expect("should find file");
    assert_eq!(result, file_data);
}

#[test]
fn test_file_not_found() {
    let mpq_bytes = build_test_mpq("test\\hello.txt", b"data");
    let archive = MpqArchive::from_bytes(mpq_bytes).unwrap();
    assert!(archive.read_file("nonexistent\\file.dat").is_err());
}

#[test]
fn test_contains() {
    let mpq_bytes = build_test_mpq("test\\hello.txt", b"data");
    let archive = MpqArchive::from_bytes(mpq_bytes).unwrap();
    assert!(archive.contains("test\\hello.txt"));
    assert!(!archive.contains("nope"));
}

#[test]
fn mpq_names_are_case_insensitive() {
    let mpq_bytes = build_test_mpq("test\\hello.txt", b"data");
    let archive = MpqArchive::from_bytes(mpq_bytes).unwrap();
    assert!(archive.contains("TEST\\HELLO.TXT"));
    assert_eq!(archive.read_file("Test\\Hello.txt").unwrap(), b"data");
}

#[test]
fn mpq_not_found_names_the_file() {
    let mpq_bytes = build_test_mpq("test\\hello.txt", b"data");
    let archive = MpqArchive::from_bytes(mpq_bytes).unwrap();
    match archive.read_file("missing.dat") {
        Err(EngineError::MpqFileNotFound { name }) => assert_eq!(name, "missing.dat"),
        _ => panic!("expected MpqFileNotFound"),
    }
    assert!(archive.list_files().is_none());
}

#[test]
fn mpq_header_errors() {
    match MpqArchive::from_bytes(vec![0u8; 64]) {
        Err(EngineError::MpqInvalidHeader(_)) => {}
        _ => panic!("expected MpqInvalidHeader"),
    }
    let mut bytes = build_test_mpq("a", b"x");
    bytes[12] = 2; // format version 2
    match MpqArchive::from_bytes(bytes) {
        Err(EngineError::MpqInvalidHeader(m)) => {
            assert_eq!(m, "unsupported MPQ format version 2")
        }
        _ => panic!("expected MpqInvalidHeader"),
    }
}

#[test]
fn mpq_list_files_gives_trimmed_nonblank_lines() {
    let listing = b"units\\marine.grp\r\n  (listfile) \n\n\tscenario.chk";
    let mpq_bytes = build_test_mpq("(listfile)", listing);
    let archive = MpqArchive::from_bytes(mpq_bytes).unwrap();
    let names = archive.list_files().unwrap();
    assert_eq!(names, vec!["units\\marine.grp", "(listfile)", "scenario.chk"]);
}

/// A compressed file of one sector: the sector offset table, then the sector.
fn one_sector(sector: &[u8]) -> Vec<u8> {
    let mut stored = Vec::new();
    stored.extend_from_slice(&8u32.to_le_bytes());
    stored.extend_from_slice(&(8 + sector.len() as u32).to_le_bytes());
    stored.extend_from_slice(sector);
    stored
}

#[test]
fn mpq_reads_zlib_sectors() {
    let text = b"zerg rush kekeke zerg rush kekeke zerg rush kekeke";
    let mut sector = vec![0x02u8];
    sector.extend_from_slice(&zlib(text));
    assert!(sector.len() < text.len());
    let bytes = build_mpq("rush.txt", &one_sector(&sector), text.len() as u32, FILE_EXISTS | 0x200);
    let archive = MpqArchive::from_bytes(bytes).unwrap();
    assert_eq!(archive.read_file("rush.txt").unwrap(), text);
}

#[test]
fn mpq_refuses_bzip2_sectors() {
    let bytes = build_mpq("b.bin", &one_sector(&[0x10, 1, 2, 3]), 100, FILE_EXISTS | 0x200);
    let archive = MpqArchive::from_bytes(bytes).unwrap();
    match archive.read_file("b.bin") {
        Err(EngineError::MpqDecompression(m)) => assert_eq!(m, "bzip2 compression not supported"),
        _ => panic!("expected MpqDecompression"),
    }
}

#[test]
fn mpq_files_without_exists_flag_are_not_found() {
    let bytes = build_mpq("gone.txt", b"data", 4, 0);
    let archive = MpqArchive::from_bytes(bytes).unwrap();
    assert!(archive.contains("gone.txt"));
    assert!(matches!(archive.read_file("gone.txt"), Err(EngineError::MpqFileNotFound { .. })));
}

fn zlib(data: &[u8]) -> Vec<u8> {
    let mut e = flate2::write::ZlibEncoder::new(Vec::new(), flate2::Compression::default());
    e.write_all(data).unwrap();
    e.finish().unwrap()
}

#[test]
fn mpq_header_may_follow_a_stub() {
    let mut bytes = vec![0xAAu8; 512];
    let inner = build_test_mpq("x.txt", b"stub ok");
    bytes.extend_from_slice(&inner);
    // Offsets in the header are relative to the header itself.
    let archive = MpqArchive::from_bytes(bytes).unwrap();
    assert_eq!(archive.read_file("x.txt").unwrap(), b"stub ok");
}

// ---------------------------------------------------------------------------
// Selection
// ---------------------------------------------------------------------------

#[test]
fn test_set_selection() {
    let mut sel = SelectionState::default();
    sel.set_selection(0, &[1, 2, 3]);
    assert_eq!(sel.selected_tags(0), &[1, 2, 3]);
}

#[test]
fn test_add_to_selection() {
    let mut sel = SelectionState::default();
    sel.set_selection(0, &[1, 2]);
    sel.add_to_selection(0, &[3, 4]);
    assert_eq!(sel.selected_tags(0), &[1, 2, 3, 4]);
}

#[test]
fn test_add_no_duplicates() {
    let mut sel = SelectionState::default();
    sel.set_selection(0, &[1, 2]);
    sel.add_to_selection(0, &[2, 3]);
    assert_eq!(sel.selected_tags(0), &[1, 2, 3]);
}

#[test]
fn test_remove_from_selection() {
    let mut sel = SelectionState::default();
    sel.set_selection(0, &[1, 2, 3, 4]);
    sel.remove_from_selection(0, &[2, 4]);
    assert_eq!(sel.selected_tags(0), &[1, 3]);
}

#[test]
fn test_hotkey_assign_recall() {
    let mut sel = SelectionState::default();
    sel.set_selection(0, &[10, 20, 30]);
    sel.assign_hotkey(0, 1);
    sel.set_selection(0, &[99]);
    assert_eq!(sel.selected_tags(0), &[99]);
    sel.recall_hotkey(0, 1);
    assert_eq!(sel.selected_tags(0), &[10, 20, 30]);
}

#[test]
fn test_max_selection() {
    let mut sel = SelectionState::default();
    let tags: Vec<u16> = (0..20).collect();
    sel.set_selection(0, &tags);
    assert_eq!(sel.selected_tags(0).len(), MAX_SELECTION);
}

#[test]
fn test_invalid_player() {
    let sel = SelectionState::default();
    assert_eq!(sel.selected_tags(99), &[] as &[u16]);
}

#[test]
fn selection_add_stops_at_twelve_and_players_are_separate() {
    let mut sel = SelectionState::default();
    let tags: Vec<u16> = (0..11).collect();
    sel.set_selection(2, &tags);
    sel.add_to_selection(2, &[50, 51, 52]);
    assert_eq!(sel.selected_tags(2).len(), 12);
    assert_eq!(sel.selected_tags(2)[11], 50);
    assert_eq!(sel.selected_tags(0), &[] as &[u16]);
    // Out-of-range players and groups change nothing.
    sel.set_selection(8, &[1]);
    sel.assign_hotkey(2, 10);
    sel.recall_hotkey(2, 10);
    assert_eq!(sel.selected_tags(2).len(), 12);
    // Recalling a group never assigned empties the selection.
    sel.recall_hotkey(2, 3);
    assert_eq!(sel.selected_tags(2), &[] as &[u16]);
}

#[test]
fn selection_clone_keeps_everything() {
    let mut sel = SelectionState::default();
    sel.set_selection(1, &[7, 8]);
    sel.assign_hotkey(1, 4);
    let mut copy = sel.clone();
    copy.set_selection(1, &[]);
    copy.recall_hotkey(1, 4);
    assert_eq!(copy.selected_tags(1), &[7, 8]);
}

// ---------------------------------------------------------------------------
// TBL
// ---------------------------------------------------------------------------

fn build_tbl(strings: &[&[u8]]) -> Vec<u8> {
    let count = strings.len();
    let header_size = 2 + count * 2;
    let mut data = Vec::new();
    data.extend_from_slice(&(count as u16).to_le_bytes());
    let mut offset = header_size;
    let mut offsets = Vec::new();
    for s in strings {
        offsets.push(offset as u16);
        offset += s.len() + 1;
    }
    for o in &offsets {
        data.extend_from_slice(&o.to_le_bytes());
    }
    for s in strings {
        data.extend_from_slice(s);
        data.push(0);
    }
    data
}

#[test]
fn test_parse_tbl() {
    let tbl = build_tbl(&[b"Marine", b"Ghost", b"Vulture"]);
    let table = StringTable::from_bytes(&tbl).unwrap();
    assert_eq!(table.len(), 3);
    assert_eq!(table.get(0), Some("Marine"));
    assert_eq!(table.get(1), Some("Ghost"));
    assert_eq!(table.get(2), Some("Vulture"));
    assert_eq!(table.get(3), None);
}

#[test]
fn test_parse_tbl_empty() {
    let tbl = build_tbl(&[]);
    let table = StringTable::from_bytes(&tbl).unwrap();
    assert!(table.is_empty());
    assert_eq!(table.len(), 0);
}

#[test]
fn test_parse_tbl_strips_color_codes() {
    let tbl = build_tbl(&[b"\x03Marine"]);
    let table = StringTable::from_bytes(&tbl).unwrap();
    assert_eq!(table.get(0), Some("Marine"));
}

#[test]
fn test_parse_tbl_too_short() {
    assert!(StringTable::from_bytes(&[]).is_err());
    assert!(StringTable::from_bytes(&[1]).is_err());
}

#[test]
fn test_tbl_iterator() {
    let tbl = build_tbl(&[b"A", b"B", b"C"]);
    let table = StringTable::from_bytes(&tbl).unwrap();
    let names: Vec<&str> = table.iter();
    assert_eq!(names, vec!["A", "B", "C"]);
}

#[test]
fn tbl_keeps_tabs_and_newlines_and_decodes_euc_kr() {
    // "\xB8\xB6" is not UTF-8; in EUC-KR it is U+B9C8.
    let tbl = build_tbl(&[b"a\tb\nc\x01", b"\xB8\xB6", b"\x02\x05"]);
    let table = StringTable::from_bytes(&tbl).unwrap();
    assert_eq!(table.get(0), Some("a\tb\nc"));
    assert_eq!(table.get(1), Some("\u{B9C8}"));
    assert_eq!(table.get(2), Some(""));
}

#[test]
fn tbl_utf8_and_out_of_range_offsets() {
    let mut tbl = build_tbl(&["é".as_bytes(), b"x"]);
    // Second offset points past the end: empty string.
    tbl[4] = 0xFF;
    tbl[5] = 0x00;
    let table = StringTable::from_bytes(&tbl).unwrap();
    assert_eq!(table.get(0), Some("é"));
    assert_eq!(table.get(1), Some(""));
}

#[test]
fn tbl_error_messages() {
    match StringTable::from_bytes(&[1]) {
        Err(EngineError::InvalidTbl(m)) => assert_eq!(m, "data too short"),
        _ => panic!("expected InvalidTbl"),
    }
    match StringTable::from_bytes(&[3, 0, 1, 0]) {
        Err(EngineError::InvalidTbl(m)) => {
            assert_eq!(m, "expected at least 8 bytes for 3 offsets, got 4")
        }
        _ => panic!("expected InvalidTbl"),
    }
}

// ---------------------------------------------------------------------------
// Tilesets
// ---------------------------------------------------------------------------

#[test]
fn test_tileset_from_index() {
    assert_eq!(Tileset::from_index(0).unwrap(), Tileset::Badlands);
    assert_eq!(Tileset::from_index(4).unwrap(), Tileset::Jungle);
    assert_eq!(Tileset::from_index(7).unwrap(), Tileset::Twilight);
}

#[test]
fn test_tileset_modulo_8() {
    assert_eq!(Tileset::from_index(8).unwrap(), Tileset::Badlands);
    assert_eq!(Tileset::from_index(12).unwrap(), Tileset::Jungle);
    assert_eq!(Tileset::from_index(255).unwrap(), Tileset::Twilight);
}

#[test]
fn test_tileset_file_stems() {
    assert_eq!(Tileset::Badlands.file_stem(), "badlands");
    assert_eq!(Tileset::Arctic.file_stem(), "Ice");
    assert_eq!(Tileset::SpacePlatform.file_stem(), "platform");
}

#[test]
fn tileset_names() {
    assert_eq!(Tileset::SpacePlatform.name(), "Space Platform");
    assert_eq!(Tileset::from_index(3).unwrap().name(), "Ashworld");
}

fn build_cv5_entry(flags: u16, mega_tile_indices: &[u16; 16]) -> Vec<u8> {
    let mut entry = vec![0u8; CV5_ENTRY_SIZE];
    entry[2..4].copy_from_slice(&flags.to_le_bytes());
    for (j, &idx) in mega_tile_indices.iter().enumerate() {
        entry[20 + j * 2..22 + j * 2].copy_from_slice(&idx.to_le_bytes());
    }
    entry
}

fn build_vf4_entry(mini_tile_flags: &[u16; 16]) -> Vec<u8> {
    let mut entry = vec![0u8; VF4_ENTRY_SIZE];
    for (j, &f) in mini_tile_flags.iter().enumerate() {
        entry[j * 2..j * 2 + 2].copy_from_slice(&f.to_le_bytes());
    }
    entry
}

#[test]
fn test_parse_cv5_single_entry() {
    let indices: [u16; 16] = [10, 11, 12, 13, 14, 15, 16, 17, 18, 19, 20, 21, 22, 23, 24, 25];
    let data = build_cv5_entry(0x00FF, &indices);
    let entries = parse_cv5(&data).unwrap();
    assert_eq!(entries.len(), 1);
    assert_eq!(entries[0].flags, 0x00FF);
    assert_eq!(entries[0].mega_tile_indices, indices);
}

#[test]
fn test_parse_vf4_single_entry() {
    let flags: [u16; 16] = [1, 0, 1, 0, 0, 1, 0, 1, 1, 1, 0, 0, 0, 0, 1, 1];
    let data = build_vf4_entry(&flags);
    let entries = parse_vf4(&data).unwrap();
    assert_eq!(entries.len(), 1);
    assert_eq!(entries[0].mini_tile_flags, flags);
}

#[test]
fn test_parse_cv5_bad_size() {
    let data = vec![0u8; 51];
    assert!(parse_cv5(&data).is_err());
}

#[test]
fn test_parse_vf4_bad_size() {
    let data = vec![0u8; 33];
    assert!(parse_vf4(&data).is_err());
}

#[test]
fn test_megatile_index_lookup() {
    let mut indices = [0u16; 16];
    indices[5] = 42;
    let cv5_data = build_cv5_entry(0, &indices);
    let vf4_data = build_vf4_entry(&[0u16; 16]);
    let ts = TilesetData::from_bytes(&cv5_data, &vf4_data).unwrap();
    assert_eq!(ts.megatile_index(0x0005), Some(42));
}

#[test]
fn test_megatile_index_out_of_bounds() {
    let cv5_data = build_cv5_entry(0, &[0u16; 16]);
    let vf4_data = build_vf4_entry(&[0u16; 16]);
    let ts = TilesetData::from_bytes(&cv5_data, &vf4_data).unwrap();
    let tile_id = 1u16 << 4;
    assert_eq!(ts.megatile_index(tile_id), None);
}

#[test]
fn test_tile_id_encoding() {
    let raw: u16 = (3 << 4) | 7;
    assert_eq!((raw >> 4) & 0x7FF, 3);
    assert_eq!(raw & 0xF, 7);
}

#[test]
fn tileset_lookups_and_errors() {
    let mut flags = [0u16; 16];
    flags[15] = 0x1234;
    let mut data = build_cv5_entry(0x0007, &[0u16; 16]);
    data.extend_from_slice(&build_cv5_entry(0x0009, &[3u16; 16]));
    let ts = TilesetData::from_bytes(&data, &build_vf4_entry(&flags)).unwrap();
    assert_eq!(ts.cv5_flags(0x0010), 0x0009);
    assert_eq!(ts.cv5_flags(0x0020), 0);
    assert_eq!(ts.megatile_index(0x001F), Some(3));
    assert_eq!(ts.mini_tile_flags(0).unwrap()[15], 0x1234);
    match ts.mini_tile_flags(3) {
        Err(EngineError::MegatileLookupOutOfBounds { index, vf4_len }) => {
            assert_eq!(index, 3);
            assert_eq!(vf4_len, 1);
        }
        _ => panic!("expected MegatileLookupOutOfBounds"),
    }
    match TilesetData::from_bytes(&[0u8; 53], &[0u8; 33]) {
        Err(EngineError::TilesetDataTooShort { file, expected, actual }) => {
            assert_eq!(file, "cv5");
            assert_eq!(expected, 52);
            assert_eq!(actual, 1);
        }
        _ => panic!("expected TilesetDataTooShort"),
    }
    match TilesetData::from_bytes(&[0u8; 52], &[0u8; 33]) {
        Err(EngineError::TilesetDataTooShort { file, actual, .. }) => {
            assert_eq!(file, "vf4");
            assert_eq!(actual, 1);
        }
        _ => panic!("expected TilesetDataTooShort"),
    }
}

#[test]
fn test_parse_vx4() {
    let mut data = vec![0u8; VX4_ENTRY_SIZE];
    data[0..2].copy_from_slice(&84u16.to_le_bytes());
    data[2..4].copy_from_slice(&21u16.to_le_bytes());
    let vx4 = Vx4Data::from_bytes(&data).unwrap();
    assert_eq!(vx4.len(), 1);
    let entry = vx4.get(0).unwrap();
    assert_eq!(entry.vr4_index(0), 42);
    assert!(!entry.is_flipped(0));
    assert_eq!(entry.vr4_index(1), 10);
    assert!(entry.is_flipped(1));
}

#[test]
fn test_parse_vx4_bad_size() {
    assert!(Vx4Data::from_bytes(&[0u8; 31]).is_err());
}

#[test]
fn test_parse_vr4() {
    let mut data = vec![0u8; VR4_ENTRY_SIZE];
    data[2 * 8 + 3] = 42;
    let vr4 = Vr4Data::from_bytes(&data).unwrap();
    assert_eq!(vr4.len(), 1);
    let entry = vr4.get(0).unwrap();
    assert_eq!(entry.pixel(3, 2), 42);
    assert_eq!(entry.pixel(0, 0), 0);
}

#[test]
fn test_vr4_row() {
    let mut data = vec![0u8; VR4_ENTRY_SIZE];
    for i in 0..8 {
        data[3 * 8 + i] = i as u8 + 1;
    }
    let vr4 = Vr4Data::from_bytes(&data).unwrap();
    assert_eq!(vr4.get(0).unwrap().row(3), &[1, 2, 3, 4, 5, 6, 7, 8]);
}

#[test]
fn test_parse_vr4_bad_size() {
    assert!(Vr4Data::from_bytes(&[0u8; 63]).is_err());
}

#[test]
fn vx4_vr4_empty_and_missing_entries() {
    let vx4 = Vx4Data::from_bytes(&[]).unwrap();
    assert!(vx4.is_empty());
    assert!(vx4.get(0).is_none());
    let vr4 = Vr4Data::from_bytes(&[0u8; 128]).unwrap();
    assert!(!vr4.is_empty());
    assert!(vr4.get(2).is_none());
    match Vr4Data::from_bytes(&[0u8; 65]) {
        Err(EngineError::TilesetDataTooShort { file, expected, actual }) => {
            assert_eq!(file, "vr4");
            assert_eq!(expected, 64);
            assert_eq!(actual, 1);
        }
        _ => panic!("expected TilesetDataTooShort"),
    }
}

#[test]
fn test_parse_wpe() {
    let mut data = vec![0u8; WPE_SIZE];
    data[0] = 255;
    data[5] = 255;
    data[255 * 4 + 2] = 255;
    let palette = Palette::from_bytes(&data).unwrap();
    assert_eq!(palette.color(0), PaletteColor { r: 255, g: 0, b: 0 });
    assert_eq!(palette.color(1), PaletteColor { r: 0, g: 255, b: 0 });
    assert_eq!(palette.color(255), PaletteColor { r: 0, g: 0, b: 255 });
}

#[test]
fn test_wpe_to_rgba() {
    let mut data = vec![0u8; WPE_SIZE];
    data[0] = 0xAA;
    data[1] = 0xBB;
    data[2] = 0xCC;
    let palette = Palette::from_bytes(&data).unwrap();
    assert_eq!(palette.to_rgba(0), 0xAABBCCFF);
}

#[test]
fn test_parse_wpe_too_short() {
    assert!(Palette::from_bytes(&[0u8; 100]).is_err());
}

#[test]
fn palette_default_colour_is_black() {
    assert_eq!(PaletteColor::default(), PaletteColor { r: 0, g: 0, b: 0 });
}

// ---------------------------------------------------------------------------
// Text lines
// ---------------------------------------------------------------------------

#[test]
fn nonblank_lines_split_trim_and_skip_blanks() {
    assert_eq!(nonblank_lines_of("a\r\n b \n\n\rc\r"), vec!["a", "b", "c"]);
    assert_eq!(nonblank_lines_of("\u{3000}x\u{00A0}\n"), vec!["x"]);
    assert!(nonblank_lines_of("").is_empty());
    assert!(nonblank_lines_of(" \n\t\n").is_empty());
}
