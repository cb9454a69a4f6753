use std::io::Write;

use bw_replay::analysis::{
    extract_build_order, player_action_counts, windowed_action_counts, BuildAction,
    BuildOrderEntry,
};
use bw_replay::command::{parse_commands, Command, GameCommand, HotkeyAction};
use bw_replay::error::ReplayError;
use bw_replay::format::{detect, Format};
use bw_replay::gamedata::{is_building, tech_name, unit_name, unit_race, upgrade_name};
use bw_replay::phases::{detect_phases, phase_at_frame, Phase};
use bw_replay::section::decompress_section;
use bw_replay::skill::{count_hotkeys, first_action_frame, SkillTier};
use bw_replay::{parse, Replay};
use flate2::write::ZlibEncoder;
use flate2::Compression;

fn make_cmd(frame: u32, player_id: u8, command: Command) -> GameCommand {
    GameCommand { frame, player_id, command }
}

// ---------------------------------------------------------------------------
// Build order and action counts
// ---------------------------------------------------------------------------

#[test]
fn test_extract_build_order() {
    let commands = vec![
        make_cmd(100, 0, Command::Select { unit_tags: vec![1] }),
        make_cmd(200, 0, Command::Build { order: 0, x: 10, y: 20, unit_type: 0x7D }),
        make_cmd(300, 0, Command::Train { unit_type: 0x25 }),
        make_cmd(400, 1, Command::Research { tech_type: 5 }),
        make_cmd(500, 0, Command::Stop { queued: false }),
    ];
    let bo = extract_build_order(&commands);
    assert_eq!(bo.len(), 3);
    assert!(matches!(bo[0].action, BuildAction::Build(0x7D)));
    assert_eq!(bo[0].player_id, 0);
    assert!(matches!(bo[1].action, BuildAction::Train(0x25)));
    assert!(matches!(bo[2].action, BuildAction::Research(5)));
    assert_eq!(bo[2].player_id, 1);
}

#[test]
fn build_order_keeps_stream_order_and_all_kinds() {
    let commands = vec![
        make_cmd(10, 1, Command::UnitMorph { unit_type: 103 }),
        make_cmd(20, 0, Command::BuildingMorph { unit_type: 132 }),
        make_cmd(30, 0, Command::Upgrade { upgrade_type: 27 }),
        make_cmd(40, 2, Command::TrainFighter),
        make_cmd(50, 2, Command::KeepAlive),
    ];
    let bo = extract_build_order(&commands);
    assert_eq!(bo.len(), 4);
    assert_eq!(bo[0].action, BuildAction::UnitMorph(103));
    assert_eq!(bo[1].action, BuildAction::BuildingMorph(132));
    assert_eq!(bo[2].action, BuildAction::Upgrade(27));
    assert_eq!(bo[3].action, BuildAction::TrainFighter);
    let frames: Vec<u32> = bo.iter().map(|e| e.frame).collect();
    assert_eq!(frames, vec![10, 20, 30, 40]);
}

#[test]
fn action_counts_per_player() {
    // The inputs of the APM scenario: player 0 has 2 meaningful actions and a
    // selection, player 1 one meaningful action.
    let commands = vec![
        make_cmd(100, 0, Command::Train { unit_type: 1 }),
        make_cmd(200, 0, Command::Build { order: 0, x: 0, y: 0, unit_type: 1 }),
        make_cmd(300, 0, Command::Select { unit_tags: vec![1] }),
        make_cmd(400, 1, Command::Train { unit_type: 1 }),
    ];
    let counts = player_action_counts(&commands);
    assert_eq!(counts.len(), 2);
    assert_eq!(counts[0].player_id, 0);
    assert_eq!(counts[0].meaningful, 2);
    assert_eq!(counts[1].player_id, 1);
    assert_eq!(counts[1].meaningful, 1);
}

#[test]
fn effective_counts_exclude_hotkey_recall() {
    let commands = vec![
        make_cmd(100, 0, Command::Hotkey { action: HotkeyAction::Assign, group: 1 }),
        make_cmd(200, 0, Command::Hotkey { action: HotkeyAction::Select, group: 1 }),
        make_cmd(300, 0, Command::Train { unit_type: 1 }),
    ];
    let counts = player_action_counts(&commands);
    assert_eq!(counts.len(), 1);
    assert_eq!(counts[0].meaningful, 3);
    assert_eq!(counts[0].effective, 2);
    assert!(counts[0].effective <= counts[0].meaningful);
}

#[test]
fn players_come_sorted_and_once() {
    let commands = vec![
        make_cmd(1, 7, Command::Stim),
        make_cmd(2, 2, Command::KeepAlive),
        make_cmd(3, 7, Command::Stim),
    ];
    let counts = player_action_counts(&commands);
    let ids: Vec<u8> = counts.iter().map(|c| c.player_id).collect();
    assert_eq!(ids, vec![2, 7]);
    assert_eq!(counts[0].meaningful, 0);
    assert_eq!(counts[1].meaningful, 2);
    assert!(player_action_counts(&[]).is_empty());
}

#[test]
fn windowed_counts_sample_every_step() {
    let commands = vec![
        make_cmd(5, 0, Command::Train { unit_type: 1 }),
        make_cmd(15, 0, Command::Train { unit_type: 1 }),
        make_cmd(15, 1, Command::Hotkey { action: HotkeyAction::Select, group: 0 }),
    ];
    let samples = windowed_action_counts(&commands, 20, 10, 10);
    // Frames 0, 10, 20; players 0 and 1 at each.
    assert_eq!(samples.len(), 6);
    let frames: Vec<u32> = samples.iter().map(|s| s.frame).collect();
    assert_eq!(frames, vec![0, 0, 10, 10, 20, 20]);
    // Window [0, 10) at frame 10: player 0's first Train.
    assert_eq!(samples[2].player_id, 0);
    assert_eq!(samples[2].meaningful, 1);
    // Window [10, 20) at frame 20: player 0's second Train; player 1's recall
    // is meaningful but not effective.
    assert_eq!(samples[4].meaningful, 1);
    assert_eq!(samples[5].meaningful, 1);
    assert_eq!(samples[5].effective, 0);
    assert!(windowed_action_counts(&commands, 0, 10, 10).is_empty());
    assert!(windowed_action_counts(&commands, 20, 0, 10).is_empty());
    assert!(windowed_action_counts(&commands, 20, 10, 0).is_empty());
}

// ---------------------------------------------------------------------------
// Commands
// ---------------------------------------------------------------------------

#[test]
fn test_parse_empty_stream() {
    let commands = parse_commands(&[]);
    assert!(commands.is_empty());
}

#[test]
fn test_parse_single_train_command() {
    let mut data = Vec::new();
    data.extend_from_slice(&100u32.to_le_bytes());
    data.push(4);
    data.push(0);
    data.push(0x1F);
    data.extend_from_slice(&0x0025u16.to_le_bytes());
    let commands = parse_commands(&data);
    assert_eq!(commands.len(), 1);
    assert_eq!(commands[0].frame, 100);
    assert_eq!(commands[0].player_id, 0);
    assert!(matches!(commands[0].command, Command::Train { unit_type: 0x25 }));
}

#[test]
fn test_parse_build_command() {
    let mut data = Vec::new();
    data.extend_from_slice(&200u32.to_le_bytes());
    data.push(9);
    data.push(1);
    data.push(0x0C);
    data.push(0x0F);
    data.extend_from_slice(&100u16.to_le_bytes());
    data.extend_from_slice(&200u16.to_le_bytes());
    data.extend_from_slice(&0x007Du16.to_le_bytes());
    let commands = parse_commands(&data);
    assert_eq!(commands.len(), 1);
    if let Command::Build { order, x, y, unit_type } = &commands[0].command {
        assert_eq!(*order, 0x0F);
        assert_eq!(*x, 100);
        assert_eq!(*y, 200);
        assert_eq!(*unit_type, 0x007D);
    } else {
        panic!("expected Build command");
    }
}

#[test]
fn test_parse_hotkey_command() {
    let mut data = Vec::new();
    data.extend_from_slice(&50u32.to_le_bytes());
    data.push(4);
    data.push(0);
    data.push(0x13);
    data.push(0);
    data.push(1);
    let commands = parse_commands(&data);
    assert_eq!(commands.len(), 1);
    assert!(matches!(
        commands[0].command,
        Command::Hotkey { action: HotkeyAction::Assign, group: 1 }
    ));
}

#[test]
fn test_parse_multiple_commands_in_block() {
    let mut data = Vec::new();
    data.extend_from_slice(&300u32.to_le_bytes());
    data.push(7);
    data.push(0);
    data.push(0x1F);
    data.extend_from_slice(&0x0001u16.to_le_bytes());
    data.push(0);
    data.push(0x1A);
    data.push(0);
    let commands = parse_commands(&data);
    assert_eq!(commands.len(), 2);
    assert!(matches!(commands[0].command, Command::Train { .. }));
    assert!(matches!(commands[1].command, Command::Stop { queued: false }));
}

#[test]
fn test_meaningful_and_effective_actions() {
    assert!(!Command::KeepAlive.is_meaningful_action());
    assert!(!Command::Select { unit_tags: vec![1] }.is_meaningful_action());
    assert!(Command::Train { unit_type: 1 }.is_meaningful_action());
    assert!(Command::Build { order: 0, x: 0, y: 0, unit_type: 1 }.is_meaningful_action());
    assert!(Command::Hotkey { action: HotkeyAction::Assign, group: 1 }.is_effective_action());
    assert!(!Command::Hotkey { action: HotkeyAction::Select, group: 1 }.is_effective_action());
}

#[test]
fn test_build_order_actions() {
    assert!(Command::Build { order: 0, x: 0, y: 0, unit_type: 1 }.is_build_order_action());
    assert!(Command::Train { unit_type: 1 }.is_build_order_action());
    assert!(Command::Research { tech_type: 1 }.is_build_order_action());
    assert!(Command::Upgrade { upgrade_type: 1 }.is_build_order_action());
    assert!(Command::UnitMorph { unit_type: 1 }.is_build_order_action());
    assert!(!Command::Stop { queued: false }.is_build_order_action());
    assert!(!Command::KeepAlive.is_build_order_action());
}

#[test]
fn chat_text_is_read_leniently() {
    // Chat: sender slot then a NUL-terminated message with an invalid byte.
    let mut data = Vec::new();
    data.extend_from_slice(&7u32.to_le_bytes());
    let mut payload = vec![0x5C, 3];
    payload.extend_from_slice(b"gg\xFFwp");
    payload.resize(2 + 80, 0);
    data.push((1 + payload.len()) as u8);
    data.push(1);
    data.extend_from_slice(&payload);
    let commands = parse_commands(&data);
    assert_eq!(commands.len(), 1);
    match &commands[0].command {
        Command::Chat { sender_slot, message } => {
            assert_eq!(*sender_slot, 3);
            assert_eq!(message, "gg\u{FFFD}wp");
        }
        other => panic!("unexpected {:?}", other),
    }
}

// ---------------------------------------------------------------------------
// Format detection
// ---------------------------------------------------------------------------

#[test]
fn test_detect_legacy_short_data() {
    assert_eq!(detect(&[0u8; 10]), Format::Legacy);
}

#[test]
fn test_detect_modern_zlib_at_28() {
    let mut data = [0u8; 30];
    data[28] = 0x78;
    assert_eq!(detect(&data), Format::Modern);
}

#[test]
fn test_detect_modern_121() {
    let mut data = [0u8; 30];
    data[12] = 0x73;
    assert_eq!(detect(&data), Format::Modern121);
}

#[test]
fn test_detect_121_takes_precedence_over_zlib() {
    let mut data = [0u8; 30];
    data[12] = 0x73;
    data[28] = 0x78;
    assert_eq!(detect(&data), Format::Modern121);
}

// ---------------------------------------------------------------------------
// Game data names
// ---------------------------------------------------------------------------

#[test]
fn test_common_unit_names() {
    assert_eq!(unit_name(0), "Marine");
    assert_eq!(unit_name(37), "Zergling");
    assert_eq!(unit_name(41), "Drone");
    assert_eq!(unit_name(64), "Probe");
    assert_eq!(unit_name(65), "Zealot");
    assert_eq!(unit_name(66), "Dragoon");
    assert_eq!(unit_name(103), "Lurker");
    assert_eq!(unit_name(131), "Hatchery");
    assert_eq!(unit_name(160), "Gateway");
    assert_eq!(unit_name(111), "Barracks");
}

#[test]
fn test_common_tech_names() {
    assert_eq!(tech_name(0), "Stim Packs");
    assert_eq!(tech_name(5), "Tank Siege Mode");
    assert_eq!(tech_name(19), "Psionic Storm");
    assert_eq!(tech_name(32), "Lurker Aspect");
}

#[test]
fn test_common_upgrade_names() {
    assert_eq!(upgrade_name(27), "Metabolic Boost");
    assert_eq!(upgrade_name(34), "Leg Enhancements");
    assert_eq!(upgrade_name(33), "Singularity Charge");
    assert_eq!(upgrade_name(16), "U-238 Shells");
}

#[test]
fn test_unit_race() {
    assert_eq!(unit_race(0), Some("Terran"));
    assert_eq!(unit_race(37), Some("Zerg"));
    assert_eq!(unit_race(65), Some("Protoss"));
    assert_eq!(unit_race(131), Some("Zerg"));
    assert_eq!(unit_race(160), Some("Protoss"));
    assert_eq!(unit_race(255), None);
}

#[test]
fn test_is_building() {
    assert!(is_building(111));
    assert!(is_building(131));
    assert!(is_building(160));
    assert!(!is_building(0));
    assert!(!is_building(37));
}

#[test]
fn test_unknown_ids() {
    assert_eq!(unit_name(999), "Unknown Unit");
    assert_eq!(tech_name(255), "Unknown Tech");
    assert_eq!(upgrade_name(255), "Unknown Upgrade");
}

#[test]
fn every_building_has_a_race() {
    for id in 0..=300u16 {
        if is_building(id) {
            assert!(unit_race(id).is_some(), "building {} has no race", id);
        }
    }
    assert_eq!(unit_name(4), "Unknown Unit");
    assert_eq!(unit_race(4), Some("Terran"));
}

// ---------------------------------------------------------------------------
// Whole replays
// ---------------------------------------------------------------------------

#[test]
fn test_parse_too_short() {
    let result = parse(&[0u8; 10]);
    assert!(matches!(result, Err(ReplayError::TooShort { .. })));
}

#[test]
fn test_parse_legacy_rejected() {
    let result = parse(&[0u8; 30]);
    assert!(matches!(result, Err(ReplayError::LegacyFormat)));
}

fn zlib_compress(data: &[u8]) -> Vec<u8> {
    let mut encoder = ZlibEncoder::new(Vec::new(), Compression::default());
    encoder.write_all(data).unwrap();
    encoder.finish().unwrap()
}

fn build_section(chunks: &[&[u8]]) -> Vec<u8> {
    let mut section = Vec::new();
    section.extend_from_slice(&0i32.to_le_bytes());
    section.extend_from_slice(&(chunks.len() as i32).to_le_bytes());
    for chunk in chunks {
        section.extend_from_slice(&(chunk.len() as i32).to_le_bytes());
        section.extend_from_slice(chunk);
    }
    section
}

/// A 1.18-style replay: the raw replay id, then zlib sections for the header,
/// commands, map and (optionally) extended names.
fn build_replay(magic: &[u8], commands: &[u8], with_names: bool) -> Vec<u8> {
    let mut data = Vec::new();
    data.extend_from_slice(&build_section(&[magic]));
    data.extend_from_slice(&build_section(&[&zlib_compress(&[7u8; 633])]));
    data.extend_from_slice(&build_section(&[&zlib_compress(commands)]));
    data.extend_from_slice(&build_section(&[&zlib_compress(b"MAP DATA")]));
    if with_names {
        data.extend_from_slice(&build_section(&[&zlib_compress(&[1u8; 768])]));
    }
    data
}

/// A 1.21-style replay: after the replay id a 4-byte length, and a size
/// marker section after the header, command and map sections.
fn build_replay_121(magic: &[u8], commands: &[u8]) -> Vec<u8> {
    let marker = build_section(&[&[0u8, 0, 0, 4]]);
    let mut data = Vec::new();
    data.extend_from_slice(&build_section(&[magic]));
    data.extend_from_slice(&[9, 9, 9, 9]);
    data.extend_from_slice(&build_section(&[&zlib_compress(&[7u8; 633])]));
    data.extend_from_slice(&marker);
    data.extend_from_slice(&build_section(&[&zlib_compress(commands)]));
    data.extend_from_slice(&marker);
    data.extend_from_slice(&build_section(&[&zlib_compress(b"MAP DATA")]));
    data.extend_from_slice(&marker);
    data.extend_from_slice(&build_section(&[&zlib_compress(&[2u8; 768])]));
    data
}

fn train_stream() -> Vec<u8> {
    let mut s = Vec::new();
    s.extend_from_slice(&100u32.to_le_bytes());
    s.push(4);
    s.push(0);
    s.push(0x1F);
    s.extend_from_slice(&7u16.to_le_bytes());
    s
}

#[test]
fn parse_reads_all_sections() {
    let data = build_replay(b"reRS", &train_stream(), true);
    assert_eq!(detect(&data), Format::Modern);
    let replay: Replay = parse(&data).unwrap();
    assert_eq!(replay.header_section, vec![7u8; 633]);
    assert_eq!(replay.commands.len(), 1);
    assert_eq!(replay.build_order.len(), 1);
    assert_eq!(replay.build_order[0].action, BuildAction::Train(7));
    assert_eq!(replay.extended_names, Some(vec![1u8; 768]));
}

#[test]
fn parse_reads_121_replays() {
    let data = build_replay_121(b"seRS", &train_stream());
    assert_eq!(detect(&data), Format::Modern121);
    let replay = parse(&data).unwrap();
    assert_eq!(replay.header_section, vec![7u8; 633]);
    assert_eq!(replay.commands.len(), 1);
    assert_eq!(replay.extended_names, Some(vec![2u8; 768]));
}

#[test]
fn parse_without_names_section() {
    let data = build_replay(b"reRS", &train_stream(), false);
    let replay = parse(&data).unwrap();
    assert!(replay.extended_names.is_none());
}

#[test]
fn parse_rejects_bad_magic() {
    let data = build_replay(b"abcd", &train_stream(), true);
    match parse(&data) {
        Err(ReplayError::InvalidMagic(m)) => assert_eq!(&m, b"abcd"),
        other => panic!("unexpected {:?}", other.is_ok()),
    }
    // Byte 12 is 's': a 1.21 replay whose replay id is cut short.
    let data = build_replay_121(b"se", &train_stream());
    match parse(&data) {
        Err(ReplayError::TooShort { expected, actual }) => {
            assert_eq!(expected, 4);
            assert_eq!(actual, 2);
        }
        other => panic!("unexpected {:?}", other.is_ok()),
    }
}

#[test]
fn parse_reports_truncated_sections() {
    let mut data = build_replay(b"reRS", &train_stream(), false);
    let full = data.len();
    data.truncate(full - 3);
    match parse(&data) {
        Err(ReplayError::TooShort { actual, .. }) => assert_eq!(actual, full - 3),
        other => panic!("unexpected {:?}", other.is_ok()),
    }
}

// ---------------------------------------------------------------------------
// Sections
// ---------------------------------------------------------------------------

#[test]
fn test_decompress_section_single_zlib_chunk() {
    let payload = b"Hello, StarCraft!";
    let compressed = zlib_compress(payload);
    let section = build_section(&[&compressed]);
    let (result, consumed) = decompress_section(&section, 0, Format::Modern).unwrap();
    assert_eq!(result, payload);
    assert_eq!(consumed, section.len());
}

#[test]
fn test_decompress_section_uncompressed_chunk() {
    let payload = b"\x00\x01\x02\x03";
    let section = build_section(&[payload]);
    let (result, _) = decompress_section(&section, 0, Format::Modern).unwrap();
    assert_eq!(result, payload);
}

#[test]
fn test_decompress_section_multiple_chunks() {
    let part_a = b"Part A";
    let part_b = b"Part B";
    let comp_a = zlib_compress(part_a);
    let comp_b = zlib_compress(part_b);
    let section = build_section(&[&comp_a, &comp_b]);
    let (result, _) = decompress_section(&section, 0, Format::Modern).unwrap();
    assert_eq!(result, b"Part APart B");
}

#[test]
fn test_decompress_section_with_offset() {
    let payload = b"offset test";
    let compressed = zlib_compress(payload);
    let mut data = vec![0xFF; 16];
    let section = build_section(&[&compressed]);
    data.extend_from_slice(&section);
    let (result, _) = decompress_section(&data, 16, Format::Modern).unwrap();
    assert_eq!(result, payload);
}

#[test]
fn test_decompress_pkware_known_vector() {
    let compressed: &[u8] = &[0x00, 0x04, 0x82, 0x24, 0x25, 0x8f, 0x80, 0x7f];
    let section = build_section(&[compressed]);
    let (result, _) = decompress_section(&section, 0, Format::Legacy).unwrap();
    assert_eq!(result, b"AIAIAIAIAIAIA");
}

#[test]
fn section_errors() {
    // A zlib-looking chunk that is not valid zlib.
    let section = build_section(&[&[0x78, 0x00, 0x01, 0x02, 0x03]]);
    assert!(matches!(
        decompress_section(&section, 0, Format::Modern),
        Err(ReplayError::Decompression(_))
    ));
    // A chunk longer than the data.
    let mut section = build_section(&[b"abc"]);
    section.truncate(section.len() - 1);
    match decompress_section(&section, 0, Format::Modern) {
        Err(ReplayError::TooShort { expected, actual }) => {
            assert_eq!(expected, 15);
            assert_eq!(actual, 14);
        }
        other => panic!("unexpected {:?}", other.is_ok()),
    }
    // Legacy chunks that do not explode are kept raw.
    let section = build_section(&[b"\xFF\xFF\xFF\xFF"]);
    let (raw, _) = decompress_section(&section, 0, Format::Legacy).unwrap();
    assert_eq!(raw, b"\xFF\xFF\xFF\xFF");
}

// ---------------------------------------------------------------------------
// Phases
// ---------------------------------------------------------------------------

fn bo_entry(frame: u32, player: u8, action: BuildAction) -> BuildOrderEntry {
    BuildOrderEntry { frame, player_id: player, action }
}

#[test]
fn test_detect_phases_full_game() {
    let bo = vec![
        bo_entry(100, 0, BuildAction::Train(7)),
        bo_entry(200, 0, BuildAction::Build(109)),
        bo_entry(800, 0, BuildAction::Build(111)),
        bo_entry(1000, 0, BuildAction::Train(0)),
        bo_entry(3000, 0, BuildAction::Build(113)),
        bo_entry(8000, 0, BuildAction::Build(116)),
    ];
    let analysis = detect_phases(&bo, 15000);
    assert_eq!(analysis.phases.len(), 4);
    assert_eq!(analysis.phases[0].phase, Phase::Opening);
    assert_eq!(analysis.phases[1].phase, Phase::EarlyGame);
    assert_eq!(analysis.phases[1].start_frame, 800);
    assert_eq!(analysis.phases[2].phase, Phase::MidGame);
    assert_eq!(analysis.phases[2].start_frame, 3000);
    assert_eq!(analysis.phases[3].phase, Phase::LateGame);
    assert_eq!(analysis.phases[3].start_frame, 8000);
}

#[test]
fn test_detect_phases_short_game() {
    let bo = vec![
        bo_entry(100, 0, BuildAction::Train(41)),
        bo_entry(500, 0, BuildAction::Build(142)),
        bo_entry(800, 0, BuildAction::Train(37)),
    ];
    let analysis = detect_phases(&bo, 2000);
    assert_eq!(analysis.phases.len(), 2);
    assert_eq!(analysis.phases[0].phase, Phase::Opening);
    assert_eq!(analysis.phases[1].phase, Phase::EarlyGame);
}

#[test]
fn test_expansion_triggers_mid() {
    let bo = vec![
        bo_entry(100, 0, BuildAction::Build(111)),
        bo_entry(500, 0, BuildAction::Build(106)),
        bo_entry(2000, 0, BuildAction::Build(106)),
    ];
    let analysis = detect_phases(&bo, 5000);
    let mid = analysis.phases.iter().find(|p| p.phase == Phase::MidGame);
    assert!(mid.is_some());
    assert_eq!(mid.unwrap().start_frame, 2000);
}

#[test]
fn test_landmarks() {
    let bo = vec![
        bo_entry(300, 0, BuildAction::Build(110)),
        bo_entry(600, 0, BuildAction::Build(111)),
        bo_entry(2000, 0, BuildAction::Build(113)),
        bo_entry(5000, 0, BuildAction::Build(116)),
    ];
    let analysis = detect_phases(&bo, 10000);
    assert_eq!(analysis.landmarks.first_gas, Some(300));
    assert_eq!(analysis.landmarks.first_tech, Some(600));
    assert_eq!(analysis.landmarks.first_tier2, Some(2000));
    assert_eq!(analysis.landmarks.first_tier3, Some(5000));
}

#[test]
fn test_phase_at_frame() {
    let bo = vec![
        bo_entry(500, 0, BuildAction::Build(160)),
        bo_entry(2000, 0, BuildAction::Build(167)),
        bo_entry(6000, 0, BuildAction::Build(169)),
    ];
    let analysis = detect_phases(&bo, 10000);
    assert_eq!(phase_at_frame(&analysis, 0), Phase::Opening);
    assert_eq!(phase_at_frame(&analysis, 400), Phase::Opening);
    assert_eq!(phase_at_frame(&analysis, 500), Phase::EarlyGame);
    assert_eq!(phase_at_frame(&analysis, 1500), Phase::EarlyGame);
    assert_eq!(phase_at_frame(&analysis, 2000), Phase::MidGame);
    assert_eq!(phase_at_frame(&analysis, 6000), Phase::LateGame);
    assert_eq!(phase_at_frame(&analysis, 9000), Phase::LateGame);
}

#[test]
fn test_empty_build_order() {
    let analysis = detect_phases(&[], 5000);
    assert!(!analysis.phases.is_empty());
    assert_eq!(analysis.phases[0].phase, Phase::Opening);
}

#[test]
fn phases_are_contiguous() {
    let bo = vec![
        bo_entry(500, 0, BuildAction::Build(160)),
        bo_entry(2000, 0, BuildAction::Build(167)),
        bo_entry(6000, 0, BuildAction::Build(169)),
    ];
    let analysis = detect_phases(&bo, 10000);
    let ps = &analysis.phases;
    assert_eq!(ps[0].start_frame, 0);
    for i in 0..ps.len() - 1 {
        assert_eq!(ps[i].end_frame, Some(ps[i + 1].start_frame));
    }
    assert_eq!(ps[ps.len() - 1].end_frame, None);
}

#[test]
fn phases_gas_does_not_end_the_opening() {
    // A Refinery and no tech-enabling structure: the whole game is the opening.
    let bo = vec![bo_entry(300, 0, BuildAction::Build(110))];
    let analysis = detect_phases(&bo, 1000);
    assert_eq!(analysis.landmarks.first_gas, Some(300));
    assert_eq!(analysis.phases.len(), 1);
    assert_eq!(analysis.phases[0].phase, Phase::Opening);
    assert_eq!(analysis.phases[0].start_frame, 0);
    assert_eq!(analysis.phases[0].end_frame, Some(1000));
}

#[test]
fn phases_expansion_is_a_players_second_new_base() {
    // Two players' first bases make no expansion; player 1's second Hatchery does.
    let bo = vec![
        bo_entry(100, 0, BuildAction::Build(160)),
        bo_entry(400, 0, BuildAction::Build(154)),
        bo_entry(500, 1, BuildAction::Build(131)),
        bo_entry(900, 1, BuildAction::Build(131)),
    ];
    let analysis = detect_phases(&bo, 5000);
    assert_eq!(analysis.landmarks.first_expansion, Some(900));
    assert_eq!(analysis.phases[1].end_frame, Some(900));
    assert_eq!(analysis.phases.len(), 3);
    assert_eq!(Phase::MidGame.name(), "Mid Game");
}

#[test]
fn phases_lair_morph_is_not_an_expansion() {
    let bo = vec![
        bo_entry(100, 0, BuildAction::Build(131)),
        bo_entry(3000, 0, BuildAction::BuildingMorph(132)),
    ];
    let analysis = detect_phases(&bo, 5000);
    assert_eq!(analysis.landmarks.first_expansion, None);
    assert_eq!(analysis.landmarks.first_tier2, Some(3000));
}

#[test]
fn phases_stay_chronological_when_landmarks_come_early() {
    // Barracks, then a Science Facility before any Factory.
    let bo = vec![
        bo_entry(100, 0, BuildAction::Build(111)),
        bo_entry(500, 0, BuildAction::Build(116)),
        bo_entry(2000, 0, BuildAction::Build(113)),
    ];
    let analysis = detect_phases(&bo, 5000);
    let starts: Vec<u32> = analysis.phases.iter().map(|p| p.start_frame).collect();
    assert_eq!(starts, vec![0, 100, 2000, 2000]);
    for p in &analysis.phases {
        if let Some(e) = p.end_frame {
            assert!(p.start_frame <= e);
        }
    }
    // A Factory before the first Barracks: the early game has no length.
    let bo = vec![
        bo_entry(100, 0, BuildAction::Build(113)),
        bo_entry(800, 0, BuildAction::Build(111)),
    ];
    let analysis = detect_phases(&bo, 5000);
    let starts: Vec<u32> = analysis.phases.iter().map(|p| p.start_frame).collect();
    assert_eq!(starts, vec![0, 800, 800]);
    assert_eq!(analysis.phases[1].end_frame, Some(800));
}

// ---------------------------------------------------------------------------
// Skill
// ---------------------------------------------------------------------------

#[test]
fn test_count_hotkeys() {
    let commands = vec![
        make_cmd(100, 0, Command::Hotkey { action: HotkeyAction::Assign, group: 1 }),
        make_cmd(200, 0, Command::Hotkey { action: HotkeyAction::Select, group: 1 }),
        make_cmd(300, 0, Command::Hotkey { action: HotkeyAction::Select, group: 2 }),
        make_cmd(400, 1, Command::Hotkey { action: HotkeyAction::Assign, group: 1 }),
    ];
    let (a, r) = count_hotkeys(&commands, 0);
    assert_eq!(a, 1);
    assert_eq!(r, 2);
    let (a, r) = count_hotkeys(&commands, 1);
    assert_eq!(a, 1);
    assert_eq!(r, 0);
}

#[test]
fn first_action_frame_is_the_first_production() {
    let commands = vec![
        make_cmd(50, 0, Command::Stop { queued: false }),
        make_cmd(80, 1, Command::Train { unit_type: 64 }),
        make_cmd(120, 0, Command::Build { order: 0, x: 1, y: 1, unit_type: 109 }),
        make_cmd(130, 0, Command::Train { unit_type: 7 }),
    ];
    assert_eq!(first_action_frame(&commands, 0), Some(120));
    assert_eq!(first_action_frame(&commands, 1), Some(80));
    assert_eq!(first_action_frame(&commands, 2), None);
    assert_eq!(SkillTier::Expert.name(), "Expert");
}

#[test]
fn parsing_whole_blocks_then_more_concatenates() {
    let a = train_stream();
    let mut b = Vec::new();
    b.extend_from_slice(&200u32.to_le_bytes());
    b.push(3);
    b.extend_from_slice(&[1, 0x1A, 0]);
    let mut ab = a.clone();
    ab.extend_from_slice(&b);
    let both = parse_commands(&ab);
    assert_eq!(both.len(), parse_commands(&a).len() + parse_commands(&b).len());
    assert_eq!(both[0].frame, 100);
    assert_eq!(both[1].frame, 200);
    assert!(matches!(both[1].command, Command::Stop { queued: false }));
    // A truncated block at the end adds nothing.
    let mut at = a.clone();
    at.extend_from_slice(&[9, 0, 0, 0, 40, 1]);
    assert_eq!(parse_commands(&at).len(), parse_commands(&a).len());
}
