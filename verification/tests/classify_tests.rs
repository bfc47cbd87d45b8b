use rom_organizer::classify::{check_dir_level_rom, get_console_id, ps3_layout_files, FileInfo};
use rom_organizer::console::{get_console_id_by_ext, Console};
use rom_organizer::fingerprint::{
    is_fingerprint_match, is_masked_fingerprint_match, is_ps2_game, try_fingerprint_iso,
    ISO_BUFFER_LEN, ISO_GAMECUBE_FINGERPRINT, ISO_GAMECUBE_OFFSET, ISO_PS2_USA_FINGERPRINT,
    ISO_PS2_USA_JPN_OFFSET, ISO_PSP_FINGERPRINT, ISO_PSP_OFFSET, ISO_WII_FINGERPRINT,
    ISO_WII_OFFSET,
};

fn plain_file(path: &str, size: u64, header: Option<Vec<u8>>) -> FileInfo {
    FileInfo {
        path: path.to_string(),
        is_dir: false,
        layout_present: Vec::new(),
        size,
        header,
    }
}

#[test]
fn should_return_none_if_no_file_extension() {
    let info = plain_file("my_file", 0, None);
    assert!(get_console_id(&info).is_none())
}

#[test]
fn should_return_none_if_unknown_extension() {
    let info = plain_file("my_file.asdf", 0, None);
    assert!(get_console_id(&info).is_none())
}

#[test]
fn extension_table_maps_known_extensions() {
    assert_eq!(get_console_id_by_ext("nes"), Some(Console::NES));
    assert_eq!(get_console_id_by_ext("sfc"), Some(Console::SNES));
    assert_eq!(get_console_id_by_ext("z64"), Some(Console::N64));
    assert_eq!(get_console_id_by_ext("wbfs"), Some(Console::Wii));
    assert_eq!(get_console_id_by_ext("xiso"), Some(Console::Xbox));
    assert_eq!(get_console_id_by_ext("asdf"), None);
}

#[test]
fn extension_lookup_is_case_insensitive() {
    assert_eq!(get_console_id_by_ext("GB"), Some(Console::Gameboy));
    assert_eq!(get_console_id_by_ext("NeS"), Some(Console::NES));
}

#[test]
fn known_extension_classifies_without_content() {
    // no header was read at all, and the size is tiny: the extension
    // alone decides
    let info = plain_file("roms/game.nes", 3, None);
    assert_eq!(get_console_id(&info), Some(Console::NES));
}

#[test]
fn short_iso_stays_unknown() {
    // shorter than the minimum fingerprint region: never fingerprinted
    let info = plain_file("small.iso", 100, Some(vec![0u8; 100]));
    assert_eq!(get_console_id(&info), None);
}

#[test]
fn unreadable_iso_stays_unknown() {
    let info = plain_file("big.iso", 0x10000, None);
    assert_eq!(get_console_id(&info), None);
}

fn buffer_with(patches: &[(usize, &[u8])]) -> Vec<u8> {
    let mut buf = vec![0u8; ISO_BUFFER_LEN];
    for (offset, bytes) in patches {
        buf[*offset..*offset + bytes.len()].copy_from_slice(bytes);
    }
    buf
}

#[test]
fn gamecube_fingerprint_wins_over_later_patterns() {
    // carries both the GameCube and the PSP signature; GameCube is
    // tested first and wins
    let buf = buffer_with(&[
        (ISO_GAMECUBE_OFFSET, &ISO_GAMECUBE_FINGERPRINT),
        (ISO_PSP_OFFSET, &ISO_PSP_FINGERPRINT),
    ]);
    assert_eq!(try_fingerprint_iso(&buf), Some(Console::GameCube));
}

#[test]
fn wii_fingerprint_tested_first() {
    let buf = buffer_with(&[
        (ISO_WII_OFFSET, &ISO_WII_FINGERPRINT),
        (ISO_GAMECUBE_OFFSET, &ISO_GAMECUBE_FINGERPRINT),
    ]);
    assert_eq!(try_fingerprint_iso(&buf), Some(Console::Wii));
}

#[test]
fn psp_fingerprint_matches() {
    let buf = buffer_with(&[(ISO_PSP_OFFSET, &ISO_PSP_FINGERPRINT)]);
    assert_eq!(try_fingerprint_iso(&buf), Some(Console::PSP));
}

#[test]
fn blank_buffer_is_unknown() {
    let buf = buffer_with(&[]);
    assert_eq!(try_fingerprint_iso(&buf), None);
}

#[test]
fn masked_match_classifies_ps2_with_garbage_high_nibbles() {
    // the upper nibble of every pattern byte is garbage; only the
    // lower nibble carries the fingerprint
    let noisy: Vec<u8> = ISO_PS2_USA_FINGERPRINT.iter().map(|b| b | 0xA0).collect();
    let buf = buffer_with(&[(ISO_PS2_USA_JPN_OFFSET, noisy.as_slice())]);
    assert!(is_ps2_game(&buf));
    assert_eq!(try_fingerprint_iso(&buf), Some(Console::Playstation2));

    let info = plain_file("disc.iso", 0x10000, Some(buf));
    assert_eq!(get_console_id(&info), Some(Console::Playstation2));
}

#[test]
fn exact_fingerprint_matcher_is_exact() {
    let buf = buffer_with(&[(ISO_WII_OFFSET, &ISO_WII_FINGERPRINT)]);
    assert!(is_fingerprint_match(&buf, ISO_WII_OFFSET, &ISO_WII_FINGERPRINT));
    assert!(!is_fingerprint_match(&buf, ISO_WII_OFFSET + 1, &ISO_WII_FINGERPRINT));
    // the exact matcher does not mask nibbles
    let noisy: Vec<u8> = ISO_WII_FINGERPRINT.iter().map(|b| b | 0xF0).collect();
    let buf2 = buffer_with(&[(ISO_WII_OFFSET, noisy.as_slice())]);
    assert!(!is_fingerprint_match(&buf2, ISO_WII_OFFSET, &ISO_WII_FINGERPRINT));
    assert!(is_masked_fingerprint_match(
        &buf2,
        ISO_WII_OFFSET,
        &[0x0D, 0x0C, 0x0E, 0x03]
    ));
}

#[test]
fn ps3_directory_layout_classifies_as_ps3() {
    let present: Vec<String> = ps3_layout_files();
    let info = FileInfo {
        path: "Some PS3 Game".to_string(),
        is_dir: true,
        layout_present: present,
        size: 0,
        header: None,
    };
    assert_eq!(check_dir_level_rom(&info), Some(Console::Playstation3));
    assert_eq!(get_console_id(&info), Some(Console::Playstation3));
}

#[test]
fn incomplete_directory_layout_is_unknown() {
    let mut present: Vec<String> = ps3_layout_files();
    present.pop();
    let info = FileInfo {
        path: "Some Folder".to_string(),
        is_dir: true,
        layout_present: present,
        size: 0,
        header: None,
    };
    assert_eq!(check_dir_level_rom(&info), None);
    assert_eq!(get_console_id(&info), None);
}

#[test]
fn directories_never_classify_by_extension() {
    let info = FileInfo {
        path: "folder.nes".to_string(),
        is_dir: true,
        layout_present: Vec::new(),
        size: 0,
        header: None,
    };
    assert_eq!(get_console_id(&info), None);
}

#[test]
fn iso_extension_matching_is_case_insensitive() {
    let buf = buffer_with(&[(ISO_GAMECUBE_OFFSET, &ISO_GAMECUBE_FINGERPRINT)]);
    let info = plain_file("DISC.ISO", 0x10000, Some(buf));
    assert_eq!(get_console_id(&info), Some(Console::GameCube));
}
