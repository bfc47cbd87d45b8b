use rom_organizer::catalog::DatFile;
use rom_organizer::classify::FileInfo;
use rom_organizer::console::Console;
use rom_organizer::digest::{sha1_hex_of_bytes, Sha1Stream};
use rom_organizer::organize::{join_path, organize_destination, SortMethod};
use rom_organizer::paths::{extension, file_name_of, rename_destination};
use rom_organizer::verify::{identify, verify, GameStatus, Rom, VerifyError};

fn rom_for(path: &str) -> Rom {
    let info = FileInfo {
        path: path.to_string(),
        is_dir: false,
        layout_present: Vec::new(),
        size: 0,
        header: None,
    };
    Rom::new(&info).unwrap()
}

fn catalog_for(name: &str, size: u64, sha1: &str) -> DatFile {
    let doc = format!(
        "<datafile><game><category>Games</category><rom name=\"{}\" size=\"{}\" sha1=\"{}\"/></game></datafile>",
        name, size, sha1
    );
    DatFile::load(&doc).unwrap()
}

#[test]
fn sha1_of_known_vector() {
    assert_eq!(
        sha1_hex_of_bytes(b"abc"),
        "a9993e364706816aba3e25717850c26c9cd0d89d"
    );
    assert_eq!(
        sha1_hex_of_bytes(b""),
        "da39a3ee5e6b4b0d3255bfef95601890afd80709"
    );
}

#[test]
fn sha1_streaming_matches_single_shot() {
    let mut s = Sha1Stream::new();
    s.update(b"ab");
    s.update(b"c");
    assert_eq!(s.hex_digest(), sha1_hex_of_bytes(b"abc"));
}

#[test]
fn verify_round_trip_and_flipped_byte() {
    // a file of exactly the catalog's name, size and digest verifies;
    // flipping one byte fails with a digest mismatch
    let mut content = vec![0u8; 131088];
    content[77] = 0x5A;
    let digest = sha1_hex_of_bytes(&content);
    let dat = catalog_for("game.nes", 131088, &digest);

    assert!(verify("roms/game.nes", 131088, &digest, &dat).is_ok());

    let mut flipped = content.clone();
    flipped[131087] ^= 0x01;
    let bad_digest = sha1_hex_of_bytes(&flipped);
    match verify("roms/game.nes", 131088, &bad_digest, &dat) {
        Err(VerifyError::DigestMismatch { expected, actual }) => {
            assert_eq!(expected, digest);
            assert_eq!(actual, bad_digest);
        }
        other => panic!("expected a digest mismatch, got {:?}", other),
    }
}

#[test]
fn verify_reports_size_mismatch_with_both_values() {
    let dat = catalog_for("game.nes", 100, "aa");
    match verify("game.nes", 99, "aa", &dat) {
        Err(VerifyError::SizeMismatch { expected, actual }) => {
            assert_eq!(expected, 100);
            assert_eq!(actual, 99);
        }
        other => panic!("expected a size mismatch, got {:?}", other),
    }
}

#[test]
fn verify_reports_missing_entry() {
    let dat = catalog_for("game.nes", 100, "aa");
    assert!(matches!(
        verify("other.nes", 100, "aa", &dat),
        Err(VerifyError::NotInCatalog)
    ));
}

#[test]
fn verify_compares_digests_case_insensitively() {
    let dat = catalog_for("game.nes", 5, "ABCDEF0123");
    assert!(verify("game.nes", 5, "abcdef0123", &dat).is_ok());
}

#[test]
fn verify_short_circuits_size_before_digest() {
    let dat = catalog_for("game.nes", 100, "aa");
    assert!(matches!(
        verify("game.nes", 99, "zz", &dat),
        Err(VerifyError::SizeMismatch { .. })
    ));
}

#[test]
fn verify_is_idempotent() {
    let dat = catalog_for("game.nes", 5, "aa");
    let first = verify("game.nes", 5, "aa", &dat);
    let second = verify("game.nes", 5, "aa", &dat);
    assert_eq!(first.is_ok(), second.is_ok());

    let mut rom = rom_for("game.nes");
    rom.verify(5, "aa", &dat);
    assert!(matches!(rom.status(), GameStatus::Verified));
    rom.verify(5, "aa", &dat);
    assert!(matches!(rom.status(), GameStatus::Verified));
}

#[test]
fn rom_status_transitions_and_never_stays_unverified() {
    let dat = catalog_for("game.nes", 5, "aa");
    let mut rom = rom_for("game.nes");
    assert!(matches!(rom.status(), GameStatus::Unverified));
    rom.verify(6, "aa", &dat);
    assert!(matches!(
        rom.status(),
        GameStatus::Failed(VerifyError::SizeMismatch { .. })
    ));
    rom.verify(5, "aa", &dat);
    assert!(matches!(rom.status(), GameStatus::Verified));
}

#[test]
fn rom_new_rejects_unclassifiable_paths() {
    let info = FileInfo {
        path: "notes.txt".to_string(),
        is_dir: false,
        layout_present: Vec::new(),
        size: 0,
        header: None,
    };
    assert!(Rom::new(&info).is_err());
    let rom = rom_for("game.nes");
    assert_eq!(rom.console_id(), Console::NES);
    assert_eq!(rom.path(), "game.nes");
}

#[test]
fn identify_finds_first_matching_digest() {
    let doc = "<datafile>\
        <game><category>G</category><rom name=\"first.nes\" size=\"1\" sha1=\"ff\"/></game>\
        <game><category>G</category><rom name=\"second.nes\" size=\"1\" sha1=\"ff\"/></game>\
        </datafile>";
    let dat = DatFile::load(doc).unwrap();
    // two entries share the digest: the first in document order wins
    assert_eq!(identify("ff", &dat), Some("first.nes".to_string()));
    assert_eq!(identify("FF", &dat), Some("first.nes".to_string()));
    assert_eq!(identify("ee", &dat), None);
}

#[test]
fn identify_ignores_the_file_name() {
    let dat = catalog_for("Proper Name.gba", 3, "abc123");
    assert_eq!(
        identify("abc123", &dat),
        Some("Proper Name.gba".to_string())
    );
}

#[test]
fn rename_destination_replaces_final_component() {
    assert_eq!(
        rename_destination("roms/misc/unknown.bin", "Proper Name.gba"),
        "roms/misc/Proper Name.gba"
    );
    assert_eq!(rename_destination("unknown.bin", "game.nes"), "game.nes");
}

#[test]
fn path_helpers_read_names_and_extensions() {
    assert_eq!(file_name_of("a/b/c.nes"), "c.nes");
    assert_eq!(file_name_of("c.nes"), "c.nes");
    assert_eq!(extension("a/b/c.nes"), Some("nes".to_string()));
    assert_eq!(extension("a/b/archive.tar.gz"), Some("gz".to_string()));
    assert_eq!(extension("a/b/noext"), None);
    assert_eq!(extension(".hidden"), None);
    assert_eq!(join_path("out", "NES"), "out/NES");
    assert_eq!(join_path("out/", "NES"), "out/NES");
    assert_eq!(join_path("", "NES"), "NES");
}

#[test]
fn organize_destination_by_console_and_extension() {
    let rom = rom_for("roms/game.nes");
    assert_eq!(
        organize_destination(&rom, SortMethod::Console, "sorted"),
        Some("sorted/NES/game.nes".to_string())
    );
    assert_eq!(
        organize_destination(&rom, SortMethod::FileExtension, "sorted"),
        Some("sorted/nes/game.nes".to_string())
    );
}

#[test]
fn organize_skips_directory_roms_under_extension_sort() {
    let info = FileInfo {
        path: "PS3 Title".to_string(),
        is_dir: true,
        layout_present: rom_organizer::classify::ps3_layout_files(),
        size: 0,
        header: None,
    };
    let rom = Rom::new(&info).unwrap();
    assert_eq!(rom.console_id(), Console::Playstation3);
    assert!(rom.is_dir());
    assert_eq!(
        organize_destination(&rom, SortMethod::FileExtension, "sorted"),
        None
    );
    assert_eq!(
        organize_destination(&rom, SortMethod::Console, "sorted"),
        Some("sorted/Playstation3/PS3 Title".to_string())
    );
}
