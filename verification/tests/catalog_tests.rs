use rom_organizer::catalog::DatFile;
use rom_organizer::text::parse_u64;

const WELL_FORMED: &str = r#"<?xml version="1.0"?>
<!DOCTYPE datafile PUBLIC "-//Logiqx//DTD ROM Management Datafile//EN" "http://www.logiqx.com/Dats/datafile.dtd">
<datafile>
  <header>
    <name>Example Console</name>
    <version>1.0</version>
  </header>
  <game name="Alpha">
    <category>Games</category>
    <description>Alpha</description>
    <rom name="Alpha.nes" size="131072" crc="0f0f0f0f" sha1="aaaaaaaaaaaaaaaaaaaaaaaaaaaaaaaaaaaaaaaa"/>
  </game>
  <game name="Beta">
    <category>Demos</category>
    <rom name="Beta (U).sfc" size="524288" sha1="BBBBBBBBBBBBBBBBBBBBBBBBBBBBBBBBBBBBBBBB"/>
  </game>
</datafile>
"#;

#[test]
fn load_parses_entries_in_document_order() {
    let dat = DatFile::load(WELL_FORMED).unwrap();
    assert_eq!(dat.games.len(), 2);
    assert_eq!(dat.games[0].category.value, "Games");
    assert_eq!(dat.games[0].rom.name, "Alpha.nes");
    assert_eq!(dat.games[0].rom.size, 131072);
    assert_eq!(
        dat.games[0].rom.sha1,
        "aaaaaaaaaaaaaaaaaaaaaaaaaaaaaaaaaaaaaaaa"
    );
    assert_eq!(dat.games[1].category.value, "Demos");
    assert_eq!(dat.games[1].rom.name, "Beta (U).sfc");
    assert_eq!(dat.games[1].rom.size, 524288);
}

#[test]
fn entities_in_names_are_decoded() {
    let doc = r#"<datafile>
  <game>
    <category>Games &amp; Watch</category>
    <rom name="Fish &amp; Chips &lt;v2&gt;.gb" size="7" sha1="cc"/>
  </game>
</datafile>"#;
    let dat = DatFile::load(doc).unwrap();
    assert_eq!(dat.games[0].category.value, "Games & Watch");
    assert_eq!(dat.games[0].rom.name, "Fish & Chips <v2>.gb");
}

#[test]
fn comments_and_unknown_elements_are_skipped() {
    let doc = r#"<datafile>
  <!-- a comment between records -->
  <clrmamepro forcenodump="obsolete"/>
  <game>
    <category>Games</category>
    <release name="x" region="USA"/>
    <rom name="a.gg" size="1" sha1="dd"/>
  </game>
</datafile>"#;
    let dat = DatFile::load(doc).unwrap();
    assert_eq!(dat.games.len(), 1);
    assert_eq!(dat.games[0].rom.name, "a.gg");
}

#[test]
fn missing_digest_fails_load_entirely() {
    // the second record has no digest: nothing at all is returned
    let doc = r#"<datafile>
  <game>
    <category>Games</category>
    <rom name="a.nes" size="1" sha1="aa"/>
  </game>
  <game>
    <category>Games</category>
    <rom name="b.nes" size="2"/>
  </game>
</datafile>"#;
    assert!(DatFile::load(doc).is_err());
}

#[test]
fn missing_size_fails_load() {
    let doc = r#"<datafile><game><category>G</category><rom name="a.nes" sha1="aa"/></game></datafile>"#;
    assert!(DatFile::load(doc).is_err());
}

#[test]
fn missing_name_fails_load() {
    let doc = r#"<datafile><game><category>G</category><rom size="1" sha1="aa"/></game></datafile>"#;
    assert!(DatFile::load(doc).is_err());
}

#[test]
fn missing_category_fails_load() {
    let doc = r#"<datafile><game><rom name="a.nes" size="1" sha1="aa"/></game></datafile>"#;
    assert!(DatFile::load(doc).is_err());
}

#[test]
fn unparsable_size_fails_load() {
    let doc = r#"<datafile><game><category>G</category><rom name="a.nes" size="big" sha1="aa"/></game></datafile>"#;
    assert!(DatFile::load(doc).is_err());
    let doc2 = r#"<datafile><game><category>G</category><rom name="a.nes" size="18446744073709551616" sha1="aa"/></game></datafile>"#;
    assert!(DatFile::load(doc2).is_err());
}

#[test]
fn truncated_document_fails_load() {
    let doc = r#"<datafile><game><category>G</category>"#;
    assert!(DatFile::load(doc).is_err());
}

#[test]
fn wrong_root_element_fails_load() {
    let doc = r#"<catalog><game><category>G</category><rom name="a" size="1" sha1="aa"/></game></catalog>"#;
    assert!(DatFile::load(doc).is_err());
}

#[test]
fn empty_datafile_loads_with_no_entries() {
    let dat = DatFile::load("<datafile></datafile>").unwrap();
    assert_eq!(dat.games.len(), 0);
}

#[test]
fn single_quoted_attributes_are_accepted() {
    let doc = "<datafile><game><category>G</category><rom name='a.md' size='42' sha1='ee'/></game></datafile>";
    let dat = DatFile::load(doc).unwrap();
    assert_eq!(dat.games[0].rom.name, "a.md");
    assert_eq!(dat.games[0].rom.size, 42);
}

#[test]
fn parse_u64_reads_decimal_exactly() {
    assert_eq!(parse_u64("0"), Some(0));
    assert_eq!(parse_u64("131088"), Some(131088));
    assert_eq!(parse_u64("18446744073709551615"), Some(u64::MAX));
    assert_eq!(parse_u64("18446744073709551616"), None);
    assert_eq!(parse_u64(""), None);
    assert_eq!(parse_u64("12a"), None);
    assert_eq!(parse_u64("-1"), None);
}
