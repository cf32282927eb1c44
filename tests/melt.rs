use std::collections::HashMap;
use std::io::Write;

use rakaly::{Encoding, Game, MeltedBuffer, MeltedBufferResult, PdsFile, PdsFileResult};

const DATE: [u8; 2] = [0x4d, 0x28];
const EQUALS: [u8; 2] = [0x01, 0x00];
const OPEN: [u8; 2] = [0x03, 0x00];
const CLOSE: [u8; 2] = [0x04, 0x00];
const I32: [u8; 2] = [0x0c, 0x00];
const UNKNOWN: [u8; 2] = [0xff, 0xff];

fn date_tokens() -> HashMap<u16, String> {
    let mut tokens = HashMap::new();
    tokens.insert(0x284d, String::from("date"));
    tokens
}

fn binary_body(magic: &[u8]) -> Vec<u8> {
    let mut data = magic.to_vec();
    data.extend_from_slice(&DATE);
    data.extend_from_slice(&EQUALS);
    data.extend_from_slice(&I32);
    data.extend_from_slice(&5i32.to_le_bytes());
    data
}

fn array_with_unknown(magic: &[u8]) -> Vec<u8> {
    let mut data = magic.to_vec();
    data.extend_from_slice(&DATE);
    data.extend_from_slice(&EQUALS);
    data.extend_from_slice(&OPEN);
    data.extend_from_slice(&UNKNOWN);
    data.extend_from_slice(&CLOSE);
    data
}

fn zip_of(entries: &[(&str, &[u8])]) -> Vec<u8> {
    let mut writer = zip::ZipWriter::new(std::io::Cursor::new(Vec::new()));
    let options =
        zip::write::FileOptions::default().compression_method(zip::CompressionMethod::Deflated);
    for (name, content) in entries {
        writer.start_file(*name, options).unwrap();
        writer.write_all(content).unwrap();
    }
    writer.finish().unwrap().into_inner()
}

fn melt_bytes(melted: &MeltedBuffer) -> Vec<u8> {
    let mut out = vec![0u8; melted.len()];
    assert_eq!(melted.write_data(&mut out), melted.len());
    out
}

fn open(game: Game, data: &[u8]) -> PdsFile<'_> {
    match PdsFile::open(game, data) {
        Ok(file) => file,
        Err(e) => panic!("open failed: {}", rakaly::PdsError::from(&e).msg()),
    }
}

fn ck3_id_line(kind: &str) -> Vec<u8> {
    format!("SAV01{}1234abcd00000000\n", kind).into_bytes()
}

#[test]
fn plaintext_ck3_save_is_verbatim() {
    let mut data = ck3_id_line("00");
    data.extend_from_slice(b"date=867.1.1\n");
    let file = open(Game::Ck3, &data);
    assert_eq!(file.encoding_of(), Encoding::Text);
    assert!(!file.is_binary());
    let melted = file.melt_file(&HashMap::new()).unwrap();
    assert!(melted.is_verbatim());
    assert_eq!(melted.len(), 0);
    assert!(!melted.has_unknown_tokens());
}

#[test]
fn plaintext_eu4_save_is_verbatim() {
    let data = b"EU4txt\ndate=1444.11.11\n";
    let file = open(Game::Eu4, data);
    assert_eq!(file.encoding_of(), Encoding::Text);
    let melted = file.melt_file(&HashMap::new()).unwrap();
    assert!(melted.is_verbatim());
    assert_eq!(melted.len(), 0);
}

#[test]
fn plaintext_hoi4_save_is_verbatim() {
    let data = b"HOI4txt\ndate=\"1936.1.1.12\"\n";
    let file = open(Game::Hoi4, data);
    assert_eq!(file.encoding_of(), Encoding::Text);
    assert!(file.melt_file(&HashMap::new()).unwrap().is_verbatim());
}

#[test]
fn zipped_binary_eu4_save_stringifies_unknown_array_value() {
    let entry = array_with_unknown(b"EU4bin");
    let data = zip_of(&[("gamestate", &entry)]);
    let file = open(Game::Eu4, &data);
    assert_eq!(file.encoding_of(), Encoding::BinaryZip);
    assert!(file.is_binary());
    let melted = file.melt_file(&date_tokens()).unwrap();
    assert!(matches!(melted, MeltedBuffer::Binary { .. }));
    assert!(melted.has_unknown_tokens());
    let text = String::from_utf8(melt_bytes(&melted)).unwrap();
    assert!(text.starts_with("EU4txt"));
    assert!(text.contains("date="));
    assert!(text.contains("__unknown_0xffff"));
}

#[test]
fn unknown_token_sets_flag() {
    let data = binary_body(b"EU4bin");
    let file = open(Game::Eu4, &data);
    assert_eq!(file.encoding_of(), Encoding::Binary);
    let melted = file.melt_file(&HashMap::new()).unwrap();
    assert!(melted.has_unknown_tokens());
    let text = String::from_utf8(melt_bytes(&melted)).unwrap();
    assert!(text.contains("__unknown_0x284d"));
}

#[test]
fn known_tokens_leave_flag_clear() {
    let data = binary_body(b"EU4bin");
    let file = open(Game::Eu4, &data);
    let melted = file.melt_file(&date_tokens()).unwrap();
    assert!(!melted.has_unknown_tokens());
    let text = String::from_utf8(melt_bytes(&melted)).unwrap();
    assert!(text.starts_with("EU4txt"));
    assert!(text.contains("date=5"));
    assert!(!text.contains("__unknown"));
}

#[test]
fn hoi4_binary_melts_to_text() {
    let data = binary_body(b"HOI4bin");
    let file = open(Game::Hoi4, &data);
    assert_eq!(file.encoding_of(), Encoding::Binary);
    assert!(file.is_binary());
    let melted = file.melt_file(&date_tokens()).unwrap();
    assert!(!melted.is_verbatim());
    assert!(!melted.has_unknown_tokens());
    let text = String::from_utf8(melt_bytes(&melted)).unwrap();
    assert!(text.starts_with("HOI4txt"));
    assert!(text.contains("date"));
}

#[test]
fn melted_binary_reopens_as_verbatim() {
    for (game, magic) in [(Game::Eu4, &b"EU4bin"[..]), (Game::Hoi4, &b"HOI4bin"[..])] {
        let data = binary_body(magic);
        let melted = open(game, &data).melt_file(&date_tokens()).unwrap();
        let out = melt_bytes(&melted);
        let again = open(game, &out);
        assert_eq!(again.encoding_of(), Encoding::Text);
        let second = again.melt_file(&date_tokens()).unwrap();
        assert!(second.is_verbatim());
        let third = open(game, &out).melt_file(&date_tokens()).unwrap();
        assert!(third.is_verbatim());
    }
}

#[test]
fn verbatim_reopens_as_verbatim() {
    let data = b"EU4txt\nplayer=\"ENG\"\n";
    let first = open(Game::Eu4, data).melt_file(&HashMap::new()).unwrap();
    assert!(first.is_verbatim());
    let second = open(Game::Eu4, data).melt_file(&HashMap::new()).unwrap();
    assert!(second.is_verbatim());
}

#[test]
fn zipped_text_eu4_gets_text_header() {
    let data = zip_of(&[
        ("meta", b"EU4txt\ndate=1444.11.11\n"),
        ("gamestate", b"EU4txt\nplayer=\"ENG\"\n"),
    ]);
    let file = open(Game::Eu4, &data);
    assert_eq!(file.encoding_of(), Encoding::TextZip);
    assert!(!file.is_binary());
    let melted = file.melt_file(&HashMap::new()).unwrap();
    match &melted {
        MeltedBuffer::Text { header, body } => {
            assert_eq!(header.as_slice(), b"EU4txt");
            assert_eq!(body.as_slice(), b"\ndate=1444.11.11\n\nplayer=\"ENG\"\n");
        }
        _ => panic!("expected the text shape"),
    }
    let out = melt_bytes(&melted);
    assert_eq!(out.as_slice(), b"EU4txt\ndate=1444.11.11\n\nplayer=\"ENG\"\n");
    assert!(open(Game::Eu4, &out).melt_file(&HashMap::new()).unwrap().is_verbatim());
}

#[test]
fn zipped_text_ck3_gets_text_header() {
    let mut data = ck3_id_line("02");
    data.extend_from_slice(&zip_of(&[("gamestate", b"date=867.1.1\n")]));
    let file = open(Game::Ck3, &data);
    assert_eq!(file.encoding_of(), Encoding::TextZip);
    let melted = file.melt_file(&HashMap::new()).unwrap();
    match &melted {
        MeltedBuffer::Text { header, body } => {
            assert_eq!(header.as_slice(), b"SAV01001234abcd00000000\n");
            assert_eq!(body.as_slice(), b"date=867.1.1\n");
        }
        _ => panic!("expected the text shape"),
    }
    let out = melt_bytes(&melted);
    let again = open(Game::Ck3, &out);
    assert_eq!(again.encoding_of(), Encoding::Text);
}

#[test]
fn binary_ck3_melts_with_id_line() {
    let mut data = ck3_id_line("01");
    data.extend_from_slice(&binary_body(b"")[..]);
    let file = open(Game::Ck3, &data);
    assert_eq!(file.encoding_of(), Encoding::Binary);
    let melted = file.melt_file(&HashMap::new()).unwrap();
    assert!(melted.has_unknown_tokens());
    let text = melt_bytes(&melted);
    assert!(text.starts_with(b"SAV"));
}

#[test]
fn binary_imperator_melts_with_id_line() {
    let mut data = ck3_id_line("01");
    data.extend_from_slice(&binary_body(b"")[..]);
    let file = open(Game::Imperator, &data);
    assert!(file.is_binary());
    let melted = file.melt_file(&date_tokens()).unwrap();
    assert!(!melted.has_unknown_tokens());
    assert!(melt_bytes(&melted).starts_with(b"SAV"));
}

#[test]
fn plaintext_imperator_is_verbatim() {
    let mut data = ck3_id_line("00");
    data.extend_from_slice(b"date=450.10.1\n");
    let file = open(Game::Imperator, &data);
    assert_eq!(file.encoding_of(), Encoding::Text);
    assert!(file.melt_file(&HashMap::new()).unwrap().is_verbatim());
}

#[test]
fn binary_never_melts_verbatim() {
    let data = binary_body(b"EU4bin");
    let file = open(Game::Eu4, &data);
    assert!(file.is_binary());
    match file.melt(&HashMap::new()) {
        MeltedBufferResult::Value(m) => assert!(!m.is_verbatim()),
        MeltedBufferResult::Failure(_) => panic!("melt failed"),
    }
}

#[test]
fn metadata_support_per_game() {
    let hoi4 = b"HOI4txt\na=b\n";
    assert!(open(Game::Hoi4, hoi4).meta().is_none());
    let eu4_text = b"EU4txt\na=b\n";
    assert!(open(Game::Eu4, eu4_text).meta().is_none());
    let mut ck3 = ck3_id_line("00");
    ck3.extend_from_slice(b"a=b\n");
    let ck3_file = open(Game::Ck3, &ck3);
    let meta = ck3_file.meta().unwrap();
    assert!(meta.melt_meta(&HashMap::new()).unwrap().is_verbatim());
}

#[test]
fn eu4_zip_metadata_melts() {
    let meta_entry = binary_body(b"EU4bin");
    let game_entry = array_with_unknown(b"EU4bin");
    let data = zip_of(&[("meta", &meta_entry), ("gamestate", &game_entry)]);
    let file = open(Game::Eu4, &data);
    let meta = file.meta().unwrap();
    let melted = meta.melt_meta(&date_tokens()).unwrap();
    assert!(!melted.has_unknown_tokens());
    let text = String::from_utf8(melt_bytes(&melted)).unwrap();
    assert!(text.starts_with("EU4txt"));
    assert!(text.contains("date=5"));
    let whole = file.melt_file(&date_tokens()).unwrap();
    assert!(whole.has_unknown_tokens());
}

#[test]
fn eu4_zip_text_metadata_gets_header() {
    let data = zip_of(&[("meta", b"EU4txt\ndate=1444.11.11\n"), ("gamestate", b"EU4txt\na=b\n")]);
    let meta = open(Game::Eu4, &data).meta().unwrap();
    match meta.melt_meta(&HashMap::new()).unwrap() {
        MeltedBuffer::Text { header, body } => {
            assert_eq!(header.as_slice(), b"EU4txt");
            assert_eq!(body.as_slice(), b"\ndate=1444.11.11\n");
        }
        _ => panic!("expected the text shape"),
    }
}

#[test]
fn eu4_zip_without_meta_entry_is_unsupported() {
    let entry = binary_body(b"EU4bin");
    let data = zip_of(&[("gamestate", &entry)]);
    let meta = open(Game::Eu4, &data).meta().unwrap();
    match meta.melt(&HashMap::new()) {
        MeltedBufferResult::Failure(e) => {
            let msg = rakaly::PdsError::from(&e);
            assert_eq!(msg.msg(), "unsupported operation: zip without a meta entry");
        }
        MeltedBufferResult::Value(_) => panic!("expected an error"),
    }
}

#[test]
fn open_result_for_each_game() {
    let mut ck3 = ck3_id_line("00");
    ck3.extend_from_slice(b"a=b\n");
    let result = PdsFileResult::open(Game::Ck3, &ck3);
    assert!(!result.is_err());
    let result = PdsFileResult::open(Game::Hoi4, b"nothing");
    assert!(result.is_err());
}

#[test]
fn binary_ck3_metadata_melts() {
    let mut data = b"SAV01011234abcd0000000a\n".to_vec();
    data.extend_from_slice(&binary_body(b""));
    let file = open(Game::Ck3, &data);
    assert!(file.is_binary());
    let meta = file.meta().unwrap();
    let melted = meta.melt_meta(&date_tokens()).unwrap();
    assert!(matches!(melted, MeltedBuffer::Binary { .. }));
    assert!(!melted.has_unknown_tokens());
    let text = String::from_utf8(melt_bytes(&melted)).unwrap();
    assert!(text.starts_with("SAV"));
    assert!(text.contains("date"));
}

#[test]
fn binary_imperator_metadata_flags_unknown() {
    let mut data = b"SAV01011234abcd0000000a\n".to_vec();
    data.extend_from_slice(&binary_body(b""));
    let meta = open(Game::Imperator, &data).meta().unwrap();
    let melted = meta.melt_meta(&HashMap::new()).unwrap();
    assert!(melted.has_unknown_tokens());
    assert!(melt_bytes(&melted).starts_with(b"SAV"));
}

#[test]
fn zipped_text_imperator_gets_text_header() {
    let mut data = ck3_id_line("04");
    data.extend_from_slice(&zip_of(&[("gamestate", b"date=450.10.1\n")]));
    let file = open(Game::Imperator, &data);
    assert_eq!(file.encoding_of(), Encoding::TextZip);
    let out = melt_bytes(&file.melt_file(&HashMap::new()).unwrap());
    assert_eq!(out.as_slice(), b"SAV01001234abcd00000000\ndate=450.10.1\n");
    let meta = file.meta().unwrap();
    match meta.melt_meta(&HashMap::new()).unwrap() {
        MeltedBuffer::Text { header, body } => {
            assert_eq!(header.as_slice(), b"SAV01001234abcd00000000\n");
            assert!(body.is_empty());
        }
        _ => panic!("expected the text shape"),
    }
}

#[test]
fn hoi4_unknown_token_writes_placeholder() {
    let data = array_with_unknown(b"HOI4bin");
    let file = open(Game::Hoi4, &data);
    let melted = file.melt_file(&date_tokens()).unwrap();
    assert!(melted.has_unknown_tokens());
    let text = String::from_utf8(melt_bytes(&melted)).unwrap();
    assert!(text.contains("__unknown_0xffff"));
}

/// Sets the stored size of every entry in the central directory of `zip`.
fn corrupt_stored_sizes(zip: &mut [u8], size: u32) {
    let mut i = 0;
    while i + 24 <= zip.len() {
        if zip[i..i + 4] == [0x50, 0x4b, 0x01, 0x02] {
            zip[i + 20..i + 24].copy_from_slice(&size.to_le_bytes());
        }
        i += 1;
    }
}

/// Sets the stored size of the entry named `name` in the central directory of
/// `zip`.
fn corrupt_stored_size_of(zip: &mut [u8], name: &[u8], size: u32) {
    let mut i = 0;
    while i + 46 <= zip.len() {
        if zip[i..i + 4] == [0x50, 0x4b, 0x01, 0x02] {
            let len = u16::from_le_bytes([zip[i + 28], zip[i + 29]]) as usize;
            if &zip[i + 46..i + 46 + len] == name {
                zip[i + 20..i + 24].copy_from_slice(&size.to_le_bytes());
            }
        }
        i += 1;
    }
}

#[test]
fn eu4_zip_reaching_past_its_bytes_is_an_internal_fault() {
    let entry = binary_body(b"EU4bin");
    let mut data = zip_of(&[("gamestate", &entry)]);
    corrupt_stored_sizes(&mut data, 0x7fff_ffff);
    match PdsFile::open(Game::Eu4, &data) {
        Err(e) => assert!(e.is_panic()),
        Ok(_) => panic!("a broken zip opened"),
    }
}

#[test]
fn eu4_zip_entry_shorter_than_magic_is_an_internal_fault_on_melt() {
    let meta = binary_body(b"EU4bin");
    let data = zip_of(&[("meta", &meta), ("ai", b"EU4")]);
    let file = open(Game::Eu4, &data);
    assert_eq!(file.encoding_of(), Encoding::BinaryZip);
    match file.melt_file(&HashMap::new()) {
        Err(e) => assert!(e.is_panic()),
        Ok(_) => panic!("a truncated entry melted"),
    }
}

#[test]
fn unread_eu4_zip_entry_does_not_block_open() {
    let meta = binary_body(b"EU4bin");
    let mut data = zip_of(&[("meta", &meta), ("notes", b"x")]);
    corrupt_stored_size_of(&mut data, b"notes", 0x7fff_ffff);
    let file = open(Game::Eu4, &data);
    let melted = file.melt_file(&date_tokens()).unwrap();
    assert!(String::from_utf8(melt_bytes(&melted)).unwrap().contains("date=5"));
}

#[test]
fn ck3_zip_reaching_past_its_bytes_is_an_internal_fault() {
    let mut archive = zip_of(&[("gamestate", b"date=867.1.1\n")]);
    corrupt_stored_sizes(&mut archive, 0x7fff_ffff);
    let mut data = ck3_id_line("02");
    data.extend_from_slice(&archive);
    for game in [Game::Ck3, Game::Imperator] {
        let file = open(game, &data);
        assert_eq!(file.encoding_of(), Encoding::TextZip);
        match file.melt(&HashMap::new()) {
            MeltedBufferResult::Failure(e) => {
                assert!(e.is_panic());
                assert_eq!(
                    rakaly::PdsError::from(&e).msg(),
                    "panic! Error message may be on stdout/stderr"
                );
            }
            MeltedBufferResult::Value(_) => panic!("a broken zip melted"),
        }
    }
}

#[test]
fn zipped_text_ck3_metadata_is_its_section() {
    let mut data = ck3_id_line("02");
    data.extend_from_slice(b"meta_data={ version=1 }\n");
    data.extend_from_slice(&zip_of(&[("gamestate", b"date=867.1.1\n")]));
    let file = open(Game::Ck3, &data);
    assert_eq!(file.encoding_of(), Encoding::TextZip);
    let meta = file.meta().unwrap();
    let melted = meta.melt_meta(&HashMap::new()).unwrap();
    let out = melt_bytes(&melted);
    assert_eq!(out.as_slice(), b"SAV01001234abcd00000000\nmeta_data={ version=1 }\n");
    assert!(open(Game::Ck3, &out).melt_file(&HashMap::new()).unwrap().is_verbatim());
}
