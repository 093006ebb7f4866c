use std::collections::BTreeMap;
use std::path::PathBuf;

use cargo_embed::defmt::{
    check_locations, load_defmt, try_load_defmt, DefmtError, LocationInfo,
};
use defmt_decoder::Location;

const STATEMENT: &str = "{\"package\":\"p\",\"tag\":\"defmt_info\",\"data\":\"hello\",\"disambiguator\":\"1\",\"crate_name\":\"p\"}";
const INTERNED: &str = "{\"package\":\"p\",\"tag\":\"defmt_str\",\"data\":\"world\",\"disambiguator\":\"2\",\"crate_name\":\"p\"}";

fn half(bytes: &mut Vec<u8>, value: u16) {
    bytes.extend(value.to_le_bytes());
}

fn word(bytes: &mut Vec<u8>, value: u32) {
    bytes.extend(value.to_le_bytes());
}

/// A symbol: its name, its address and the index of its section.
type Symbol<'a> = (&'a str, u32, u16);

/// A section: its name, its type, its link and its contents.
struct Section {
    name: &'static str,
    kind: u32,
    link: u32,
    info: u32,
    entry: u32,
    data: Vec<u8>,
}

fn section(name: &'static str, data: Vec<u8>) -> Section {
    Section { name, kind: 1, link: 0, info: 0, entry: 0, data }
}

/// Puts together a 32 bit ELF file. The given sections come first, so that the
/// first of them has the index one.
fn elf(mut sections: Vec<Section>, symbols: &[Symbol]) -> Vec<u8> {
    let mut names = vec![0u8];
    let mut table = vec![0u8; 16];
    for (name, address, index) in symbols {
        word(&mut table, names.len() as u32);
        word(&mut table, *address);
        word(&mut table, 0);
        table.push(0x11);
        table.push(0);
        half(&mut table, *index);
        names.extend(name.bytes());
        names.push(0);
    }
    let link = sections.len() as u32 + 2;
    sections.push(Section { name: ".symtab", kind: 2, link, info: 1, entry: 16, data: table });
    sections.push(Section { kind: 3, ..section(".strtab", names) });
    let mut labels = vec![0u8];
    let mut label_offsets = Vec::new();
    for part in sections.iter().map(|part| part.name).chain(vec![".shstrtab"]) {
        label_offsets.push(labels.len() as u32);
        labels.extend(part.bytes());
        labels.push(0);
    }
    sections.push(Section { kind: 3, ..section(".shstrtab", labels) });

    let mut body = Vec::new();
    let mut headers = vec![0u8; 40];
    for (part, label) in sections.iter().zip(label_offsets) {
        word(&mut headers, label);
        word(&mut headers, part.kind);
        word(&mut headers, 0);
        word(&mut headers, 0);
        word(&mut headers, 52 + body.len() as u32);
        word(&mut headers, part.data.len() as u32);
        word(&mut headers, part.link);
        word(&mut headers, part.info);
        word(&mut headers, 1);
        word(&mut headers, part.entry);
        body.extend(&part.data);
        while body.len() % 4 != 0 {
            body.push(0);
        }
    }

    let mut file = vec![0x7f, b'E', b'L', b'F', 1, 1, 1, 0, 0, 0, 0, 0, 0, 0, 0, 0];
    half(&mut file, 2);
    half(&mut file, 40);
    word(&mut file, 1);
    word(&mut file, 0);
    word(&mut file, 0);
    word(&mut file, 52 + body.len() as u32);
    word(&mut file, 0);
    half(&mut file, 52);
    half(&mut file, 0);
    half(&mut file, 0);
    half(&mut file, 40);
    half(&mut file, sections.len() as u16 + 1);
    half(&mut file, sections.len() as u16);
    file.extend(body);
    file.extend(headers);
    file
}

const ABSOLUTE: u16 = 0xfff1;

fn uses_defmt<'a>(more: &[Symbol<'a>]) -> Vec<Symbol<'a>> {
    let mut symbols = vec![
        ("_defmt_version_ = 4", 0, ABSOLUTE),
        ("_defmt_encoding_ = raw", 0, ABSOLUTE),
    ];
    symbols.extend(more);
    symbols
}

/// The debug information of a log statement at `address` in line 7 of main.rs.
fn debug_info(address: u32) -> Vec<Section> {
    let abbreviations = vec![
        1, 0x11, 1, 0x10, 0x17, 0, 0, 2, 0x34, 0, 0x03, 0x0e, 0x6e, 0x0e, 0x3a, 0x0b, 0x3b, 0x0b,
        0x02, 0x18, 0, 0, 0,
    ];
    let mut strings = b"DEFMT_LOG_STATEMENT\0".to_vec();
    let symbol_offset = strings.len() as u32;
    strings.extend(STATEMENT.bytes());
    strings.push(0);

    let mut unit = Vec::new();
    half(&mut unit, 4);
    word(&mut unit, 0);
    unit.push(4);
    unit.push(1);
    word(&mut unit, 0);
    unit.push(2);
    word(&mut unit, 0);
    word(&mut unit, symbol_offset);
    unit.extend([1, 7, 5, 3]);
    word(&mut unit, address);
    unit.push(0);
    let mut info = Vec::new();
    word(&mut info, unit.len() as u32);
    info.extend(unit);

    let mut header = vec![1, 1, 1, 0xfb, 14, 13, 0, 1, 1, 1, 1, 0, 0, 0, 1, 0, 0, 1, 0];
    header.extend(b"main.rs\0");
    header.extend([0, 0, 0, 0]);
    let mut program = Vec::new();
    half(&mut program, 4);
    word(&mut program, header.len() as u32);
    program.extend(header);
    let mut line = Vec::new();
    word(&mut line, program.len() as u32);
    line.extend(program);

    vec![
        section(".defmt", vec![0; 16]),
        section(".debug_abbrev", abbreviations),
        section(".debug_info", info),
        section(".debug_str", strings),
        section(".debug_line", line),
    ]
}

fn location(line: u64) -> Location {
    Location { file: PathBuf::from("main.rs"), line, module: "p".to_string() }
}

#[test]
fn what_is_no_elf_file_is_not_parsed() {
    assert!(matches!(load_defmt(b"not an artifact"), Err(DefmtError::Parse(_))));
    assert!(matches!(load_defmt(&[]), Err(DefmtError::Parse(_))));
}

#[test]
fn artifacts_without_defmt_have_no_table() {
    let file = elf(vec![section(".text", vec![0; 4])], &[("main", 0, 1)]);
    assert!(matches!(load_defmt(&file), Err(DefmtError::NoTable)));
}

#[test]
fn a_wire_format_of_another_version_is_refused() {
    let symbols = [("_defmt_version_ = 1", 0, ABSOLUTE), ("_defmt_encoding_ = raw", 0, ABSOLUTE)];
    let file = elf(vec![section(".defmt", vec![])], &symbols);
    assert!(matches!(load_defmt(&file), Err(DefmtError::Parse(_))));
}

#[test]
fn an_empty_table_needs_no_locations() {
    let file = elf(vec![section(".defmt", vec![])], &uses_defmt(&[]));
    let state = load_defmt(&file).ok().unwrap();
    assert!(state.table.is_empty());
    assert!(matches!(state.locations, LocationInfo::Complete(map) if map.is_empty()));
}

#[test]
fn statements_without_debug_information_are_noticed() {
    let file = elf(vec![section(".defmt", vec![0; 16])], &uses_defmt(&[(STATEMENT, 3, 1)]));
    let state = load_defmt(&file).ok().unwrap();
    assert_eq!(state.table.indices().collect::<Vec<usize>>(), vec![3]);
    assert!(matches!(state.locations, LocationInfo::Insufficient));
}

#[test]
fn located_statements_keep_their_locations() {
    let symbols = uses_defmt(&[(STATEMENT, 3, 1), (INTERNED, 5, 1)]);
    let state = load_defmt(&elf(debug_info(3), &symbols)).ok().unwrap();
    match state.locations {
        LocationInfo::Complete(map) => {
            assert_eq!(map.keys().copied().collect::<Vec<u64>>(), vec![3]);
            assert_eq!(map[&3].line, 7);
            assert_eq!(map[&3].file, PathBuf::from("main.rs"));
            assert_eq!(map[&3].module, "");
        }
        _ => panic!("the locations were dropped"),
    }
}

#[test]
fn a_statement_without_location_drops_them_all() {
    let second = STATEMENT.replace("\"1\"", "\"3\"");
    let symbols = uses_defmt(&[(STATEMENT, 3, 1), (second.as_str(), 4, 1)]);
    let state = load_defmt(&elf(debug_info(3), &symbols)).ok().unwrap();
    assert!(matches!(state.locations, LocationInfo::Incomplete));
}

#[test]
fn broken_debug_information_is_refused() {
    let mut sections = debug_info(3);
    sections[2].data.truncate(9);
    let file = elf(sections, &uses_defmt(&[(STATEMENT, 3, 1)]));
    assert!(matches!(load_defmt(&file), Err(DefmtError::Locations(_))));
}

#[test]
fn locations_count_when_they_cover_every_statement() {
    let map = |keys: Vec<u64>| -> BTreeMap<u64, Location> {
        keys.into_iter().map(|key| (key, location(key))).collect()
    };
    assert!(matches!(
        check_locations(false, &vec![1, 2], map(vec![1, 2, 3])),
        LocationInfo::Complete(kept) if kept.len() == 3
    ));
    assert!(matches!(
        check_locations(false, &vec![1, 4], map(vec![1, 2, 3])),
        LocationInfo::Incomplete
    ));
    assert!(matches!(check_locations(false, &vec![], map(vec![])), LocationInfo::Insufficient));
    assert!(matches!(check_locations(true, &vec![], map(vec![])), LocationInfo::Complete(_)));
    assert!(matches!(check_locations(true, &vec![1], map(vec![])), LocationInfo::Incomplete));
}

#[test]
fn where_a_file_lies_in_memory_does_not_matter() {
    let file = elf(debug_info(3), &uses_defmt(&[(STATEMENT, 3, 1)]));
    for shift in 0..8 {
        let mut shifted = vec![0u8; shift];
        shifted.extend(&file);
        let state = load_defmt(&shifted[shift..]).ok().unwrap();
        match state.locations {
            LocationInfo::Complete(map) => assert_eq!(map[&3].line, 7),
            _ => panic!("the locations were dropped"),
        }
    }
}

#[test]
fn files_that_could_overflow_are_not_loaded() {
    let mut sections = debug_info(3);
    sections[2].data.extend([0x80; 8]);
    sections[2].data.push(0x40);
    let file = elf(sections, &uses_defmt(&[(STATEMENT, 3, 1)]));
    assert!(try_load_defmt(&file).is_none());

    let file = elf(debug_info(3), &uses_defmt(&[(STATEMENT, 3, 1)]));
    assert!(matches!(try_load_defmt(&file), Some(Ok(_))));
    assert!(matches!(try_load_defmt(b"not an artifact"), Some(Err(DefmtError::Parse(_)))));
    let file = elf(vec![section(".text", vec![0xff; 64])], &[("main", 0, 1)]);
    assert!(matches!(try_load_defmt(&file), Some(Err(DefmtError::NoTable))));
}

#[test]
fn the_encoding_of_frames_is_read() {
    for (symbol, recovers) in vec![("_defmt_encoding_ = raw", false), ("_defmt_encoding_ = rzcobs", true)] {
        let symbols = [("_defmt_version_ = 4", 0, ABSOLUTE), (symbol, 0, ABSOLUTE)];
        let state = load_defmt(&elf(vec![section(".defmt", vec![])], &symbols)).ok().unwrap();
        assert_eq!(state.table.encoding().can_recover(), recovers);
    }
}
