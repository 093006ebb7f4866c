//! The sections of an ELF file, as far as it takes to tell the files on which the
//! arithmetic of the defmt decoder overflows.
use vstd::prelude::*;
use vstd::string::StrSliceExecFns;

verus! {

/// How many bytes a bitflags value takes.
pub const BITFLAGS_SIZE: u64 = 16;

/// The type of a section that holds symbols.
pub const SYMBOLS: u64 = 2;

/// The section number that stands for one too large for its field.
pub const LARGE_INDEX: u64 = 0xffff;

/// The number that some bytes stand for.
pub open spec fn number(bytes: Seq<u8>, big_endian: bool) -> nat
    decreases bytes.len(),
{
    if bytes.len() == 0 {
        0
    } else if big_endian {
        256 * number(bytes.drop_last(), big_endian) + bytes.last() as nat
    } else {
        256 * number(bytes.drop_first(), big_endian) + bytes.first() as nat
    }
}

/// Whether a file begins as an ELF file does.
pub open spec fn is_elf(file: Seq<u8>) -> bool {
    &&& file.len() >= file_header_size(file)
    &&& file[0] == 0x7f && file[1] == 0x45 && file[2] == 0x4c && file[3] == 0x46
}

/// Whether addresses take eight bytes rather than four.
pub open spec fn is_wide(file: Seq<u8>) -> bool {
    file[4] == 2
}

/// Whether numbers begin with their high byte.
pub open spec fn is_big_endian(file: Seq<u8>) -> bool {
    file[5] == 2
}

/// The first of two numbers for a file with wide addresses, else the second.
pub open spec fn by_width(file: Seq<u8>, wide: int, narrow: int) -> int {
    if is_wide(file) {
        wide
    } else {
        narrow
    }
}

/// The size of the header of a file.
pub open spec fn file_header_size(file: Seq<u8>) -> int {
    by_width(file, 64, 52)
}

/// How many bytes an address takes.
pub open spec fn address_width(file: Seq<u8>) -> int {
    by_width(file, 8, 4)
}

/// The number in the `width` bytes from `at` on.
pub open spec fn field(file: Seq<u8>, at: int, width: int) -> u64 {
    number(file.subrange(at, at + width), is_big_endian(file)) as u64
}

/// What the header of a section says.
#[derive(Clone, Copy, Debug, PartialEq, Eq, Structural)]
pub struct Section {
    /// Where its name stands among the names of sections.
    pub name: u64,
    pub kind: u64,
    /// Where its contents begin in the file.
    pub offset: u64,
    pub size: u64,
    pub link: u64,
}

/// Where the headers of the sections begin.
pub open spec fn sections_at(file: Seq<u8>) -> u64 {
    field(file, by_width(file, 40, 32), address_width(file))
}

/// Where the header of section `n` begins.
pub open spec fn section_at(file: Seq<u8>, n: int) -> int {
    sections_at(file) + by_width(file, 64 * n, 40 * n)
}

/// The header of section `n`.
pub open spec fn section(file: Seq<u8>, n: int) -> Section {
    let at = section_at(file, n);
    let width = address_width(file);
    Section {
        name: field(file, at, 4),
        kind: field(file, at + 4, 4),
        offset: field(file, at + by_width(file, 24, 16), width),
        size: field(file, at + by_width(file, 32, 20), width),
        link: field(file, at + by_width(file, 40, 24), 4),
    }
}

/// How many sections there are. A number too large for its field is the size of
/// section zero.
pub open spec fn section_count(file: Seq<u8>) -> u64 {
    let written = field(file, by_width(file, 60, 48), 2);
    if written > 0 {
        written
    } else {
        section(file, 0).size
    }
}

/// Which section holds the names of sections. A number too large for its field is
/// the link of section zero.
pub open spec fn names_index(file: Seq<u8>) -> u64 {
    let written = field(file, by_width(file, 62, 50), 2);
    if written != LARGE_INDEX {
        written
    } else {
        section(file, 0).link
    }
}

/// Whether a file has sections that can be read.
pub open spec fn has_sections(file: Seq<u8>) -> bool {
    &&& is_elf(file)
    &&& field(file, by_width(file, 58, 46), 2) == by_width(file, 64, 40)
    &&& sections_at(file) > 0
    &&& section_at(file, 1) <= file.len()
    &&& section_at(file, section_count(file) as int) <= file.len()
    &&& names_index(file) < section_count(file)
}

/// Whether section `n` has this name.
pub open spec fn is_named(file: Seq<u8>, n: int, name: Seq<char>) -> bool {
    let at = section(file, names_index(file) as int).offset + section(file, n).name;
    &&& at + name.len() < file.len()
    &&& forall|k: int| 0 <= k < name.len() ==> file[at + k] as nat == #[trigger] name[k] as nat
    &&& file[at + name.len()] == 0
}

/// Whether the contents of a section lie in the file.
pub open spec fn is_inside(file: Seq<u8>, section: Section) -> bool {
    section.offset + section.size <= file.len()
}

/// Whether the symbol at `at` could be a bitflags value whose end no machine word
/// can hold: its size is that of a bitflags value, its address is at the end of
/// memory, and its section may be the one for defmt.
pub open spec fn passes_the_end(file: Seq<u8>, at: int) -> bool {
    let width = address_width(file);
    let address = field(file, at + by_width(file, 8, 4), width);
    let size = field(file, at + by_width(file, 16, 8), width);
    let home = field(file, at + by_width(file, 6, 14), 2);
    &&& size == BITFLAGS_SIZE
    &&& address as int % (usize::MAX + 1) + BITFLAGS_SIZE > usize::MAX
    &&& home == LARGE_INDEX || home < section_count(file) && is_named(
        file,
        home as int,
        ".defmt"@,
    )
}

/// Where symbol `n` of a section begins.
pub open spec fn symbol_at(file: Seq<u8>, section: Section, n: int) -> int {
    section.offset + by_width(file, 24 * n, 16 * n)
}

/// Whether section `n` holds symbols, one of which passes the end of memory.
pub open spec fn has_symbol_past_the_end(file: Seq<u8>, n: int) -> bool {
    let section = section(file, n);
    &&& section.kind == SYMBOLS
    &&& is_inside(file, section)
    &&& exists|k: int|
        0 <= k && symbol_at(file, section, k + 1) <= section.offset + section.size
            && #[trigger] passes_the_end(file, symbol_at(file, section, k))
}

/// Whether some symbol could be a bitflags value that ends past the largest address.
pub open spec fn has_value_past_the_end(file: Seq<u8>) -> bool {
    &&& has_sections(file)
    &&& exists|n: int| 0 <= n < section_count(file) && #[trigger] has_symbol_past_the_end(file, n)
}

/// Bytes that make the arithmetic on debug information overflow, or may do so.
#[derive(Clone, Copy, Debug, PartialEq, Eq, Structural)]
pub enum Pattern {
    /// A number of seven bits a byte, the low ones first, that takes more than eight
    /// bytes: each but the last has its top bit set.
    LongNumber,
    /// Such a number whose low 32 bits are all zero.
    WholeWords,
    /// A file index that is written in eight bytes: the attribute `DW_AT_decl_file`
    /// with the form `DW_FORM_data8`, or with one that only the value tells.
    WideFileIndex,
}

impl Pattern {
    /// How many bytes show the pattern.
    pub open spec fn len(self) -> int {
        match self {
            Pattern::LongNumber => 9,
            Pattern::WholeWords => 5,
            Pattern::WideFileIndex => 2,
        }
    }

    /// Whether the bytes from `at` on show the pattern.
    pub open spec fn is_at(self, file: Seq<u8>, at: int) -> bool {
        match self {
            Pattern::LongNumber => {
                &&& forall|k: int| at <= k < at + 8 ==> #[trigger] file[k] >= 0x80
                &&& file[at + 8] != 0
            },
            Pattern::WholeWords => {
                &&& forall|k: int| at <= k < at + 4 ==> #[trigger] file[k] == 0x80
                &&& file[at + 4] % 0x10 == 0
            },
            Pattern::WideFileIndex => {
                ||| file[at] == 0x3a && (file[at + 1] % 0x80 == 0x07 || file[at + 1] % 0x80 == 0x16)
                ||| file[at] == 0xba && file[at + 1] % 0x80 == 0
            },
        }
    }
}

/// Whether the contents of section `n` show a pattern.
pub open spec fn section_shows(file: Seq<u8>, n: int, pattern: Pattern) -> bool {
    let section = section(file, n);
    &&& is_inside(file, section)
    &&& exists|at: int|
        section.offset <= at && at + pattern.len() <= section.offset + section.size
            && #[trigger] pattern.is_at(file, at)
}

/// Whether some section of this name shows a pattern.
pub open spec fn shows(file: Seq<u8>, name: Seq<char>, pattern: Pattern) -> bool {
    &&& has_sections(file)
    &&& exists|n: int|
        0 <= n < section_count(file) && #[trigger] is_named(file, n, name) && section_shows(
            file,
            n,
            pattern,
        )
}

/// Whether reading the debug information could overflow. An index or a size that is
/// a long number could, when it is multiplied. Where words have 32 bits a file index
/// could, whose low bits count as zero and are made one less.
pub open spec fn has_large_number(file: Seq<u8>) -> bool {
    ||| shows(file, ".debug_info"@, Pattern::LongNumber)
    ||| shows(file, ".debug_line"@, Pattern::LongNumber)
    ||| usize::BITS == 32 && {
        ||| shows(file, ".debug_info"@, Pattern::WholeWords)
        ||| shows(file, ".debug_line"@, Pattern::WholeWords)
        ||| shows(file, ".debug_abbrev"@, Pattern::WholeWords)
        ||| shows(file, ".debug_abbrev"@, Pattern::WideFileIndex)
    }
}

/// One more than the largest number of so many bytes.
spec fn limit(width: nat) -> nat
    decreases width,
{
    if width == 0 {
        1
    } else {
        256 * limit((width - 1) as nat)
    }
}

proof fn lemma_limit_grows(width: nat, more: nat)
    requires
        width <= more,
    ensures
        0 < limit(width) <= limit(more),
    decreases more,
{
    if width < more {
        lemma_limit_grows(width, (more - 1) as nat);
    } else if width > 0 {
        lemma_limit_grows((width - 1) as nat, (width - 1) as nat);
    }
}

proof fn lemma_number_below_limit(bytes: Seq<u8>, big_endian: bool)
    ensures
        number(bytes, big_endian) < limit(bytes.len()),
    decreases bytes.len(),
{
    if bytes.len() > 0 {
        if big_endian {
            lemma_number_below_limit(bytes.drop_last(), big_endian);
        } else {
            lemma_number_below_limit(bytes.drop_first(), big_endian);
        }
    }
}

/// Reads the number in the `width` bytes from `at` on.
fn read_field(file: &[u8], at: usize, width: usize) -> (value: u64)
    requires
        width <= 8,
        6 <= file@.len(),
        at + width <= file@.len(),
    ensures
        value == field(file@, at as int, width as int),
{
    let length: usize = file.len();
    let big_endian = file[5] == 2;
    let mut value: u64 = 0;
    let mut done: usize = 0;
    while done < width
        invariant
            done <= width <= 8,
            at + width <= length,
            length == file@.len(),
            big_endian ==> value == number(file@.subrange(at as int, at + done), big_endian),
            !big_endian ==> value == number(
                file@.subrange(at + width - done, at + width),
                big_endian,
            ),
        decreases width - done,
    {
        let index: usize = if big_endian {
            at + done
        } else {
            at + (width - 1 - done)
        };
        proof {
            let read = if big_endian {
                file@.subrange(at as int, at + done + 1)
            } else {
                file@.subrange(at + width - done - 1, at + width)
            };
            if big_endian {
                assert(read.drop_last() =~= file@.subrange(at as int, at + done));
            } else {
                assert(read.drop_first() =~= file@.subrange(at + width - done, at + width));
            }
            lemma_number_below_limit(read, big_endian);
            lemma_limit_grows(read.len(), 8);
            reveal_with_fuel(limit, 9);
        }
        value = value * 256 + file[index] as u64;
        done = done + 1;
    }
    value
}

/// What it takes to read the sections of a file.
struct Sections {
    wide: bool,
    at: usize,
    count: usize,
    /// Where the names of sections begin.
    names: u64,
}

impl Sections {
    spec fn describes(self, file: Seq<u8>) -> bool {
        &&& has_sections(file)
        &&& self.wide == is_wide(file)
        &&& self.at == sections_at(file)
        &&& self.count == section_count(file)
        &&& self.names == section(file, names_index(file) as int).offset
    }
}

fn read_section(file: &[u8], wide: bool, at: usize, n: usize) -> (found: Section)
    requires
        is_elf(file@),
        wide == is_wide(file@),
        at == sections_at(file@),
        section_at(file@, n + 1) <= file@.len(),
    ensures
        found == section(file@, n as int),
{
    let _length: usize = file.len();
    let start: usize = at + if wide {
        64 * n
    } else {
        40 * n
    };
    if wide {
        Section {
            name: read_field(file, start, 4),
            kind: read_field(file, start + 4, 4),
            offset: read_field(file, start + 24, 8),
            size: read_field(file, start + 32, 8),
            link: read_field(file, start + 40, 4),
        }
    } else {
        Section {
            name: read_field(file, start, 4),
            kind: read_field(file, start + 4, 4),
            offset: read_field(file, start + 16, 4),
            size: read_field(file, start + 20, 4),
            link: read_field(file, start + 24, 4),
        }
    }
}

/// Finds the sections of a file.
fn find_sections(file: &[u8]) -> (found: Option<Sections>)
    ensures
        match found {
            Some(sections) => sections.describes(file@),
            None => !has_sections(file@),
        },
{
    let length: usize = file.len();
    if length < 52 {
        return None;
    }
    if file[0] != 0x7f || file[1] != 0x45 || file[2] != 0x4c || file[3] != 0x46 {
        return None;
    }
    let wide = file[4] == 2;
    if wide && length < 64 {
        return None;
    }
    let header: u64 = if wide {
        64
    } else {
        40
    };
    let header_size: u64 = read_field(
        file,
        if wide {
            58
        } else {
            46
        },
        2,
    );
    if header_size != header {
        return None;
    }
    let start: u64 = if wide {
        read_field(file, 40, 8)
    } else {
        read_field(file, 32, 4)
    };
    if start == 0 || start > length as u64 || length as u64 - start < header {
        return None;
    }
    let at: usize = start as usize;
    let first = read_section(file, wide, at, 0);
    let written: u64 = read_field(
        file,
        if wide {
            60
        } else {
            48
        },
        2,
    );
    let count: u64 = if written > 0 {
        written
    } else {
        first.size
    };
    let table_size: u128 = if wide {
        64 * count as u128
    } else {
        40 * count as u128
    };
    if table_size > (length - at) as u128 {
        return None;
    }
    let written: u64 = read_field(
        file,
        if wide {
            62
        } else {
            50
        },
        2,
    );
    let names: u64 = if written != LARGE_INDEX {
        written
    } else {
        first.link
    };
    if names >= count {
        return None;
    }
    let names = read_section(file, wide, at, names as usize).offset;
    Some(Sections { wide, at, count: count as usize, names })
}

/// Reads the header of section `n`.
fn section_of(file: &[u8], sections: &Sections, n: usize) -> (found: Section)
    requires
        sections.describes(file@),
        n < sections.count,
    ensures
        found == section(file@, n as int),
{
    read_section(file, sections.wide, sections.at, n)
}

/// Tells whether a section has a name.
fn has_name(file: &[u8], sections: &Sections, n: usize, name: &str) -> (named: bool)
    requires
        sections.describes(file@),
        n < sections.count,
    ensures
        named == is_named(file@, n as int, name@),
{
    let length: usize = file.len();
    let size: usize = name.unicode_len();
    let start: u128 = sections.names as u128 + section_of(file, sections, n).name as u128;
    if start + size as u128 >= length as u128 {
        return false;
    }
    let at: usize = start as usize;
    let mut k: usize = 0;
    while k < size
        invariant
            at == section(file@, names_index(file@) as int).offset + section(
                file@,
                n as int,
            ).name,
            at + size < length,
            length == file@.len(),
            size == name@.len(),
            k <= size,
            forall|j: int| 0 <= j < k ==> file@[at + j] as nat == #[trigger] name@[j] as nat,
        decreases size - k,
    {
        if file[at + k] as u32 != name.get_char(k) as u32 {
            assert(file@[at + k] as nat != name@[k as int] as nat);
            return false;
        }
        k = k + 1;
    }
    file[at + size] == 0
}

/// Cuts an address down to a machine word.
fn low_word(address: u64) -> (word: usize)
    ensures
        word == address as int % (usize::MAX + 1),
{
    proof {
        assert(usize::BITS == 32 ==> address as usize == address % 0x1_0000_0000) by (bit_vector);
        assert(usize::BITS == 64 ==> address as usize == address) by (bit_vector);
        if usize::BITS == 64 {
            assert(usize::MAX + 1 == 0x1_0000_0000_0000_0000int);
        } else {
            assert(usize::MAX + 1 == 0x1_0000_0000int);
        }
    }
    address as usize
}

/// Tells whether the symbol at `at` passes the end of memory.
fn symbol_passes(file: &[u8], sections: &Sections, at: usize) -> (passes: bool)
    requires
        sections.describes(file@),
        at + by_width(file@, 24, 16) <= file@.len(),
    ensures
        passes == passes_the_end(file@, at as int),
{
    let _length: usize = file.len();
    let (address, size, home): (u64, u64, u64) = if sections.wide {
        (
            read_field(file, at + 8, 8),
            read_field(file, at + 16, 8),
            read_field(file, at + 6, 2),
        )
    } else {
        (
            read_field(file, at + 4, 4),
            read_field(file, at + 8, 4),
            read_field(file, at + 14, 2),
        )
    };
    if size != BITFLAGS_SIZE || low_word(address) <= usize::MAX - BITFLAGS_SIZE as usize {
        return false;
    }
    if home == LARGE_INDEX {
        return true;
    }
    home < sections.count as u64 && has_name(file, sections, home as usize, ".defmt")
}

/// Tells whether a section holds a symbol that passes the end of memory.
fn symbols_pass(file: &[u8], sections: &Sections, n: usize) -> (found: bool)
    requires
        sections.describes(file@),
        n < sections.count,
    ensures
        found == has_symbol_past_the_end(file@, n as int),
{
    let length: usize = file.len();
    let section = section_of(file, sections, n);
    if section.kind != SYMBOLS {
        return false;
    }
    if section.offset > length as u64 || section.size > length as u64 - section.offset {
        return false;
    }
    let end: usize = (section.offset + section.size) as usize;
    let step: usize = if sections.wide {
        24
    } else {
        16
    };
    let mut at: usize = section.offset as usize;
    let ghost k: int = 0;
    while end - at >= step
        invariant
            sections.describes(file@),
            section == self::section(file@, n as int),
            section.kind == SYMBOLS,
            is_inside(file@, section),
            end == section.offset + section.size,
            step == by_width(file@, 24, 16),
            0 <= k,
            at == symbol_at(file@, section, k),
            at <= end <= file@.len(),
            forall|j: int|
                0 <= j < k ==> !#[trigger] passes_the_end(file@, symbol_at(file@, section, j)),
        decreases end - at,
    {
        if symbol_passes(file, sections, at) {
            assert(symbol_at(file@, section, k + 1) <= end);
            return true;
        }
        at = at + step;
        proof {
            k = k + 1;
        }
    }
    false
}

/// Tells whether some symbol could be a bitflags value that ends past the largest
/// address.
pub fn finds_value_past_the_end(file: &[u8]) -> (found: bool)
    ensures
        found == has_value_past_the_end(file@),
{
    let sections = match find_sections(file) {
        Some(sections) => sections,
        None => {
            return false;
        },
    };
    let mut n: usize = 0;
    while n < sections.count
        invariant
            sections.describes(file@),
            n <= sections.count,
            forall|k: int| 0 <= k < n ==> !#[trigger] has_symbol_past_the_end(file@, k),
        decreases sections.count - n,
    {
        if symbols_pass(file, &sections, n) {
            return true;
        }
        n = n + 1;
    }
    false
}

/// Tells whether the bytes from `at` on show a pattern.
fn pattern_is_at(file: &[u8], at: usize, pattern: Pattern) -> (found: bool)
    requires
        at + pattern.len() <= file@.len(),
    ensures
        found == pattern.is_at(file@, at as int),
{
    let length: usize = file.len();
    match pattern {
        Pattern::LongNumber => {
            let mut k: usize = 0;
            while k < 8
                invariant
                    pattern is LongNumber,
                    at + 9 <= length,
                    length == file@.len(),
                    k <= 8,
                    forall|j: int| at <= j < at + k ==> #[trigger] file@[j] >= 0x80,
                decreases 8 - k,
            {
                if file[at + k] < 0x80 {
                    return false;
                }
                k = k + 1;
            }
            file[at + 8] != 0
        },
        Pattern::WholeWords => {
            let zeros = file[at] == 0x80 && file[at + 1] == 0x80 && file[at + 2] == 0x80
                && file[at + 3] == 0x80;
            zeros && file[at + 4] % 0x10 == 0
        },
        Pattern::WideFileIndex => {
            let low: u8 = file[at + 1] % 0x80;
            file[at] == 0x3a && (low == 0x07 || low == 0x16) || file[at] == 0xba && low == 0
        },
    }
}

/// Tells whether the contents of a section show a pattern.
fn section_has(file: &[u8], sections: &Sections, n: usize, pattern: Pattern) -> (found: bool)
    requires
        sections.describes(file@),
        n < sections.count,
    ensures
        found == section_shows(file@, n as int, pattern),
{
    let length: usize = file.len();
    let section = section_of(file, sections, n);
    if section.offset > length as u64 || section.size > length as u64 - section.offset {
        return false;
    }
    let end: usize = (section.offset + section.size) as usize;
    let width: usize = match pattern {
        Pattern::LongNumber => 9,
        Pattern::WholeWords => 5,
        Pattern::WideFileIndex => 2,
    };
    let mut at: usize = section.offset as usize;
    while end - at >= width
        invariant
            section == self::section(file@, n as int),
            is_inside(file@, section),
            end == section.offset + section.size,
            end <= file@.len(),
            width == pattern.len(),
            section.offset <= at <= end,
            forall|k: int| section.offset <= k < at ==> !#[trigger] pattern.is_at(file@, k),
        decreases end - at,
    {
        if pattern_is_at(file, at, pattern) {
            return true;
        }
        at = at + 1;
    }
    false
}

/// Tells whether some section of this name shows a pattern.
fn named_section_has(file: &[u8], sections: &Sections, name: &str, pattern: Pattern) -> (found:
    bool)
    requires
        sections.describes(file@),
    ensures
        found == shows(file@, name@, pattern),
{
    let mut n: usize = 0;
    while n < sections.count
        invariant
            sections.describes(file@),
            n <= sections.count,
            forall|k: int|
                0 <= k < n ==> !(#[trigger] is_named(file@, k, name@) && section_shows(
                    file@,
                    k,
                    pattern,
                )),
        decreases sections.count - n,
    {
        if has_name(file, sections, n, name) && section_has(file, sections, n, pattern) {
            return true;
        }
        n = n + 1;
    }
    false
}

/// Tells whether reading the debug information could overflow.
pub fn finds_large_number(file: &[u8]) -> (found: bool)
    ensures
        found == has_large_number(file@),
{
    let sections = match find_sections(file) {
        Some(sections) => sections,
        None => {
            return false;
        },
    };
    if named_section_has(file, &sections, ".debug_info", Pattern::LongNumber)
        || named_section_has(file, &sections, ".debug_line", Pattern::LongNumber) {
        return true;
    }
    usize::BITS == 32 && (named_section_has(file, &sections, ".debug_info", Pattern::WholeWords)
        || named_section_has(file, &sections, ".debug_line", Pattern::WholeWords)
        || named_section_has(file, &sections, ".debug_abbrev", Pattern::WholeWords)
        || named_section_has(file, &sections, ".debug_abbrev", Pattern::WideFileIndex))
}

/// A byte behind a number that begins with its high byte counts one and moves the
/// others up, as does a byte before one that begins with its low byte; read from the
/// other end in the other order, bytes stand for the same number.
pub proof fn law_order_of_bytes(bytes: Seq<u8>, byte: u8)
    ensures
        number(Seq::<u8>::empty(), true) == 0,
        number(bytes.push(byte), true) == 256 * number(bytes, true) + byte,
        number(seq![byte] + bytes, false) == 256 * number(bytes, false) + byte,
        number(bytes, true) == number(bytes.reverse(), false),
    decreases bytes.len(),
{
    assert(bytes.push(byte).drop_last() =~= bytes);
    assert((seq![byte] + bytes).drop_first() =~= bytes);
    if bytes.len() > 0 {
        law_order_of_bytes(bytes.drop_last(), byte);
        assert(bytes.reverse().drop_first() =~= bytes.drop_last().reverse());
    }
}

/// The number that bytes of seven bits stand for, the low ones first, whatever the top
/// bits are.
pub open spec fn seven_bit_number(bytes: Seq<u8>) -> nat
    decreases bytes.len(),
{
    if bytes.len() == 0 {
        0
    } else {
        bytes[0] as nat % 128 + 128 * seven_bit_number(bytes.drop_first())
    }
}

proof fn lemma_zero_at_the_end(bytes: Seq<u8>)
    requires
        bytes.len() > 0,
        bytes.last() as nat % 128 == 0,
    ensures
        seven_bit_number(bytes) == seven_bit_number(bytes.drop_last()),
    decreases bytes.len(),
{
    if bytes.len() > 1 {
        lemma_zero_at_the_end(bytes.drop_first());
        assert(bytes.drop_first().drop_last() =~= bytes.drop_last().drop_first());
    } else {
        assert(seven_bit_number(bytes.drop_first()) == 0);
    }
}

/// A number of seven bits a byte that reaches 2 to the power of 56 is found as a long
/// one, wherever it stands: its bytes but the last have their top bit set.
pub proof fn law_large_numbers_are_long(file: Seq<u8>, at: int, length: int)
    requires
        0 <= at && 0 < length && at + length <= file.len(),
        forall|k: int| at <= k < at + length - 1 ==> #[trigger] file[k] >= 0x80,
        file[at + length - 1] < 0x80,
        seven_bit_number(file.subrange(at, at + length)) >= 0x100_0000_0000_0000,
    ensures
        length >= Pattern::LongNumber.len(),
        Pattern::LongNumber.is_at(file, at),
{
    let bytes = file.subrange(at, at + length);
    if length <= 8 {
        lemma_eight_bytes_are_short(bytes);
    } else if file[at + 8] == 0 {
        assert(length == 9);
        lemma_zero_at_the_end(bytes);
        lemma_eight_bytes_are_short(bytes.drop_last());
    }
}

proof fn lemma_eight_bytes_are_short(bytes: Seq<u8>)
    requires
        bytes.len() <= 8,
    ensures
        seven_bit_number(bytes) < 0x100_0000_0000_0000,
{
    reveal_with_fuel(seven_bit_number, 9);
}

/// A number of seven bits a byte, not zero, whose low 32 bits are all zero, is found as
/// such, wherever it stands: its bytes but the last have their top bit set.
pub proof fn law_whole_words_are_found(file: Seq<u8>, at: int, length: int)
    requires
        0 <= at && 0 < length && at + length <= file.len(),
        forall|k: int| at <= k < at + length - 1 ==> #[trigger] file[k] >= 0x80,
        seven_bit_number(file.subrange(at, at + length)) > 0,
        seven_bit_number(file.subrange(at, at + length)) % 0x1_0000_0000 == 0,
    ensures
        length >= Pattern::WholeWords.len(),
        Pattern::WholeWords.is_at(file, at),
{
    let bytes = file.subrange(at, at + length);
    let value = seven_bit_number(bytes);
    reveal_with_fuel(seven_bit_number, 6);
    if length >= 5 {
        let rest = seven_bit_number(
            bytes.drop_first().drop_first().drop_first().drop_first().drop_first(),
        );
        let c0 = bytes[0] as nat % 128;
        let c1 = bytes[1] as nat % 128;
        let c2 = bytes[2] as nat % 128;
        let c3 = bytes[3] as nat % 128;
        let c4 = bytes[4] as nat % 128;
        assert(value == c0 + 128 * c1 + 0x4000 * c2 + 0x20_0000 * c3 + 0x1000_0000 * c4
            + 0x8_0000_0000 * rest);
        assert(c0 == 0 && c1 == 0 && c2 == 0 && c3 == 0 && c4 % 16 == 0);
        assert(bytes[4] == file[at + 4]);
        assert(bytes[4] as nat % 16 == c4 % 16);
        assert forall|k: int| at <= k < at + 4 implies #[trigger] file[k] == 0x80 by {
            assert(file[k] == bytes[k - at]);
        }
    }
}

/// The header of a section stands behind those before it, sixty-four bytes each in a
/// file with wide addresses and forty else, and says in its places what it says.
pub proof fn law_section_headers(file: Seq<u8>, n: int)
    ensures
        ({
            let high_first = file[5] == 2;
            let read = |at: int, width: int|
                number(file.subrange(at, at + width), high_first) as u64;
            let found = section(file, n);
            &&& file[4] == 2 ==> {
                let at = read(40, 8) + 64 * n;
                &&& found.name == read(at, 4) && found.kind == read(at + 4, 4)
                &&& found.offset == read(at + 24, 8) && found.size == read(at + 32, 8)
                &&& found.link == read(at + 40, 4)
                &&& read(60, 2) > 0 ==> section_count(file) == read(60, 2)
                &&& read(60, 2) == 0 ==> section_count(file) == section(file, 0).size
                &&& read(62, 2) != 0xffff ==> names_index(file) == read(62, 2)
                &&& read(62, 2) == 0xffff ==> names_index(file) == section(file, 0).link
            }
            &&& file[4] != 2 ==> {
                let at = read(32, 4) + 40 * n;
                &&& found.name == read(at, 4) && found.kind == read(at + 4, 4)
                &&& found.offset == read(at + 16, 4) && found.size == read(at + 20, 4)
                &&& found.link == read(at + 24, 4)
                &&& read(48, 2) > 0 ==> section_count(file) == read(48, 2)
                &&& read(48, 2) == 0 ==> section_count(file) == section(file, 0).size
                &&& read(50, 2) != 0xffff ==> names_index(file) == read(50, 2)
                &&& read(50, 2) == 0xffff ==> names_index(file) == section(file, 0).link
            }
        }),
{
}

/// A long number is found wherever it stands in the debug information: in any section
/// of either name, at any place in it.
pub proof fn law_long_numbers_are_found(file: Seq<u8>, n: int, at: int)
    requires
        has_sections(file),
        0 <= n < section_count(file),
        is_named(file, n, ".debug_info"@) || is_named(file, n, ".debug_line"@),
        section(file, n).offset + section(file, n).size <= file.len(),
        section(file, n).offset <= at && at + 9 <= section(file, n).offset + section(file, n).size,
        forall|k: int| at <= k < at + 8 ==> #[trigger] file[k] >= 0x80,
        file[at + 8] != 0,
    ensures
        has_large_number(file),
{
    assert(Pattern::LongNumber.is_at(file, at));
    assert(section_shows(file, n, Pattern::LongNumber));
}

/// Where words have more than 32 bits, nothing but a long number in the debug
/// information keeps a file from being read for locations.
pub proof fn law_nothing_else_is_large(file: Seq<u8>) -> (found: (int, int))
    requires
        has_large_number(file),
        usize::BITS != 32,
    ensures
        0 <= found.0 < section_count(file),
        is_named(file, found.0, ".debug_info"@) || is_named(file, found.0, ".debug_line"@),
        section(file, found.0).offset <= found.1,
        found.1 + 9 <= section(file, found.0).offset + section(file, found.0).size <= file.len(),
        forall|k: int| found.1 <= k < found.1 + 8 ==> #[trigger] file[k] >= 0x80,
        file[found.1 + 8] != 0,
{
    let name = if shows(file, ".debug_info"@, Pattern::LongNumber) {
        ".debug_info"@
    } else {
        ".debug_line"@
    };
    let n = choose|n: int|
        0 <= n < section_count(file) && #[trigger] is_named(file, n, name) && section_shows(
            file,
            n,
            Pattern::LongNumber,
        );
    let at = choose|at: int|
        section(file, n).offset <= at && at + Pattern::LongNumber.len() <= section(file, n).offset
            + section(file, n).size && #[trigger] Pattern::LongNumber.is_at(file, at);
    assert(Pattern::LongNumber.is_at(file, at));
    (n, at)
}

/// A symbol of the size of a bitflags value, in the section for defmt, whose end passes
/// the largest address is found in any table of symbols, at any place in it.
pub proof fn law_values_past_the_end_are_found(file: Seq<u8>, n: int, k: int, home: int)
    requires
        has_sections(file),
        0 <= n < section_count(file) && section(file, n).kind == 2,
        section(file, n).offset + section(file, n).size <= file.len(),
        0 <= k && (k + 1) * (if file[4] == 2 {
            24int
        } else {
            16int
        }) <= section(file, n).size,
        0 <= home < section_count(file) && is_named(file, home, ".defmt"@),
        ({
            let at = section(file, n).offset + k * (if file[4] == 2 {
                24int
            } else {
                16int
            });
            let read = |at: int, width: int|
                number(file.subrange(at, at + width), file[5] == 2) as u64;
            let (address, size, of) = if file[4] == 2 {
                (read(at + 8, 8), read(at + 16, 8), read(at + 6, 2))
            } else {
                (read(at + 4, 4), read(at + 8, 4), read(at + 14, 2))
            };
            of == home && size == 16 && address as int % (usize::MAX + 1) + 16 > usize::MAX
        }),
    ensures
        has_value_past_the_end(file),
{
    let table = section(file, n);
    if file[4] == 2 {
        assert(k * 24 == 24 * k && (k + 1) * 24 == 24 * (k + 1));
    } else {
        assert(k * 16 == 16 * k && (k + 1) * 16 == 16 * (k + 1));
    }
    assert(passes_the_end(file, symbol_at(file, table, k)));
    assert(has_symbol_past_the_end(file, n));
}

} // verus!
