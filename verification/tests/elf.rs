use cargo_embed::elf::{finds_large_number, finds_value_past_the_end};

/// How the numbers of a file are written.
#[derive(Clone, Copy)]
struct Style {
    wide: bool,
    big: bool,
}

const STYLES: [Style; 4] = [
    Style { wide: false, big: false },
    Style { wide: false, big: true },
    Style { wide: true, big: false },
    Style { wide: true, big: true },
];

impl Style {
    fn number(self, bytes: &mut Vec<u8>, value: u64, width: usize) {
        if self.big {
            bytes.extend(&value.to_be_bytes()[8 - width..]);
        } else {
            bytes.extend(&value.to_le_bytes()[..width]);
        }
    }

    fn address(self, bytes: &mut Vec<u8>, value: u64) {
        self.number(bytes, value, if self.wide { 8 } else { 4 });
    }

    /// A symbol: its address, its size and its section.
    fn symbol(self, address: u64, size: u64, home: u64) -> Vec<u8> {
        let mut bytes = Vec::new();
        self.number(&mut bytes, 1, 4);
        if self.wide {
            bytes.extend([0, 0]);
            self.number(&mut bytes, home, 2);
            self.address(&mut bytes, address);
            self.address(&mut bytes, size);
        } else {
            self.address(&mut bytes, address);
            self.address(&mut bytes, size);
            bytes.extend([0, 0]);
            self.number(&mut bytes, home, 2);
        }
        bytes
    }

    /// The largest address.
    fn top(self) -> u64 {
        if self.wide {
            u64::MAX
        } else {
            u64::from(u32::MAX)
        }
    }

    /// A file with these sections, from index one on, each with its name, its type
    /// and its contents. The names come last.
    fn file(self, sections: &[(&str, u64, Vec<u8>)]) -> Vec<u8> {
        let mut names = vec![0u8];
        let mut places = Vec::new();
        for (name, _, _) in sections {
            places.push(names.len() as u64);
            names.extend(name.bytes());
            names.push(0);
        }
        let mut all: Vec<(u64, u64, Vec<u8>)> = vec![(0, 0, Vec::new())];
        for ((_, kind, data), place) in sections.iter().zip(places) {
            all.push((place, *kind, data.clone()));
        }
        all.push((0, 3, names));

        let start: u64 = if self.wide { 64 } else { 52 };
        let mut body: Vec<u8> = Vec::new();
        let mut headers: Vec<u8> = Vec::new();
        for (place, kind, data) in &all {
            self.number(&mut headers, *place, 4);
            self.number(&mut headers, *kind, 4);
            self.address(&mut headers, 0);
            self.address(&mut headers, 0);
            self.address(&mut headers, start + body.len() as u64);
            self.address(&mut headers, data.len() as u64);
            self.number(&mut headers, 0, 4);
            self.number(&mut headers, 0, 4);
            self.address(&mut headers, 1);
            self.address(&mut headers, 0);
            body.extend(data);
        }

        let mut file = vec![0x7f, 0x45, 0x4c, 0x46];
        file.push(if self.wide { 2 } else { 1 });
        file.push(if self.big { 2 } else { 1 });
        file.extend([1, 0, 0, 0, 0, 0, 0, 0, 0, 0]);
        self.number(&mut file, 2, 2);
        self.number(&mut file, 40, 2);
        self.number(&mut file, 1, 4);
        self.address(&mut file, 0);
        self.address(&mut file, 0);
        self.address(&mut file, start + body.len() as u64);
        self.number(&mut file, 0, 4);
        self.number(&mut file, start, 2);
        self.number(&mut file, 0, 2);
        self.number(&mut file, 0, 2);
        self.number(&mut file, if self.wide { 64 } else { 40 }, 2);
        self.number(&mut file, all.len() as u64, 2);
        self.number(&mut file, all.len() as u64 - 1, 2);
        file.extend(body);
        file.extend(headers);
        file
    }
}

#[test]
fn values_past_the_end_are_found() {
    for style in STYLES {
        let found = |address: u64, size: u64, home: u64| {
            let mut symbols = style.symbol(0, 0, 0);
            symbols.extend(style.symbol(address, size, home));
            finds_value_past_the_end(&style.file(&[
                (".defmt", 1, vec![0; 16]),
                (".text", 1, vec![0; 16]),
                (".symtab", 2, symbols),
            ]))
        };
        let fits = !style.wide && usize::BITS == 64;
        let last = style.top() - 15;
        assert_eq!(found(last, 16, 1), !fits);
        assert_eq!(found(style.top(), 16, 1), !fits);
        assert_eq!(found(style.top(), 16, 0xffff), !fits);
        assert!(!found(last - 1, 16, 1));
        assert!(!found(last, 17, 1));
        assert!(!found(last, 16, 2));
        assert!(!found(last, 16, 0xfff1));
    }
}

#[test]
fn only_symbols_count_as_values() {
    for style in STYLES {
        let pair = style.symbol(style.top(), 16, 1);
        assert!(!finds_value_past_the_end(&style.file(&[(".defmt", 1, pair.clone())])));
        let mut file = style.file(&[(".defmt", 1, vec![])]);
        file.extend(pair);
        assert!(!finds_value_past_the_end(&file));
    }
    assert!(!finds_value_past_the_end(&[0xff; 24]));
    assert!(!finds_value_past_the_end(&[]));
}

/// The number of seven bits a byte that takes `length` bytes.
fn long(length: usize, last: u8) -> Vec<u8> {
    let mut bytes = vec![1; 3];
    bytes.extend(vec![0x80; length - 1]);
    bytes.push(last);
    bytes
}

#[test]
fn long_numbers_in_debug_information_are_found() {
    for style in STYLES {
        let found = |name: &str, data: Vec<u8>| {
            finds_large_number(&style.file(&[(".text", 1, vec![0xff; 99]), (name, 1, data)]))
        };
        assert!(found(".debug_info", long(9, 0x40)));
        assert!(found(".debug_line", long(10, 1)));
        assert!(found(".debug_info", vec![0xff; 9]));
        assert_eq!(found(".debug_info", long(9, 0)), usize::BITS == 32);
        assert_eq!(found(".debug_info", long(8, 0x7f)), usize::BITS == 32);
        assert!(!found(".debug_info", vec![0xff; 8]));
        assert!(!found(".debug_str", long(9, 0x40)));
        assert!(!found(".debug_info2", long(9, 0x40)));
        assert!(!found(".debug_abbrev", vec![0xff; 99]));
        assert_eq!(found(".debug_abbrev", vec![0x3a, 0x07]), usize::BITS == 32);
        assert_eq!(found(".debug_abbrev", vec![0x80, 0x80, 0x80, 0x80, 0x10]), usize::BITS == 32);
    }
}

#[test]
fn files_without_sections_hold_no_large_numbers() {
    for style in STYLES {
        let file = style.file(&[(".debug_info", 1, long(9, 0x40))]);
        assert!(finds_large_number(&file));
        for end in 0..file.len() {
            assert!(!finds_large_number(&file[..end]));
        }
        let mut other = file.clone();
        other[0] = 0x7e;
        assert!(!finds_large_number(&other));
    }
}
