//! The defmt data of an artifact: its table of log statements, and where in the
//! source they stand.
use std::collections::BTreeMap;

use anyhow::Error;
use defmt_decoder::{Location, Table};
use vstd::prelude::*;

use crate::elf::{finds_large_number, finds_value_past_the_end};

verus! {

/// `defmt_decoder::Table`: the log statements and interned strings of a program.
#[verifier::external_type_specification]
#[verifier::external_body]
pub struct ExTable(defmt_decoder::Table);

/// `defmt_decoder::Location`: a file, a line and a module.
#[verifier::external_type_specification]
#[verifier::external_body]
pub struct ExLocation(defmt_decoder::Location);

/// `anyhow::Error`, which the decoder's errors come as.
#[verifier::external_type_specification]
#[verifier::external_body]
pub struct ExError(anyhow::Error);

/// The entries of a table by their address. Each is told by the symbol that it was
/// read from, and by whether it is a log statement rather than an interned string
/// or a helper.
pub type Entries = Map<usize, (Seq<char>, bool)>;

/// What a table holds beside its entries: the text and the symbol of the time stamp,
/// if there is one; the names and values of each group of bitflags in the order of
/// their definition, by the group's name, package, disambiguator and crate; and
/// whether frames are encoded as rzcobs rather than left raw.
pub type Extras = (
    Option<(Seq<char>, Seq<char>)>,
    Map<(Seq<char>, Seq<char>, Seq<char>, Option<Seq<char>>), Seq<(Seq<char>, u128)>>,
    bool,
);

/// The entries of a table, its field `entries`.
pub uninterp spec fn table_entries(table: Table) -> Entries;

/// The fields `timestamp`, `bitflags` and `encoding` of a table.
pub uninterp spec fn table_extras(table: Table) -> Extras;

/// What `Table::parse` makes of the bytes of an ELF file on a machine whose words
/// have `word_bits` bits: nothing where it fails, `Some(None)` where the file does
/// not use defmt, and else what the table holds.
pub uninterp spec fn parsed_table(elf: Seq<u8>, word_bits: nat) -> Option<
    Option<(Entries, Extras)>,
>;

/// The line and the module of a location, its fields `line` and `module`.
pub uninterp spec fn location_parts(location: Location) -> (u64, Seq<char>);

/// What `Table::get_locations` finds in the debug information of an ELF file, on a
/// machine whose words have `word_bits` bits: the line and the module of each log
/// statement whose symbol is in the table, by its address, or nothing where it
/// fails.
pub uninterp spec fn located_places(
    elf: Seq<u8>,
    symbols: Set<Seq<char>>,
    word_bits: nat,
) -> Option<Map<u64, (u64, Seq<char>)>>;

/// The symbols that the entries of a table were read from.
pub open spec fn symbols_of(entries: Entries) -> Set<Seq<char>> {
    Set::new(
        |symbol: Seq<char>|
            exists|address: usize| #[trigger]
                entries.contains_key(address) && entries[address].0 == symbol,
    )
}

/// The addresses of the log statements of a table.
pub open spec fn statements_of(entries: Entries) -> Set<usize> {
    Set::new(|address: usize| entries.contains_key(address) && entries[address].1)
}

/// `Table::parse`: whether it fails, finds no defmt data or finds a table, and what
/// the table holds, is a function of the file's bytes and of the width of a word,
/// because addresses are cut down to a word. A file with a symbol that could be a
/// bitflags value at the end of memory is left out, because the end of the value is
/// computed without regard to overflow. Left unsaid: which error it fails with, and
/// what the table holds for given bytes.
pub assume_specification[ Table::parse ](elf: &[u8]) -> (found: Result<
    Option<Table>,
    anyhow::Error,
>)
    requires
        !crate::elf::has_value_past_the_end(elf@),
    ensures
        match found {
            Err(_) => parsed_table(elf@, usize::BITS as nat) is None,
            Ok(None) => parsed_table(elf@, usize::BITS as nat) == Some(None::<(Entries, Extras)>),
            Ok(Some(table)) => parsed_table(elf@, usize::BITS as nat) == Some(
                Some((table_entries(table), table_extras(table))),
            ),
        },
;

/// `Table::get_locations`: it fails or finds locations depending on the file's bytes,
/// on the symbols of the table and on the width of a word, which offsets have to fit
/// into; so do the addresses that it finds, the keys of the result, and the line and
/// the module at each. A file whose debug information has numbers so large that the
/// arithmetic on them could overflow is left out. Left unsaid: the files, because how
/// their paths are joined depends on the host, and which error it fails with.
pub assume_specification[ Table::get_locations ](table: &Table, elf: &[u8]) -> (found: Result<
    BTreeMap<u64, Location>,
    anyhow::Error,
>)
    requires
        !crate::elf::has_large_number(elf@),
    ensures
        match found {
            Err(_) => located_places(
                elf@,
                symbols_of(table_entries(*table)),
                usize::BITS as nat,
            ) is None,
            Ok(locations) => located_places(
                elf@,
                symbols_of(table_entries(*table)),
                usize::BITS as nat,
            ) == Some(locations@.map_values(|location: Location| location_parts(location))),
        },
;

/// `Table::is_empty`: whether the table has no entry at all.
pub assume_specification[ Table::is_empty ](table: &Table) -> (empty: bool)
    ensures
        empty <==> forall|address: usize| !table_entries(*table).contains_key(address),
;

/// `Table::indices`, collected: the addresses of the log statements, in ascending
/// order.
#[verifier::external_body]
fn table_indices(table: &Table) -> (indices: Vec<usize>)
    ensures
        forall|address: usize| #[trigger]
            indices@.contains(address) <==> statements_of(table_entries(*table)).contains(address),
        forall|i: int, j: int| 0 <= i < j < indices@.len() ==> indices@[i] < indices@[j],
{
    table.indices().collect()
}

/// What the debug information of a program says about its log statements.
pub enum LocationInfo {
    /// Where each log statement stands.
    Complete(BTreeMap<u64, Location>),
    /// The program has log statements or strings and no location at all.
    Insufficient,
    /// Some log statement has no location.
    Incomplete,
}

/// The defmt data that the decoder works with.
pub struct DefmtState {
    pub table: Table,
    pub locations: LocationInfo,
}

/// Why an artifact gives no defmt data.
pub enum DefmtError {
    /// The table cannot be read.
    Parse(Error),
    /// The artifact does not use defmt.
    NoTable,
    /// The debug information cannot be read.
    Locations(Error),
}

/// Whether each of some addresses is located.
pub open spec fn all_located(indices: Seq<usize>, located: Set<u64>) -> bool {
    forall|i: int| 0 <= i < indices.len() ==> located.contains(#[trigger] indices[i] as u64)
}

/// Locations are of use where they cover every log statement. Where there is none
/// although the table has entries, the program was compiled without them.
pub fn check_locations(
    table_is_empty: bool,
    indices: &Vec<usize>,
    locations: BTreeMap<u64, Location>,
) -> (info: LocationInfo)
    ensures
        info is Insufficient <==> !table_is_empty && locations@.dom() =~= Set::empty(),
        info is Complete <==> !(info is Insufficient) && all_located(
            indices@,
            locations@.dom(),
        ),
        info is Complete <==> !(info is Insufficient) && forall|i: int|
            0 <= i < indices@.len() ==> locations@.contains_key(#[trigger] indices@[i] as u64),
        info matches LocationInfo::Complete(kept) ==> kept == locations,
{
    broadcast use vstd::std_specs::btree::group_btree_axioms;

    if !table_is_empty && locations.is_empty() {
        return LocationInfo::Insufficient;
    }
    let mut i: usize = 0;
    while i < indices.len()
        invariant
            i <= indices.len(),
            forall|k: int| 0 <= k < i ==> locations@.dom().contains(#[trigger] indices@[k] as u64),
            table_is_empty || !(locations@.dom() =~= Set::empty()),
        decreases indices.len() - i,
    {
        let index: usize = indices[i];
        if !locations.contains_key(&(index as u64)) {
            return LocationInfo::Incomplete;
        }
        i = i + 1;
    }
    LocationInfo::Complete(locations)
}

/// The lines and modules of some locations.
pub open spec fn places_of(locations: Map<u64, Location>) -> Map<u64, (u64, Seq<char>)> {
    locations.map_values(|location: Location| location_parts(location))
}

/// What the defmt data of an artifact comes to.
pub open spec fn loads_as(elf: Seq<u8>, loaded: Result<DefmtState, DefmtError>) -> bool {
    match parsed_table(elf, usize::BITS as nat) {
        None => loaded matches Err(DefmtError::Parse(_)),
        Some(None) => loaded matches Err(DefmtError::NoTable),
        Some(Some((entries, extras))) => match located_places(
            elf,
            symbols_of(entries),
            usize::BITS as nat,
        ) {
            None => loaded matches Err(DefmtError::Locations(_)),
            Some(places) => {
                &&& loaded matches Ok(state)
                &&& table_entries(state.table) == entries
                &&& table_extras(state.table) == extras
                &&& located_as(entries, places, state.locations)
            },
        },
    }
}

/// What the locations of a table's entries come to.
pub open spec fn located_as(
    entries: Entries,
    places: Map<u64, (u64, Seq<char>)>,
    info: LocationInfo,
) -> bool {
    let missing = entries.dom() != Set::<usize>::empty() && places.dom() == Set::<u64>::empty();
    let covered = forall|address: usize| #[trigger]
        statements_of(entries).contains(address) ==> places.contains_key(address as u64);
    match info {
        LocationInfo::Insufficient => missing,
        LocationInfo::Incomplete => !missing && !covered,
        LocationInfo::Complete(locations) => !missing && covered && places_of(locations@)
            == places,
    }
}

/// Whether the decoder's arithmetic on a file could overflow.
pub open spec fn could_overflow(elf: Seq<u8>) -> bool {
    crate::elf::has_value_past_the_end(elf) || crate::elf::has_large_number(elf)
}

/// Reads the defmt data of an artifact from the bytes of its ELF file.
pub fn load_defmt(elf: &[u8]) -> (loaded: Result<DefmtState, DefmtError>)
    requires
        !could_overflow(elf@),
    ensures
        loads_as(elf@, loaded),
        loaded matches Err(DefmtError::Parse(_)) <==> parsed_table(elf@, usize::BITS as nat)
            is None,
        loaded matches Err(DefmtError::NoTable) <==> parsed_table(elf@, usize::BITS as nat)
            == Some(None::<(Entries, Extras)>),
        parsed_table(elf@, usize::BITS as nat) matches Some(Some((entries, extras))) ==> {
            let places = located_places(elf@, symbols_of(entries), usize::BITS as nat);
            &&& loaded is Ok <==> places is Some
            &&& loaded matches Ok(state) ==> {
                &&& table_entries(state.table) == entries
                &&& table_extras(state.table) == extras
                &&& state.locations is Insufficient <==> places->0.dom() == Set::<u64>::empty()
                    && entries.dom() != Set::<usize>::empty()
                &&& state.locations is Incomplete ==> exists|address: usize| #[trigger]
                    entries.contains_key(address) && entries[address].1
                        && !places->0.contains_key(address as u64)
                &&& state.locations matches LocationInfo::Complete(kept) ==> {
                    &&& forall|address: usize| #[trigger]
                        entries.contains_key(address) && entries[address].1
                            ==> kept@.contains_key(address as u64)
                    &&& kept@.map_values(|location: Location| location_parts(location))
                        == places->0
                }
            }
        },
{
    let table = match Table::parse(elf) {
        Err(error) => {
            return Err(DefmtError::Parse(error));
        },
        Ok(None) => {
            return Err(DefmtError::NoTable);
        },
        Ok(Some(table)) => table,
    };
    let locations = match table.get_locations(elf) {
        Err(error) => {
            return Err(DefmtError::Locations(error));
        },
        Ok(locations) => locations,
    };
    let indices = table_indices(&table);
    let info = check_locations(table.is_empty(), &indices, locations);
    proof {
        let entries = table_entries(table);
        let located = locations@.dom();
        assert(places_of(locations@).dom() =~= located);
        assert(entries.dom() == Set::<usize>::empty() <==> forall|address: usize|
            !entries.contains_key(address)) by {
            if forall|address: usize| !entries.contains_key(address) {
                assert(entries.dom() =~= Set::<usize>::empty());
            }
        }
        if all_located(indices@, located) {
            assert forall|address: usize| #[trigger]
                statements_of(entries).contains(address) implies located.contains(
                address as u64,
            ) by {
                assert(indices@.contains(address));
            }
        } else {
            let i = choose|i: int|
                0 <= i < indices@.len() && !located.contains(#[trigger] indices@[i] as u64);
            assert(indices@.contains(indices@[i]));
            assert(statements_of(entries).contains(indices@[i]));
        }
    }
    let state = DefmtState { table, locations: info };
    proof {
        law_locations_that_cover_are_kept(
            elf@,
            state,
            table_entries(table),
            table_extras(table),
            places_of(locations@),
        );
    }
    Ok(state)
}

/// Reads the defmt data of an artifact, unless the decoder's arithmetic on its file
/// could overflow.
pub fn try_load_defmt(elf: &[u8]) -> (loaded: Option<Result<DefmtState, DefmtError>>)
    ensures
        loaded is None <==> could_overflow(elf@),
        loaded is None <==> crate::elf::has_value_past_the_end(elf@)
            || crate::elf::has_large_number(elf@),
        loaded matches Some(result) ==> loads_as(elf@, result),
{
    if finds_value_past_the_end(elf) || finds_large_number(elf) {
        None
    } else {
        Some(load_defmt(elf))
    }
}

/// Locations are dropped only where they are of no use. Where every log statement is
/// among the places that the debug information gives, and there is one, exactly those
/// places are kept. Where some are found and they are dropped, some log statement is
/// not among them.
pub proof fn law_locations_that_cover_are_kept(
    elf: Seq<u8>,
    state: DefmtState,
    entries: Entries,
    extras: Extras,
    places: Map<u64, (u64, Seq<char>)>,
)
    requires
        loads_as(elf, Ok(state)),
        parsed_table(elf, usize::BITS as nat) == Some(Some((entries, extras))),
        located_places(elf, symbols_of(entries), usize::BITS as nat) == Some(places),
    ensures
        table_entries(state.table) == entries,
        table_extras(state.table) == extras,
        (exists|address: usize| #[trigger] entries.contains_key(address) && entries[address].1)
            && (forall|address: usize| #[trigger]
            entries.contains_key(address) && entries[address].1 ==> places.contains_key(
                address as u64,
            )) ==> {
            &&& state.locations matches LocationInfo::Complete(kept)
            &&& kept@.map_values(|location: Location| location_parts(location)) == places
        },
        state.locations is Incomplete ==> exists|address: usize| #[trigger]
            entries.contains_key(address) && entries[address].1 && !places.contains_key(
                address as u64,
            ),
        state.locations is Insufficient <==> places.dom() == Set::<u64>::empty() && entries.dom()
            != Set::<usize>::empty(),
        state.locations matches LocationInfo::Complete(kept) ==> {
            &&& forall|address: usize| #[trigger]
                entries.contains_key(address) && entries[address].1 ==> kept@.contains_key(
                    address as u64,
                )
            &&& kept@.map_values(|location: Location| location_parts(location)) == places
        },
{
    let covered = forall|address: usize| #[trigger]
        entries.contains_key(address) && entries[address].1 ==> places.contains_key(
            address as u64,
        );
    assert forall|address: usize| #[trigger]
        entries.contains_key(address) && entries[address].1 implies statements_of(
        entries,
    ).contains(address) by {}
    if (exists|address: usize| #[trigger] entries.contains_key(address) && entries[address].1)
        && covered {
        let address = choose|address: usize| #[trigger]
            entries.contains_key(address) && entries[address].1;
        assert(places.dom().contains(address as u64));
        assert forall|other: usize| #[trigger]
            statements_of(entries).contains(other) implies places.contains_key(other as u64) by {
            assert(entries.contains_key(other));
        }
    }
    if let LocationInfo::Complete(kept) = state.locations {
        assert(places_of(kept@).dom() =~= kept@.dom());
    }
    if state.locations is Incomplete {
        let address = choose|address: usize| #[trigger]
            statements_of(entries).contains(address) && !places.contains_key(address as u64);
        assert(entries.contains_key(address));
    }
}

/// What the defmt data of a file comes to is settled by the file: the same bytes never
/// load once and fail at another time, and never keep their locations once and drop
/// them at another.
pub proof fn law_file_settles_what_is_loaded(
    elf: Seq<u8>,
    first: Result<DefmtState, DefmtError>,
    second: Result<DefmtState, DefmtError>,
)
    requires
        loads_as(elf, first),
        loads_as(elf, second),
    ensures
        first is Ok <==> second is Ok,
        first matches Err(DefmtError::Parse(_)) <==> parsed_table(elf, usize::BITS as nat) is None,
        first matches Err(DefmtError::NoTable) <==> parsed_table(elf, usize::BITS as nat) == Some(
            None::<(Entries, Extras)>,
        ),
        first is Ok && second is Ok ==> {
            let one = first->Ok_0;
            let other = second->Ok_0;
            &&& table_entries(one.table) == table_entries(other.table)
            &&& table_extras(one.table) == table_extras(other.table)
            &&& one.locations is Complete <==> other.locations is Complete
            &&& one.locations is Insufficient <==> other.locations is Insufficient
        },
{
}

/// Locations that are kept cover the table: every log statement has one.
pub proof fn law_kept_locations_cover_the_table(elf: Seq<u8>, state: DefmtState, address: usize)
    requires
        loads_as(elf, Ok(state)),
        state.locations is Complete,
        statements_of(table_entries(state.table)).contains(address),
    ensures
        state.locations->Complete_0@.contains_key(address as u64),
{
}

/// A table without log statements, interned strings or anything else never loses
/// its locations.
pub proof fn law_empty_table_is_complete(elf: Seq<u8>, state: DefmtState)
    requires
        loads_as(elf, Ok(state)),
        table_entries(state.table).dom() == Set::<usize>::empty(),
    ensures
        state.locations is Complete,
{
    let entries = table_entries(state.table);
    assert forall|address: usize| !statements_of(entries).contains(address) by {
        assert(!entries.dom().contains(address));
    }
}

} // verus!
