//! Real time transfer: where its control block is looked for, what its log is
//! called; and where the GDB server listens.
use chrono::{FixedOffset, TimeZone};
use vstd::prelude::*;
use vstd::string::StringExecFns;

verus! {

/// Where the GDB server listens unless it is told otherwise.
pub const DEFAULT_GDB_ADDRESS: &'static str = "127.0.0.1:1337";

/// Where the RTT control block is looked for.
#[derive(Clone, Copy, Debug, PartialEq, Eq, Structural)]
pub enum ScanRegion {
    /// At this address.
    Exact(u32),
    /// Anywhere in the memory of the target.
    Ram,
}

/// Picks the region from the address of the control block's symbol, if the artifact
/// has it. Targets have addresses of 32 bits; of a longer one the low bits count.
pub fn scan_region(symbol: Option<u64>) -> (region: ScanRegion)
    ensures
        region is Ram <==> symbol is None,
        region matches ScanRegion::Exact(address) ==> address as int == symbol->0 as int
            % 0x1_0000_0000,
{
    match symbol {
        Some(address) => {
            proof {
                assert(address as u32 == address % 0x1_0000_0000) by (bit_vector);
            }
            ScanRegion::Exact(address as u32)
        },
        None => ScanRegion::Ram,
    }
}

/// The address that the GDB server listens at.
pub fn gdb_address(configured: &Option<String>) -> (address: String)
    ensures
        configured matches Some(given) ==> address@ == given@,
        configured is None ==> address@ == DEFAULT_GDB_ADDRESS@,
        configured is None ==> address@ == "127.0.0.1:1337"@,
{
    match configured {
        Some(given) => given.clone(),
        None => DEFAULT_GDB_ADDRESS.to_string(),
    }
}

/// A moment, in a time zone.
#[derive(Clone, Copy, Debug, PartialEq, Eq, Structural)]
pub struct Moment {
    /// Seconds since the beginning of 1970, without leap seconds.
    pub seconds: i64,
    /// Nanoseconds since the last whole second.
    pub nanos: u32,
    /// How many seconds local time is ahead of universal time.
    pub offset: i32,
}

/// What `DateTime::to_rfc3339` writes for a moment, or nothing where the calendar
/// has no such moment.
pub uninterp spec fn rfc3339(seconds: i64, nanos: u32, offset: i32) -> Option<Seq<char>>;

/// `DateTime::to_rfc3339` on the moment that `FixedOffset::east_opt` and
/// `TimeZone::timestamp_opt` make of the three numbers: the text is a function of
/// them. There is one for every moment from 1970 to the end of the year 9999 whose
/// offset is less than a day, and none for an offset of a day or more, nor for two
/// seconds' worth of nanoseconds. Left unsaid: what the text is.
#[verifier::external_body]
fn write_moment(moment: Moment) -> (text: Option<String>)
    ensures
        text matches Some(written) ==> rfc3339(moment.seconds, moment.nanos, moment.offset)
            == Some(written@),
        text is None ==> rfc3339(moment.seconds, moment.nanos, moment.offset) is None,
        0 <= moment.seconds <= 253_402_300_799 && moment.nanos < 1_000_000_000 && -86_400
            < moment.offset < 86_400 ==> text is Some,
        moment.offset <= -86_400 || 86_400 <= moment.offset || 2_000_000_000 <= moment.nanos
            ==> text is None,
{
    let zone = FixedOffset::east_opt(moment.offset)?;
    let time = zone.timestamp_opt(moment.seconds, moment.nanos).single()?;
    Some(time.to_rfc3339())
}

/// The name of a log: that of the binary, that of the configured chip, if there is
/// one, and a time stamp.
pub open spec fn log_name_of(binary: Seq<char>, chip: Option<Seq<char>>, stamp: Seq<char>) -> Seq<
    char,
> {
    binary + "_"@ + (if chip is Some {
        chip->0
    } else {
        seq![]
    }) + "_"@ + stamp
}

/// The chip of a configuration, as a text.
pub open spec fn chip_view(chip: Option<String>) -> Option<Seq<char>> {
    match chip {
        Some(name) => Some(name@),
        None => None,
    }
}

/// Names a log by a given time stamp.
pub fn stamped_log_name(binary: &str, chip: &Option<String>, stamp: &str) -> (name: String)
    ensures
        name@ == log_name_of(binary@, chip_view(*chip), stamp@),
        chip matches Some(given) ==> name@ == binary@ + "_"@ + given@ + "_"@ + stamp@,
        chip is None ==> name@ == binary@ + "_"@ + "_"@ + stamp@,
{
    let mut name = binary.to_string();
    name.append("_");
    if let Some(chip) = chip {
        name.append(chip.as_str());
    }
    name.append("_");
    name.append(stamp);
    proof {
        assert(name@ =~= log_name_of(binary@, chip_view(*chip), stamp@));
    }
    name
}

/// Names the log of a run that starts at some moment. Moments that the calendar
/// does not have give no name.
pub fn log_name(binary: &str, chip: &Option<String>, moment: Moment) -> (name: Option<String>)
    ensures
        match rfc3339(moment.seconds, moment.nanos, moment.offset) {
            Some(stamp) => name matches Some(given) && given@ == log_name_of(
                binary@,
                chip_view(*chip),
                stamp,
            ),
            None => name is None,
        },
        name is Some <==> rfc3339(moment.seconds, moment.nanos, moment.offset) is Some,
        name matches Some(given) ==> {
            let stamp = rfc3339(moment.seconds, moment.nanos, moment.offset)->0;
            &&& chip matches Some(of) ==> given@ == binary@ + "_"@ + of@ + "_"@ + stamp
            &&& chip is None ==> given@ == binary@ + "_"@ + "_"@ + stamp
        },
        0 <= moment.seconds <= 253_402_300_799 && moment.nanos < 1_000_000_000 && -86_400
            < moment.offset < 86_400 ==> name is Some,
{
    match write_moment(moment) {
        Some(stamp) => Some(stamped_log_name(binary, chip, stamp.as_str())),
        None => None,
    }
}

/// A log is never named like a log of the same binary and chip with another time
/// stamp.
pub proof fn law_log_names_differ_by_time(
    binary: Seq<char>,
    chip: Option<Seq<char>>,
    first: Seq<char>,
    second: Seq<char>,
)
    ensures
        log_name_of(binary, chip, first) == log_name_of(binary, chip, second) <==> first == second,
{
    let head = log_name_of(binary, chip, seq![]);
    assert(log_name_of(binary, chip, first) =~= head + first);
    assert(log_name_of(binary, chip, second) =~= head + second);
    if head + first == head + second {
        assert(first =~= (head + first).skip(head.len() as int));
        assert(second =~= (head + second).skip(head.len() as int));
    }
}

/// The name of a log begins with that of the binary and ends with the time stamp. In
/// between stands the chip, if there is one, between two underscores; without a chip
/// the two are next to each other.
pub proof fn law_log_name_has_three_parts(binary: Seq<char>, chip: Seq<char>, stamp: Seq<char>)
    ensures
        log_name_of(binary, Some(chip), stamp) == binary + seq!['_'] + chip + seq!['_'] + stamp,
        log_name_of(binary, None, stamp) == binary + seq!['_', '_'] + stamp,
{
    reveal_strlit("_");
    assert("_"@ =~= seq!['_']);
    assert(log_name_of(binary, Some(chip), stamp) =~= binary + seq!['_'] + chip + seq!['_']
        + stamp);
    assert(log_name_of(binary, None, stamp) =~= binary + seq!['_', '_'] + stamp);
}

} // verus!
