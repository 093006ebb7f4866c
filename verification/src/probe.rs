//! Which debug probe a run uses.
use std::num::IntErrorKind;

use vstd::prelude::*;
use vstd::string::StringExecFns;

use crate::text::decimal_text;

verus! {

/// What names a probe: its USB identifiers and, if there are several like it, its
/// serial number.
#[derive(Clone, Debug, PartialEq, Eq)]
pub struct ProbeSelector {
    pub vendor_id: u16,
    pub product_id: u16,
    pub serial_number: Option<String>,
}

/// How a run finds its probe.
#[derive(Clone, Debug, PartialEq, Eq)]
pub enum ProbePlan {
    /// Open the probe that this selects.
    Open(ProbeSelector),
    /// Use the only probe that is attached. An identifier that stands alone in the
    /// configuration is ignored.
    Detect { vendor_ignored: bool, product_ignored: bool },
}

/// Why a USB identifier cannot be read.
#[derive(Clone, Copy, Debug, PartialEq, Eq, Structural)]
pub enum HexReason {
    Empty,
    InvalidDigit,
    TooLarge,
}

/// The refusal of a USB identifier, in the words of the standard library.
#[derive(Clone, Debug, PartialEq, Eq)]
pub struct HexError {
    pub reason: HexReason,
    pub message: String,
}

/// The value of a hexadecimal digit.
pub open spec fn hex_digit(c: char) -> Option<nat> {
    if '0' <= c <= '9' {
        Some((c as nat - '0' as nat) as nat)
    } else if 'a' <= c <= 'f' {
        Some((c as nat - 'a' as nat + 10) as nat)
    } else if 'A' <= c <= 'F' {
        Some((c as nat - 'A' as nat + 10) as nat)
    } else {
        None
    }
}

/// A number without its leading plus sign.
pub open spec fn without_plus(text: Seq<char>) -> Seq<char> {
    if text.len() > 0 && text[0] == '+' {
        text.skip(1)
    } else {
        text
    }
}

/// Whether a text is a hexadecimal number: digits, which a plus sign may precede.
pub open spec fn is_hex(text: Seq<char>) -> bool {
    let digits = without_plus(text);
    &&& digits.len() > 0
    &&& forall|i: int| 0 <= i < digits.len() ==> hex_digit(#[trigger] digits[i]) is Some
}

/// The number that hexadecimal digits stand for.
pub open spec fn hex_value(digits: Seq<char>) -> nat
    decreases digits.len(),
{
    if digits.len() == 0 {
        0
    } else {
        16 * hex_value(digits.drop_last()) + hex_digit(digits.last())->0
    }
}

/// Whether a text is read as a USB identifier.
pub open spec fn is_usb_id(text: Seq<char>) -> bool {
    is_hex(text) && hex_value(without_plus(text)) <= u16::MAX
}

/// What reading a text as a sixteen bit hexadecimal number may give. A text that
/// is both malformed and too long may be refused for either reason.
pub open spec fn reads_as(text: Seq<char>, read: Result<u16, HexError>) -> bool {
    match read {
        Ok(value) => is_hex(text) && hex_value(without_plus(text)) == value,
        Err(error) => match error.reason {
            HexReason::Empty => text.len() == 0,
            HexReason::InvalidDigit => text.len() > 0 && !is_hex(text),
            HexReason::TooLarge => {
                &&& without_plus(text).len() > 4
                &&& is_hex(text) ==> hex_value(without_plus(text)) > u16::MAX
            },
        },
    }
}

/// The words in which `u16::from_str_radix` refuses a text in base sixteen.
pub uninterp spec fn hex_refusal(text: Seq<char>) -> Seq<char>;

/// `u16::from_str_radix` in base sixteen: digits of either case behind an optional
/// plus sign are read, and nothing else; the kind of the error says why, and its
/// words are a function of the text. Left unsaid: the words themselves, which the
/// standard library is free to choose.
#[verifier::external_body]
fn read_hex(text: &str) -> (read: Result<u16, HexError>)
    ensures
        reads_as(text@, read),
        read matches Err(error) ==> error.message@ == hex_refusal(text@),
{
    u16::from_str_radix(text, 16).map_err(
        |error|
            HexError {
                reason: match error.kind() {
                    IntErrorKind::Empty => HexReason::Empty,
                    IntErrorKind::PosOverflow => HexReason::TooLarge,
                    _ => HexReason::InvalidDigit,
                },
                message: error.to_string(),
            },
    )
}

/// Decides how the probe is found: a selector from the command line comes first,
/// then a vendor and a product from the configuration; else the attached probes
/// decide. An identifier without the other is ignored.
pub fn plan_probe(
    given: Option<ProbeSelector>,
    usb_vid: &Option<String>,
    usb_pid: &Option<String>,
    serial: &Option<String>,
) -> (plan: Result<ProbePlan, HexError>)
    ensures
        given matches Some(selector) ==> plan == Ok::<ProbePlan, HexError>(
            ProbePlan::Open(selector),
        ),
        given is None && usb_vid is Some && usb_pid is Some ==> match plan {
            Ok(ProbePlan::Open(selector)) => {
                &&& reads_as(usb_vid->0@, Ok(selector.vendor_id))
                &&& reads_as(usb_pid->0@, Ok(selector.product_id))
                &&& selector.serial_number == *serial
            },
            Ok(ProbePlan::Detect { .. }) => false,
            Err(error) => {
                let refused = if is_usb_id(usb_vid->0@) {
                    usb_pid->0@
                } else {
                    usb_vid->0@
                };
                &&& reads_as(refused, Err(error))
                &&& error.message@ == hex_refusal(refused)
            },
        },
        given is None && (usb_vid is None || usb_pid is None) ==> plan == Ok::<
            ProbePlan,
            HexError,
        >(
            ProbePlan::Detect {
                vendor_ignored: usb_vid is Some,
                product_ignored: usb_pid is Some,
            },
        ),
{
    if let Some(selector) = given {
        return Ok(ProbePlan::Open(selector));
    }
    match (usb_vid, usb_pid) {
        (Some(vid), Some(pid)) => {
            let vendor_id: u16 = match read_hex(vid.as_str()) {
                Ok(id) => id,
                Err(error) => {
                    return Err(error);
                },
            };
            let product_id: u16 = match read_hex(pid.as_str()) {
                Ok(id) => id,
                Err(error) => {
                    return Err(error);
                },
            };
            Ok(
                ProbePlan::Open(
                    ProbeSelector { vendor_id, product_id, serial_number: serial.clone() },
                ),
            )
        },
        _ => Ok(
            ProbePlan::Detect {
                vendor_ignored: usb_vid.is_some(),
                product_ignored: usb_pid.is_some(),
            },
        ),
    }
}

/// A text is read as one number at most, and a number never as an error.
pub proof fn law_identifier_is_read_one_way(
    text: Seq<char>,
    first: Result<u16, HexError>,
    second: Result<u16, HexError>,
)
    requires
        reads_as(text, first),
        reads_as(text, second),
    ensures
        first is Ok <==> second is Ok,
        first is Ok ==> first == second,
        first is Ok <==> is_usb_id(text),
{
}

/// Whether the probe runs slower than it was asked to.
pub fn is_slower(wanted_khz: u32, actual_khz: u32) -> (slower: bool)
    ensures
        slower <==> actual_khz < wanted_khz,
{
    actual_khz < wanted_khz
}

/// One line of the list of attached probes.
pub open spec fn probe_entry(number: nat, description: Seq<char>) -> Seq<char> {
    "["@ + crate::text::decimal(number) + "]: "@ + description
}

/// The list of attached probes, a line for each, numbered from zero.
pub open spec fn probe_entries(descriptions: Seq<Seq<char>>) -> Seq<Seq<char>> {
    Seq::new(descriptions.len(), |n: int| probe_entry(n as nat, descriptions[n]))
}

/// The refusal to pick one of several probes.
pub open spec fn several_probes(descriptions: Seq<Seq<char>>) -> Seq<char> {
    "The following devices were found:\n "@ + crate::text::unlines(probe_entries(descriptions))
        + " Use '--probe VID:PID'\n You can also set the [default.probe] config attribute (in your Embed.toml) to select which probe to use. For usage examples see https://github.com/probe-rs/cargo-embed/blob/master/src/config/default.toml ."@
}

/// Why the attached probes give none to use.
#[derive(Clone, Debug, PartialEq, Eq)]
pub enum DetectError {
    NoProbe,
    /// There are several; the message lists them.
    SeveralProbes(String),
}

impl DetectError {
    /// The error as a user reads it.
    pub fn message(self) -> (text: String)
        ensures
            self is NoProbe ==> text@ == "No supported probe was found"@,
            self matches DetectError::SeveralProbes(list) ==> text@ == list@,
    {
        match self {
            DetectError::NoProbe => "No supported probe was found".to_string(),
            DetectError::SeveralProbes(list) => list,
        }
    }
}

/// Picks the probe to use from descriptions of those attached: the only one. With
/// none or several there is nothing to pick.
pub fn pick_detected(descriptions: &Vec<String>) -> (picked: Result<usize, DetectError>)
    ensures
        picked == Ok::<usize, DetectError>(0) <==> descriptions@.len() == 1,
        picked is Ok ==> descriptions@.len() == 1,
        picked == Err::<usize, DetectError>(DetectError::NoProbe) <==> descriptions@.len() == 0,
        picked matches Err(DetectError::SeveralProbes(message)) ==> message@ == several_probes(
            crate::text::views(descriptions@),
        ),
{
    if descriptions.len() == 0 {
        return Err(DetectError::NoProbe);
    }
    if descriptions.len() == 1 {
        return Ok(0);
    }
    let ghost entries = probe_entries(crate::text::views(descriptions@));
    let mut message = "The following devices were found:\n ".to_string();
    let ghost start = message@;
    proof {
        assert(crate::text::unlines(entries.take(0)) =~= Seq::<char>::empty());
        assert(message@ =~= start + crate::text::unlines(entries.take(0)));
    }
    for n in 0..descriptions.len()
        invariant
            entries == probe_entries(crate::text::views(descriptions@)),
            message@ == start + crate::text::unlines(entries.take(n as int)),
    {
        let number = decimal_text(n as u64);
        message.append("[");
        message.append(number.as_str());
        message.append("]: ");
        message.append(descriptions[n].as_str());
        message.append("\n");
        proof {
            reveal_strlit("\n");
            assert("\n"@ =~= seq!['\n']);
            assert(entries.take(n + 1) =~= entries.take(n as int).push(entries[n as int]));
            crate::text::lemma_unlines_push(entries.take(n as int), entries[n as int]);
            assert(crate::text::views(descriptions@)[n as int] == descriptions@[n as int]@);
            assert(message@ =~= start + crate::text::unlines(entries.take(n + 1)));
        }
    }
    message.append(
        " Use '--probe VID:PID'\n You can also set the [default.probe] config attribute (in your Embed.toml) to select which probe to use. For usage examples see https://github.com/probe-rs/cargo-embed/blob/master/src/config/default.toml .",
    );
    proof {
        assert(crate::text::views(descriptions@).len() == descriptions@.len());
        assert(entries.take(descriptions@.len() as int) =~= entries);
    }
    Err(DetectError::SeveralProbes(message))
}

/// The list of probes names every attached one, on a line of its own.
pub proof fn law_list_has_a_line_for_each_probe(descriptions: Seq<Seq<char>>)
    requires
        forall|n: int| 0 <= n < descriptions.len() ==> crate::text::fits_on_a_line(
            #[trigger] descriptions[n],
        ),
    ensures
        crate::text::lines(crate::text::unlines(probe_entries(descriptions))) == probe_entries(
            descriptions,
        ),
{
    let entries = probe_entries(descriptions);
    assert forall|n: int| 0 <= n < entries.len() implies crate::text::fits_on_a_line(
        #[trigger] entries[n],
    ) by {
        reveal_strlit("[");
        reveal_strlit("]: ");
        crate::text::law_decimal_reads_back(n as nat);
        let number = crate::text::decimal(n as nat);
        assert(crate::text::fits_on_a_line(descriptions[n]));
        if entries[n].contains('\n') {
            let i = choose|i: int| 0 <= i < entries[n].len() && entries[n][i] == '\n';
            let at = number.len() + 4;
            if i >= at {
                assert(descriptions[n][i - at] == '\n');
                assert(descriptions[n].contains('\n'));
            } else if 1 <= i < 1 + number.len() {
                assert(entries[n][i] == number[i - 1]);
            }
        }
    }
    crate::text::law_unlines_come_apart(entries);
}

/// A digit stands for its value, from zero to fifteen, letters in either case; a
/// further digit counts one and moves the others up by sixteen. A plus sign and
/// leading zeros change nothing.
pub proof fn law_hexadecimal_notation(digits: Seq<char>, c: char)
    ensures
        hex_value(Seq::<char>::empty()) == 0,
        '0' <= c <= '9' ==> hex_digit(c) == Some((c as int - '0' as int) as nat),
        'a' <= c <= 'f' ==> hex_digit(c) == Some((c as int - 'a' as int + 10) as nat),
        'A' <= c <= 'F' ==> hex_digit(c) == Some((c as int - 'A' as int + 10) as nat),
        hex_digit(c) is Some <==> '0' <= c <= '9' || 'a' <= c <= 'f' || 'A' <= c <= 'F',
        hex_digit(c) is Some ==> hex_value(digits.push(c)) == 16 * hex_value(digits)
            + hex_digit(c)->0,
        hex_value(seq!['0'] + digits) == hex_value(digits),
        is_hex(digits) && digits[0] != '+' ==> is_hex(seq!['+'] + digits) && (is_usb_id(
            seq!['+'] + digits,
        ) <==> is_usb_id(digits)),
        digits.len() > 0 && digits[0] != '+' ==> (is_hex(digits) <==> forall|i: int|
            0 <= i < digits.len() ==> hex_digit(#[trigger] digits[i]) is Some),
        is_usb_id(digits) && digits[0] != '+' <==> is_hex(digits) && digits[0] != '+' && hex_value(
            digits,
        ) < 0x1_0000,
    decreases digits.len(),
{
    assert(digits.push(c).drop_last() =~= digits);
    let zero = seq!['0'] + digits;
    if digits.len() > 0 {
        law_hexadecimal_notation(digits.drop_last(), c);
        assert(zero.drop_last() =~= seq!['0'] + digits.drop_last());
    } else {
        assert(zero.drop_last() =~= Seq::<char>::empty());
        assert(digits =~= Seq::<char>::empty());
        assert(hex_value(zero.drop_last()) == 0);
    }
    let signed = seq!['+'] + digits;
    assert(signed.skip(1) =~= digits);
}

/// The list of probes is between a fixed beginning and a fixed end, and each further
/// probe adds one line to it: its number, from zero, and its description.
pub proof fn law_each_probe_adds_its_line(descriptions: Seq<Seq<char>>, further: Seq<char>)
    ensures
        several_probes(descriptions) == "The following devices were found:\n "@
            + crate::text::unlines(probe_entries(descriptions))
            + " Use '--probe VID:PID'\n You can also set the [default.probe] config attribute (in your Embed.toml) to select which probe to use. For usage examples see https://github.com/probe-rs/cargo-embed/blob/master/src/config/default.toml ."@,
        crate::text::unlines(probe_entries(Seq::<Seq<char>>::empty())) == Seq::<char>::empty(),
        crate::text::unlines(probe_entries(descriptions.push(further))) == crate::text::unlines(
            probe_entries(descriptions),
        ) + "["@ + crate::text::decimal(descriptions.len()) + "]: "@ + further + seq!['\n'],
{
    let longer = probe_entries(descriptions.push(further));
    let entry = probe_entry(descriptions.len(), further);
    assert(longer =~= probe_entries(descriptions).push(entry));
    crate::text::lemma_unlines_push(probe_entries(descriptions), entry);
    assert(probe_entries(Seq::<Seq<char>>::empty()) =~= Seq::<Seq<char>>::empty());
    assert(crate::text::unlines(Seq::<Seq<char>>::empty()) =~= Seq::<char>::empty());
    assert(crate::text::unlines(longer) =~= crate::text::unlines(probe_entries(descriptions))
        + "["@ + crate::text::decimal(descriptions.len()) + "]: "@ + further + seq!['\n']);
}

/// A text is read as the number that it stands for, and as no other. It is refused
/// exactly when it is no number or too large a one, as empty exactly when it is.
pub proof fn law_identifiers_are_read_as_written(text: Seq<char>, value: u16, error: HexError)
    ensures
        reads_as(text, Ok(value)) <==> is_usb_id(text) && hex_value(
            if text.len() > 0 && text[0] == '+' {
                text.skip(1)
            } else {
                text
            },
        ) == value,
        reads_as(text, Err(error)) ==> !is_usb_id(text),
        text.len() == 0 && reads_as(text, Err(error)) ==> error.reason is Empty,
        text.len() > 0 ==> !(reads_as(text, Err(error)) && error.reason is Empty),
        is_hex(text) && reads_as(text, Err(error)) ==> error.reason is TooLarge,
        text.len() > 0 && text.len() <= 4 && reads_as(text, Err(error)) ==> error.reason
            is InvalidDigit,
{
}

} // verus!
