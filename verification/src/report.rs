//! The lines that a run prints, with their coloured labels.
use colored::Colorize;
use vstd::prelude::*;
use vstd::string::{StrSliceExecFns, StringExecFns};

use crate::session::Failure;
use crate::text::split_lines;

verus! {

/// The label of an error report.
pub const ERROR_LABEL: &'static str = "Error";

/// The notice about the former place of the halt option.
pub const HALT_MOVED: &'static str =
    "The 'flashing.halt_afterwards' option in the config has moved to the 'reset' section";

/// How many spaces stand before an error report.
pub const REPORT_INDENT: usize = 7;

/// The control sequence that ends a style.
pub open spec fn style_end() -> Seq<char> {
    seq!['\u{1b}', '[', '0', 'm']
}

/// `text` in bold and in one of the eight basic colours, as terminals read it.
pub open spec fn styled(text: Seq<char>, color: char) -> Seq<char> {
    seq!['\u{1b}', '[', '1', ';', '3', color, 'm'] + text + style_end()
}

/// What painting `text` may give: the bare text where colours are off, the styled
/// text where they are on. The setting is read more than once, so switching colours
/// off meanwhile can leave the end of the style alone.
pub open spec fn painted(text: Seq<char>, color: char, out: Seq<char>) -> bool {
    ||| out == text
    ||| out == styled(text, color)
    ||| out == text + style_end()
}

/// Paints `text` with `Colorize::red` and `Colorize::bold` and writes out the
/// `ColoredString`. Whether colours are on depends on the environment, on the
/// terminal and on overrides; the contract covers each case. A text with control
/// sequences of its own is left out, because those would be rewritten.
#[verifier::external_body]
fn paint_red(text: &str) -> (out: String)
    requires
        !text@.contains('\u{1b}'),
    ensures
        painted(text@, '1', out@),
{
    text.red().bold().to_string()
}

/// As `paint_red`, with `Colorize::green`.
#[verifier::external_body]
fn paint_green(text: &str) -> (out: String)
    requires
        !text@.contains('\u{1b}'),
    ensures
        painted(text@, '2', out@),
{
    text.green().bold().to_string()
}

/// As `paint_red`, with `Colorize::yellow`.
#[verifier::external_body]
fn paint_yellow(text: &str) -> (out: String)
    requires
        !text@.contains('\u{1b}'),
    ensures
        painted(text@, '3', out@),
{
    text.yellow().bold().to_string()
}

/// A number of spaces.
pub open spec fn spaces(count: nat) -> Seq<char> {
    Seq::new(count, |i: int| ' ')
}

/// An indented label, a space and the rest of the line.
pub open spec fn labelled(indent: nat, label: Seq<char>, rest: Seq<char>) -> Seq<char> {
    spaces(indent) + label + seq![' '] + rest
}

fn append_spaces(line: &mut String, count: usize)
    ensures
        final(line)@ == old(line)@ + spaces(count as nat),
{
    let ghost start = line@;
    proof {
        reveal_strlit(" ");
        assert(start + spaces(0) =~= start);
    }
    for i in 0..count
        invariant
            " "@ == seq![' '],
            line@ == start + spaces(i as nat),
    {
        line.append(" ");
        proof {
            assert(start + spaces(i as nat) + seq![' '] =~= start + spaces((i + 1) as nat));
        }
    }
}

/// Puts a line together from its indent, its label and the rest.
pub fn labelled_line(indent: usize, label: &str, rest: &str) -> (line: String)
    ensures
        line@ == labelled(indent as nat, label@, rest@),
{
    let mut line = String::new();
    append_spaces(&mut line, indent);
    line.append(label);
    line.append(" ");
    line.append(rest);
    proof {
        reveal_strlit(" ");
        assert(" "@ =~= seq![' ']);
        assert(line@ =~= labelled(indent as nat, label@, rest@));
    }
    line
}

/// The line that names the configuration of a run.
pub fn config_line(name: &str) -> (line: String)
    ensures
        exists|label: Seq<char>| #[trigger]
            painted("Config"@, '2', label) && line@ == labelled(6, label, name@),
{
    proof {
        reveal_strlit("Config");
    }
    let label = paint_green("Config");
    labelled_line(6, label.as_str(), name)
}

/// The line that names the artifact of a run.
pub fn target_line(path: &str) -> (line: String)
    ensures
        exists|label: Seq<char>| #[trigger]
            painted("Target"@, '2', label) && line@ == labelled(6, label, path@),
{
    proof {
        reveal_strlit("Target");
    }
    let label = paint_green("Target");
    labelled_line(6, label.as_str(), path)
}

/// The line that ends flashing; `seconds` is the time it took.
pub fn finished_line(seconds: &str) -> (line: String)
    ensures
        exists|label: Seq<char>| #[trigger]
            painted("Finished"@, '2', label) && line@ == labelled(
                4,
                label,
                "flashing in "@ + seconds@ + "s"@,
            ),
{
    proof {
        reveal_strlit("Finished");
    }
    let label = paint_green("Finished");
    let rest = "flashing in ".to_string().concat(seconds).concat("s");
    labelled_line(4, label.as_str(), rest.as_str())
}

/// The warning that the halt option has moved.
pub fn halt_moved_line() -> (line: String)
    ensures
        exists|label: Seq<char>| #[trigger]
            painted("Warning"@, '3', label) && line@ == labelled(5, label, HALT_MOVED@),
{
    proof {
        reveal_strlit("Warning");
    }
    let label = paint_yellow("Warning");
    labelled_line(5, label.as_str(), HALT_MOVED)
}

/// The last line of a run that completes.
pub fn done_line(name: &str) -> (line: String)
    ensures
        exists|label: Seq<char>| #[trigger]
            painted("Done"@, '2', label) && line@ == labelled(
                8,
                label,
                "processing config "@ + name@,
            ),
{
    proof {
        reveal_strlit("Done");
    }
    let label = paint_green("Done");
    let rest = "processing config ".to_string().concat(name);
    labelled_line(8, label.as_str(), rest.as_str())
}

/// The lines of an error report: the label stands before the first line of the
/// text, and as many spaces as it has letters before the others.
pub open spec fn report(label: Seq<char>, text: Seq<char>) -> Seq<Seq<char>> {
    let lines = crate::text::lines(text);
    Seq::new(
        lines.len(),
        |n: int|
            labelled(
                REPORT_INDENT as nat,
                if n == 0 {
                    label
                } else {
                    spaces(ERROR_LABEL@.len())
                },
                lines[n],
            ),
    )
}

/// Lays out an error report with a given label.
pub fn labelled_report(label: &str, text: &str) -> (found: Vec<String>)
    ensures
        crate::text::views(found@) == report(label@, text@),
{
    let lines = split_lines(text);
    let ghost expected = report(label@, text@);
    let mut margin = String::new();
    append_spaces(&mut margin, ERROR_LABEL.unicode_len());
    proof {
        assert(margin@ =~= spaces(ERROR_LABEL@.len()));
    }
    let mut found: Vec<String> = Vec::new();
    for n in 0..lines.len()
        invariant
            crate::text::views(lines@) == crate::text::lines(text@),
            margin@ == spaces(ERROR_LABEL@.len()),
            expected == report(label@, text@),
            found@.len() == n,
            forall|k: int| 0 <= k < n ==> #[trigger] found@[k]@ == expected[k],
    {
        let line = labelled_line(
            REPORT_INDENT,
            if n == 0 {
                label
            } else {
                margin.as_str()
            },
            lines[n].as_str(),
        );
        proof {
            assert(crate::text::views(lines@)[n as int] == lines@[n as int]@);
        }
        found.push(line);
    }
    proof {
        assert(crate::text::views(lines@).len() == lines@.len());
        assert(crate::text::views(found@) =~= expected);
    }
    found
}

/// The report that a failed run prints about its error.
pub fn error_report(text: &str) -> (found: Vec<String>)
    ensures
        exists|label: Seq<char>| #[trigger]
            painted(ERROR_LABEL@, '1', label) && crate::text::views(found@) == report(
                label,
                text@,
            ),
{
    proof {
        reveal_strlit("Error");
    }
    let label = paint_red(ERROR_LABEL);
    labelled_report(label.as_str(), text)
}

/// What an error report says first about a failure, before the error that caused
/// it; for some failures the error stands alone. `subject` is what the failure is
/// about: a path, or what the failing part said.
pub open spec fn context_of(failure: Failure, subject: Seq<char>) -> Option<Seq<char>> {
    match failure {
        Failure::ChipDescription(_) => Some(
            "failed to load the chip description from "@ + subject,
        ),
        Failure::BinaryName => Some(
            "Unable to determine binary file name from path "@ + subject,
        ),
        Failure::Protocol => Some("failed to select protocol"@),
        Failure::Speed => Some("failed to set speed"@),
        Failure::Attach => Some("failed attaching to target"@),
        Failure::Flash => Some("failed to flash "@ + subject),
        Failure::RttAttach => Some("Error attaching to RTT: "@ + subject),
        _ => None,
    }
}

/// Writes what an error report says first about a failure.
pub fn failure_context(failure: Failure, subject: &str) -> (context: Option<String>)
    ensures
        match context_of(failure, subject@) {
            Some(text) => context matches Some(written) && written@ == text,
            None => context is None,
        },
{
    match failure {
        Failure::ChipDescription(_) => Some(
            "failed to load the chip description from ".to_string().concat(subject),
        ),
        Failure::BinaryName => Some(
            "Unable to determine binary file name from path ".to_string().concat(subject),
        ),
        Failure::Protocol => Some("failed to select protocol".to_string()),
        Failure::Speed => Some("failed to set speed".to_string()),
        Failure::Attach => Some("failed attaching to target".to_string()),
        Failure::Flash => Some("failed to flash ".to_string().concat(subject)),
        Failure::RttAttach => Some("Error attaching to RTT: ".to_string().concat(subject)),
        _ => None,
    }
}

/// Where no colours are used, the lines of the error stand below each other: each
/// starts in the same column, behind the label or behind as many spaces.
pub proof fn law_report_is_aligned(text: Seq<char>, n: int)
    requires
        0 <= n < crate::text::lines(text).len(),
    ensures
        report(ERROR_LABEL@, text).len() == crate::text::lines(text).len(),
        report(ERROR_LABEL@, text)[n].skip(REPORT_INDENT + ERROR_LABEL@.len() + 1)
            == crate::text::lines(text)[n],
{
    let line = report(ERROR_LABEL@, text)[n];
    assert(line.skip(REPORT_INDENT + ERROR_LABEL@.len() + 1) =~= crate::text::lines(text)[n]);
}

/// A line is its indent in spaces, its label, one space and the rest, and nothing else.
pub proof fn law_lines_are_put_together(indent: nat, label: Seq<char>, rest: Seq<char>, k: int)
    ensures
        labelled(indent, label, rest).len() == indent + label.len() + 1 + rest.len(),
        0 <= k < indent ==> labelled(indent, label, rest)[k] == ' ',
        labelled(indent, label, rest).subrange(indent as int, (indent + label.len()) as int)
            == label,
        labelled(indent, label, rest)[(indent + label.len()) as int] == ' ',
        labelled(indent, label, rest).skip((indent + label.len() + 1) as int) == rest,
{
    let line = labelled(indent, label, rest);
    assert(line.subrange(indent as int, (indent + label.len()) as int) =~= label);
    assert(line.skip((indent + label.len() + 1) as int) =~= rest);
}

/// An error report has a line for each line of the error. Seven spaces and the label
/// stand before the first, and twelve spaces before each other, then one space more
/// and the line itself.
pub proof fn law_report_has_every_line(label: Seq<char>, text: Seq<char>, n: int)
    requires
        0 <= n < crate::text::lines(text).len(),
    ensures
        report(label, text).len() == crate::text::lines(text).len(),
        n == 0 ==> report(label, text)[n] == Seq::new(7, |i: int| ' ') + label + seq![' ']
            + crate::text::lines(text)[n],
        n > 0 ==> report(label, text)[n] == Seq::new(13, |i: int| ' ')
            + crate::text::lines(text)[n],
{
    reveal_strlit("Error");
    let line = crate::text::lines(text)[n];
    if n == 0 {
        assert(report(label, text)[n] =~= Seq::new(7, |i: int| ' ') + label + seq![' '] + line);
    } else {
        assert(report(label, text)[n] =~= Seq::new(13, |i: int| ' ') + line);
    }
}

/// Painting leaves the text as it is, apart from the control sequences around it.
pub proof fn law_paint_keeps_the_text(text: Seq<char>, color: char, out: Seq<char>)
    requires
        painted(text, color, out),
    ensures
        out == text || out == text + seq!['\u{1b}', '[', '0', 'm'] || out
            == seq!['\u{1b}', '[', '1', ';', '3', color, 'm'] + text
            + seq!['\u{1b}', '[', '0', 'm'],
{
}

/// What failed is said first, and of what: with the path or the words given for it.
/// Failures that explain themselves have nothing before them.
pub proof fn law_failures_are_explained(failure: Failure, subject: Seq<char>, index: usize)
    ensures
        context_of(failure, subject) is Some <==> (failure is ChipDescription || failure
            is BinaryName || failure is Protocol || failure is Speed || failure is Attach || failure
            is Flash || failure is RttAttach),
        context_of(Failure::ChipDescription(index), subject) == Some(
            "failed to load the chip description from "@ + subject,
        ),
        context_of(Failure::BinaryName, subject) == Some(
            "Unable to determine binary file name from path "@ + subject,
        ),
        context_of(Failure::Protocol, subject) == Some("failed to select protocol"@),
        context_of(Failure::Speed, subject) == Some("failed to set speed"@),
        context_of(Failure::Attach, subject) == Some("failed attaching to target"@),
        context_of(Failure::Flash, subject) == Some("failed to flash "@ + subject),
        context_of(Failure::RttAttach, subject) == Some("Error attaching to RTT: "@ + subject),
{
}

/// An error is labelled as one, and the notice names both places of the moved option.
pub proof fn law_labels_say_what_they_are_for()
    ensures
        ERROR_LABEL@ == "Error"@,
        HALT_MOVED@
            == "The 'flashing.halt_afterwards' option in the config has moved to the 'reset' section"@,
{
}

} // verus!
