//! Text as the messages of a run need it: numbers and lines.
use vstd::prelude::*;
use vstd::string::{StrSliceExecFns, StringExecFns};

verus! {

/// The texts that a sequence of strings holds.
pub open spec fn views(strings: Seq<String>) -> Seq<Seq<char>> {
    strings.map_values(|s: String| s@)
}

/// The digit for a number below ten.
pub open spec fn digit(n: nat) -> char
    recommends
        n < 10,
{
    (('0' as nat) + n) as char
}

/// The decimal notation of a number.
pub open spec fn decimal(n: nat) -> Seq<char>
    decreases n,
{
    if n < 10 {
        seq![digit(n)]
    } else {
        decimal(n / 10).push(digit(n % 10))
    }
}

/// The number that a sequence of decimal digits stands for.
pub open spec fn decimal_value(digits: Seq<char>) -> int
    decreases digits.len(),
{
    if digits.len() == 0 {
        0
    } else {
        10 * decimal_value(digits.drop_last()) + (digits.last() as int - '0' as int)
    }
}

/// Reading the decimal notation of a number gives the number back, so different
/// numbers have different notations.
pub proof fn law_decimal_reads_back(n: nat)
    ensures
        decimal_value(decimal(n)) == n,
        forall|i: int| 0 <= i < decimal(n).len() ==> '0' <= #[trigger] decimal(n)[i] <= '9',
        decimal(n).len() > 0,
        n > 0 ==> decimal(n)[0] != '0',
    decreases n,
{
    if n < 10 {
        assert(seq![digit(n)].drop_last() =~= Seq::<char>::empty());
        assert(decimal_value(Seq::<char>::empty()) == 0);
    } else {
        law_decimal_reads_back(n / 10);
        assert(decimal(n).drop_last() =~= decimal(n / 10));
    }
}

fn digit_text(n: u64) -> (text: &'static str)
    requires
        n < 10,
    ensures
        text@ == seq![digit(n as nat)],
{
    proof {
        reveal_strlit("0");
        reveal_strlit("1");
        reveal_strlit("2");
        reveal_strlit("3");
        reveal_strlit("4");
        reveal_strlit("5");
        reveal_strlit("6");
        reveal_strlit("7");
        reveal_strlit("8");
        reveal_strlit("9");
    }
    match n {
        0 => "0",
        1 => "1",
        2 => "2",
        3 => "3",
        4 => "4",
        5 => "5",
        6 => "6",
        7 => "7",
        8 => "8",
        _ => "9",
    }
}

/// Writes a number in decimal notation.
pub fn decimal_text(n: u64) -> (text: String)
    ensures
        text@ == decimal(n as nat),
    decreases n,
{
    if n < 10 {
        digit_text(n).to_string()
    } else {
        let mut text = decimal_text(n / 10);
        text.append(digit_text(n % 10));
        proof {
            assert(text@ =~= decimal(n as nat));
        }
        text
    }
}

/// The length of the first line of a text, without its line feed.
pub open spec fn line_end(text: Seq<char>) -> nat
    decreases text.len(),
{
    if text.len() == 0 || text[0] == '\n' {
        0
    } else {
        1 + line_end(text.drop_first())
    }
}

/// A line without the carriage return before its line feed.
pub open spec fn without_return(line: Seq<char>) -> Seq<char> {
    if line.len() > 0 && line.last() == '\r' {
        line.drop_last()
    } else {
        line
    }
}

/// The lines of a text. A line ends with a line feed, which may follow a carriage
/// return; the last line may do without.
pub open spec fn lines(text: Seq<char>) -> Seq<Seq<char>>
    decreases text.len(),
{
    let end = line_end(text) as int;
    if text.len() == 0 {
        seq![]
    } else if end >= text.len() {
        seq![text]
    } else {
        seq![without_return(text.take(end))] + lines(text.skip(end + 1))
    }
}

proof fn lemma_line_end(text: Seq<char>, end: int)
    requires
        0 <= end <= text.len(),
        forall|i: int| 0 <= i < end ==> text[i] != '\n',
        end < text.len() ==> text[end] == '\n',
    ensures
        line_end(text) == end,
    decreases end,
{
    if end > 0 {
        lemma_line_end(text.drop_first(), end - 1);
    }
}

proof fn lemma_line_end_bounds(text: Seq<char>)
    ensures
        line_end(text) <= text.len(),
        forall|i: int| 0 <= i < line_end(text) ==> text[i] != '\n',
        line_end(text) < text.len() ==> text[line_end(text) as int] == '\n',
    decreases text.len(),
{
    if text.len() > 0 && text[0] != '\n' {
        let rest = text.drop_first();
        lemma_line_end_bounds(rest);
        assert forall|i: int| 0 <= i < line_end(text) implies text[i] != '\n' by {
            if i > 0 {
                assert(text[i] == rest[i - 1]);
            }
        }
    }
}

/// Splits a text into its lines.
pub fn split_lines(text: &str) -> (found: Vec<String>)
    ensures
        views(found@) == lines(text@),
{
    let mut chars: Vec<char> = Vec::new();
    for c in it: text.chars()
        invariant
            it.seq() == text@,
            chars@ == text@.take(it.index() as int),
    {
        chars.push(c);
    }
    proof {
        assert(text@.take(text@.len() as int) =~= text@);
        assert(text@.skip(0) =~= text@);
    }
    let mut found: Vec<String> = Vec::new();
    let mut start: usize = 0;
    let mut i: usize = 0;
    proof {
        assert(views(found@) + lines(text@) =~= lines(text@));
    }
    while i < chars.len()
        invariant
            chars@ == text@,
            start <= i <= chars.len(),
            forall|k: int| start <= k < i ==> text@[k] != '\n',
            views(found@) + lines(text@.skip(start as int)) == lines(text@),
        decreases chars.len() - i,
    {
        if chars[i] == '\n' {
            let end: usize = if i > start && chars[i - 1] == '\r' {
                i - 1
            } else {
                i
            };
            let ghost rest = text@.skip(start as int);
            let ghost before = found@;
            found.push(text.substring_char(start, end).to_string());
            proof {
                let line = text@.subrange(start as int, end as int);
                lemma_line_end(rest, i - start);
                assert(rest.take(i - start) =~= text@.subrange(start as int, i as int));
                assert(without_return(rest.take(i - start)) =~= line);
                assert(rest.skip(i - start + 1) =~= text@.skip(i + 1));
                assert(lines(rest) == seq![line] + lines(text@.skip(i + 1)));
                assert(views(found@) =~= views(before).push(line));
                assert(views(found@) + lines(text@.skip(i + 1)) =~= views(before) + lines(rest));
            }
            start = i + 1;
        }
        i = i + 1;
    }
    let ghost rest = text@.skip(start as int);
    proof {
        lemma_line_end(rest, rest.len() as int);
    }
    if start < chars.len() {
        let ghost before = found@;
        found.push(text.substring_char(start, chars.len()).to_string());
        proof {
            assert(text@.subrange(start as int, text@.len() as int) =~= rest);
            assert(views(found@) =~= views(before) + seq![rest]);
        }
    } else {
        proof {
            assert(rest =~= Seq::<char>::empty());
            assert(views(found@) + lines(rest) =~= views(found@));
        }
    }
    found
}

/// No line of a text holds a line feed.
pub proof fn law_lines_hold_no_line_feed(text: Seq<char>, n: int, i: int)
    requires
        0 <= n < lines(text).len(),
        0 <= i < lines(text)[n].len(),
    ensures
        lines(text)[n][i] != '\n',
    decreases text.len(),
{
    lemma_line_end_bounds(text);
    let end = line_end(text) as int;
    if text.len() > 0 && end < text.len() && n > 0 {
        law_lines_hold_no_line_feed(text.skip(end + 1), n - 1, i);
    }
}

/// Lines put together again, each ended by a line feed.
pub open spec fn unlines(parts: Seq<Seq<char>>) -> Seq<char>
    decreases parts.len(),
{
    if parts.len() == 0 {
        seq![]
    } else {
        parts[0].push('\n') + unlines(parts.drop_first())
    }
}

/// Splitting loses nothing but the ends of lines: put together again, the lines
/// of a text without carriage returns give the text, with a line feed at its end.
pub proof fn law_lines_keep_the_text(text: Seq<char>)
    requires
        !text.contains('\r'),
    ensures
        text.len() > 0 && text.last() != '\n' ==> unlines(lines(text)) == text.push('\n'),
        text.len() == 0 || text.last() == '\n' ==> unlines(lines(text)) == text,
    decreases text.len(),
{
    lemma_line_end_bounds(text);
    let end = line_end(text) as int;
    if text.len() == 0 {
        assert(unlines(lines(text)) =~= text);
    } else if end == text.len() {
        assert(lines(text) =~= seq![text]);
        assert(lines(text).drop_first() =~= Seq::<Seq<char>>::empty());
        assert(unlines(Seq::<Seq<char>>::empty()) =~= Seq::<char>::empty());
        assert(unlines(lines(text)) =~= text.push('\n'));
    } else {
        let rest = text.skip(end + 1);
        let first = text.take(end);
        assert(!rest.contains('\r'));
        law_lines_keep_the_text(rest);
        assert(without_return(first) == first) by {
            if first.len() > 0 {
                assert(text.contains(first.last()));
            }
        }
        assert(lines(text).drop_first() =~= lines(rest));
        assert(text =~= first.push('\n') + rest);
        assert(unlines(lines(text)) == first.push('\n') + unlines(lines(rest)));
        if rest.len() > 0 && text.last() != '\n' {
            assert(unlines(lines(text)) =~= text.push('\n'));
        }
    }
}

/// Whether a text can stand on a line of its own: it holds no line feed and does
/// not end with a carriage return.
pub open spec fn fits_on_a_line(part: Seq<char>) -> bool {
    &&& !part.contains('\n')
    &&& part.len() > 0 ==> part.last() != '\r'
}

/// Lines that were put together come apart again as they were.
pub proof fn law_unlines_come_apart(parts: Seq<Seq<char>>)
    requires
        forall|n: int| 0 <= n < parts.len() ==> fits_on_a_line(#[trigger] parts[n]),
    ensures
        lines(unlines(parts)) == parts,
    decreases parts.len(),
{
    let text = unlines(parts);
    if parts.len() == 0 {
        assert(lines(text) =~= parts);
    } else {
        let first = parts[0];
        let rest = unlines(parts.drop_first());
        assert(fits_on_a_line(first));
        assert forall|i: int| 0 <= i < first.len() implies text[i] != '\n' by {
            assert(first.contains(first[i]));
        }
        lemma_line_end(text, first.len() as int);
        assert(text.take(first.len() as int) =~= first);
        assert(text.skip(first.len() as int + 1) =~= rest);
        assert forall|n: int| 0 <= n < parts.drop_first().len() implies fits_on_a_line(
            #[trigger] parts.drop_first()[n],
        ) by {
            assert(parts.drop_first()[n] == parts[n + 1]);
        }
        law_unlines_come_apart(parts.drop_first());
        assert(seq![first] + parts.drop_first() =~= parts);
    }
}

/// One more line comes behind the others.
pub proof fn lemma_unlines_push(parts: Seq<Seq<char>>, part: Seq<char>)
    ensures
        unlines(parts.push(part)) == unlines(parts) + part.push('\n'),
    decreases parts.len(),
{
    if parts.len() == 0 {
        assert(parts.push(part).drop_first() =~= Seq::<Seq<char>>::empty());
        assert(unlines(Seq::<Seq<char>>::empty()) =~= Seq::<char>::empty());
        assert(unlines(parts.push(part)) =~= unlines(parts) + part.push('\n'));
    } else {
        lemma_unlines_push(parts.drop_first(), part);
        assert(parts.push(part).drop_first() =~= parts.drop_first().push(part));
        assert(unlines(parts.push(part)) =~= unlines(parts) + part.push('\n'));
    }
}

/// A further digit stands behind those of the number without it, and a number below
/// ten is one digit.
pub proof fn law_decimal_grows_by_digits(n: nat, d: nat)
    requires
        d < 10,
    ensures
        decimal(d).len() == 1,
        decimal(d)[0] as nat == '0' as nat + d,
        n > 0 ==> decimal(10 * n + d) == decimal(n) + decimal(d),
{
    if n > 0 {
        assert((10 * n + d) / 10 == n && (10 * n + d) % 10 == d);
        assert(decimal(10 * n + d) =~= decimal(n) + decimal(d));
    }
}

/// A line ends at its line feed, or at a carriage return right before that; a line
/// that is not ended stands as it is, and nothing has no lines.
pub proof fn law_lines_end_where_they_should(line: Seq<char>, rest: Seq<char>)
    requires
        !line.contains('\n'),
    ensures
        lines(Seq::<char>::empty()) == Seq::<Seq<char>>::empty(),
        line.len() > 0 ==> lines(line) == seq![line],
        lines(line + seq!['\r', '\n'] + rest) == seq![line] + lines(rest),
        line.len() == 0 || line.last() != '\r' ==> lines(line + seq!['\n'] + rest) == seq![line]
            + lines(rest),
{
    assert forall|i: int| 0 <= i < line.len() implies line[i] != '\n' by {
        assert(line.contains(line[i]));
    }
    assert(lines(Seq::<char>::empty()) =~= Seq::<Seq<char>>::empty());
    let end = line.len() as int;
    lemma_line_end(line, end);
    let both = line + seq!['\r', '\n'] + rest;
    lemma_line_end(both, end + 1);
    assert(both.take(end + 1).drop_last() =~= line);
    assert(both.skip(end + 2) =~= rest);
    let one = line + seq!['\n'] + rest;
    lemma_line_end(one, end);
    assert(one.take(end) =~= line);
    assert(one.skip(end + 1) =~= rest);
}

/// The texts of strings are those of each string, in their order.
pub proof fn law_every_text_is_there(strings: Seq<String>, n: int)
    requires
        0 <= n < strings.len(),
    ensures
        views(strings).len() == strings.len(),
        views(strings)[n] == strings[n]@,
{
}

} // verus!
