//! The target chip, and the list of those that are supported.
use vstd::prelude::*;
use vstd::string::StringExecFns;

verus! {

/// Which chip a run attaches to.
#[derive(Clone, Debug, PartialEq, Eq)]
pub enum ChipChoice {
    /// Let the probe find out.
    Auto,
    Named(String),
}

/// Picks the chip: the one on the command line, else the configured one, else the
/// one that the probe finds.
pub fn choose_chip(given: &Option<String>, configured: &Option<String>) -> (chip: ChipChoice)
    ensures
        chip is Auto <==> given is None && configured is None,
        chip matches ChipChoice::Named(name) ==> name@ == (if given is Some {
            given->0@
        } else {
            configured->0@
        }),
{
    match (given, configured) {
        (Some(name), _) => ChipChoice::Named(name.clone()),
        (None, Some(name)) => ChipChoice::Named(name.clone()),
        (None, None) => ChipChoice::Auto,
    }
}

/// A family of chips and its members.
#[derive(Clone, Debug, PartialEq, Eq)]
pub struct Family {
    pub name: String,
    pub variants: Vec<String>,
}

/// The line for a member of a family.
pub open spec fn variant_line(name: Seq<char>) -> Seq<char> {
    "        "@ + name
}

/// The lines for a family.
pub open spec fn family_lines(family: Family) -> Seq<Seq<char>> {
    seq![family.name@, "    Variants:"@] + crate::text::views(family.variants@).map_values(
        |name: Seq<char>| variant_line(name),
    )
}

/// The lines for some families.
pub open spec fn families_lines(families: Seq<Family>) -> Seq<Seq<char>>
    decreases families.len(),
{
    if families.len() == 0 {
        seq![]
    } else {
        families_lines(families.drop_last()) + family_lines(families.last())
    }
}

/// The list of supported chips.
pub open spec fn chip_list(families: Seq<Family>) -> Seq<Seq<char>> {
    seq!["Available chips:"@] + families_lines(families)
}

fn append_family(list: &mut Vec<String>, family: &Family)
    ensures
        crate::text::views(final(list)@) == crate::text::views(old(list)@) + family_lines(*family),
{
    let ghost start = crate::text::views(list@);
    let ghost members = crate::text::views(family.variants@).map_values(
        |name: Seq<char>| variant_line(name),
    );
    list.push(family.name.clone());
    list.push("    Variants:".to_string());
    let ghost head = seq![family.name@, "    Variants:"@];
    proof {
        assert(crate::text::views(list@) =~= start + head + members.take(0));
    }
    for n in 0..family.variants.len()
        invariant
            members == crate::text::views(family.variants@).map_values(
                |name: Seq<char>| variant_line(name),
            ),
            members.len() == family.variants@.len(),
            crate::text::views(list@) == start + head + members.take(n as int),
    {
        let ghost before = list@;
        let line = "        ".to_string().concat(family.variants[n].as_str());
        list.push(line);
        proof {
            assert(members[n as int] == line@);
            assert(crate::text::views(list@) =~= crate::text::views(before).push(line@));
            assert(start + head + members.take(n + 1) =~= (start + head + members.take(
                n as int,
            )).push(line@));
        }
    }
    proof {
        assert(members.take(family.variants@.len() as int) =~= members);
        assert(crate::text::views(list@) =~= start + family_lines(*family));
    }
}

/// Writes the list of supported chips, a line at a time.
pub fn list_chips(families: &Vec<Family>) -> (list: Vec<String>)
    ensures
        crate::text::views(list@) == chip_list(families@),
{
    let mut list: Vec<String> = Vec::new();
    list.push("Available chips:".to_string());
    let ghost head = seq!["Available chips:"@];
    proof {
        assert(crate::text::views(list@) =~= head + families_lines(families@.take(0)));
    }
    for n in 0..families.len()
        invariant
            crate::text::views(list@) == head + families_lines(families@.take(n as int)),
    {
        append_family(&mut list, &families[n]);
        proof {
            assert(families@.take(n + 1).drop_last() =~= families@.take(n as int));
            assert(crate::text::views(list@) =~= head + families_lines(families@.take(n + 1)));
        }
    }
    proof {
        assert(families@.take(families@.len() as int) =~= families@);
    }
    list
}

/// What listing the supported chips prints, and the error it ends with, if any.
#[derive(Clone, Debug, PartialEq, Eq)]
pub struct FamiliesReport {
    pub lines: Vec<String>,
    pub error: Option<String>,
}

/// Reports on the families that were read, or on why they could not be: then the
/// heading stands alone.
pub fn report_families(found: &Result<Vec<Family>, String>) -> (report: FamiliesReport)
    ensures
        match *found {
            Ok(families) => {
                &&& crate::text::views(report.lines@) == chip_list(families@)
                &&& report.error is None
            },
            Err(cause) => {
                &&& crate::text::views(report.lines@) == seq!["Available chips:"@]
                &&& report.error matches Some(error)
                &&& error@ == "Families could not be read: "@ + cause@
            },
        },
{
    match found {
        Ok(families) => FamiliesReport { lines: list_chips(families), error: None },
        Err(cause) => {
            let none: Vec<Family> = Vec::new();
            let lines = list_chips(&none);
            proof {
                assert(crate::text::views(lines@) =~= seq!["Available chips:"@]);
            }
            FamiliesReport {
                lines,
                error: Some("Families could not be read: ".to_string().concat(cause.as_str())),
            }
        },
    }
}

/// Every member of every family is on the list of supported chips, below the name
/// of its family.
pub proof fn law_every_chip_is_listed(families: Seq<Family>, family: int, variant: int) -> (at: int)
    requires
        0 <= family < families.len(),
        0 <= variant < families[family].variants@.len(),
    ensures
        0 <= at && at + 2 + variant < chip_list(families).len(),
        chip_list(families)[at] == families[family].name@,
        chip_list(families)[at + 2 + variant] == variant_line(families[family].variants@[variant]@),
    decreases families.len(),
{
    let rest = families.drop_last();
    let head = seq!["Available chips:"@];
    let lines = family_lines(families.last());
    if family == families.len() - 1 {
        let at = 1 + families_lines(rest).len() as int;
        assert(chip_list(families) =~= head + families_lines(rest) + lines);
        assert(lines[2 + variant] == variant_line(families[family].variants@[variant]@));
        at
    } else {
        let at = law_every_chip_is_listed(rest, family, variant);
        assert(chip_list(families) =~= chip_list(rest) + lines);
        at
    }
}

/// Two groups of families are listed one after the other, below one heading.
pub proof fn law_lists_join(first: Seq<Family>, second: Seq<Family>)
    ensures
        families_lines(first + second) == families_lines(first) + families_lines(second),
        chip_list(first + second) == chip_list(first) + families_lines(second),
    decreases second.len(),
{
    if second.len() == 0 {
        assert(first + second =~= first);
    } else {
        law_lists_join(first, second.drop_last());
        assert((first + second).drop_last() =~= first + second.drop_last());
    }
    assert(families_lines(first + second) =~= families_lines(first) + families_lines(second));
    assert(chip_list(first + second) =~= chip_list(first) + families_lines(second));
}

/// A list begins with its heading, each further family adds its name and the heading
/// of its members, and each further member adds one indented line.
pub proof fn law_list_grows_line_by_line(families: Seq<Family>, further: Family, shorter: Family)
    requires
        shorter.name@ == further.name@,
        further.variants@.len() > 0,
        crate::text::views(further.variants@).drop_last() == crate::text::views(shorter.variants@),
    ensures
        chip_list(Seq::<Family>::empty()) == seq!["Available chips:"@],
        shorter.variants@.len() == 0 ==> chip_list(families.push(shorter)) == chip_list(families)
            + seq![shorter.name@, "    Variants:"@],
        chip_list(families.push(further)) == chip_list(families.push(shorter)).push(
            "        "@ + further.variants@.last()@,
        ),
{
    let with = families.push(further);
    let without = families.push(shorter);
    assert(with.drop_last() =~= families);
    assert(without.drop_last() =~= families);
    assert(crate::text::views(further.variants@).len() == further.variants@.len());
    assert(crate::text::views(shorter.variants@).len() == shorter.variants@.len());
    assert forall|n: int| 0 <= n < shorter.variants@.len() implies #[trigger] family_lines(
        shorter,
    )[n + 2] == family_lines(further)[n + 2] by {
        assert(crate::text::views(further.variants@).drop_last()[n] == crate::text::views(
            shorter.variants@,
        )[n]);
    }
    assert(family_lines(further) =~= family_lines(shorter).push(
        "        "@ + further.variants@.last()@,
    )) by {
        assert forall|k: int| 0 <= k < family_lines(shorter).len() implies family_lines(further)[k]
            == family_lines(shorter)[k] by {
            if k >= 2 {
                let n = k - 2;
                assert(family_lines(shorter)[n + 2] == family_lines(further)[n + 2]);
            }
        }
    }
    assert(chip_list(Seq::<Family>::empty()) =~= seq!["Available chips:"@]);
    if shorter.variants@.len() == 0 {
        assert(family_lines(shorter) =~= seq![shorter.name@, "    Variants:"@]);
    }
    assert(chip_list(without) =~= chip_list(families) + family_lines(shorter));
    assert(chip_list(with) =~= chip_list(families) + family_lines(further));
    assert(chip_list(with) =~= chip_list(without).push("        "@ + further.variants@.last()@));
}

} // verus!
