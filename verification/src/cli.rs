//! The command line.
use vstd::prelude::*;
use vstd::string::StringExecFns;

use crate::probe::ProbeSelector;

verus! {

/// The name under which Cargo calls the program.
pub const SUBCOMMAND: &'static str = "embed";

/// The configuration that is used when none is named.
pub const DEFAULT_CONFIG: &'static str = "default";

/// What the command line asks for.
#[derive(Clone, Debug, PartialEq, Eq)]
pub struct Options {
    pub version: bool,
    /// The name of the configuration.
    pub config: Option<String>,
    pub chip: Option<String>,
    pub probe_selector: Option<ProbeSelector>,
    pub list_chips: bool,
    pub disable_progressbars: bool,
    /// Flash the program even when it has not changed.
    pub flash_when_fresh: bool,
}

/// The arguments as the program would get them without Cargo: with Cargo's
/// subcommand in the place of the program's name, which nothing reads.
pub open spec fn without_subcommand(args: Seq<Seq<char>>) -> Seq<Seq<char>> {
    if args.len() > 1 && args[1] == SUBCOMMAND@ {
        args.skip(1)
    } else {
        args
    }
}

/// Takes the program's name off the arguments if Cargo's subcommand follows it.
pub fn strip_subcommand(args: Vec<String>) -> (rest: Vec<String>)
    ensures
        crate::text::views(rest@) == without_subcommand(crate::text::views(args@)),
{
    let ghost given = args@;
    let mut rest = args;
    if rest.len() > 1 && rest[1] == SUBCOMMAND.to_string() {
        let _name = rest.remove(0);
        proof {
            assert(crate::text::views(rest@) =~= crate::text::views(given).skip(1));
        }
    }
    rest
}

/// A call through Cargo and a direct call pass the same options, where the first
/// option is not itself the subcommand's name.
pub proof fn law_cargo_call_is_a_direct_call(program: Seq<char>, options: Seq<Seq<char>>)
    requires
        options.len() > 0 ==> options[0] != SUBCOMMAND@,
    ensures
        without_subcommand(seq![program, SUBCOMMAND@] + options).drop_first()
            == without_subcommand(seq![program] + options).drop_first(),
        without_subcommand(seq![program] + options).drop_first() == options,
{
    let through_cargo = seq![program, SUBCOMMAND@] + options;
    let direct = seq![program] + options;
    assert(without_subcommand(through_cargo) == through_cargo.skip(1));
    assert(through_cargo.skip(1).drop_first() =~= options);
    assert(without_subcommand(direct) == direct);
    assert(direct.drop_first() =~= options);
}

impl Options {
    /// The name of the configuration to use.
    pub fn config_name(&self) -> (name: String)
        ensures
            self.config matches Some(given) ==> name@ == given@,
            self.config is None ==> name@ == DEFAULT_CONFIG@,
            self.config is None ==> name@ == "default"@,
    {
        match &self.config {
            Some(given) => given.clone(),
            None => DEFAULT_CONFIG.to_string(),
        }
    }
}

/// The text that shows the version.
pub fn version_text(name: &str, version: &str, commit: &str) -> (text: String)
    ensures
        text@ == name@ + " "@ + version@ + "\ngit commit: "@ + commit@,
{
    name.to_string().concat(" ").concat(version).concat("\ngit commit: ").concat(commit)
}

/// Only the subcommand's name right behind the program's is taken for Cargo's: then
/// the program's name is dropped and all else stays, whatever the options are. Any
/// other call stays as it is.
pub proof fn law_only_the_subcommand_is_stripped(args: Seq<Seq<char>>, options: Seq<Seq<char>>)
    ensures
        args.len() > 1 && args[1] == "embed"@ ==> without_subcommand(args) == args.drop_first(),
        args.len() <= 1 || args[1] != "embed"@ ==> without_subcommand(args) == args,
        args.len() > 0 ==> without_subcommand(seq![args[0], "embed"@] + options) == seq!["embed"@]
            + options,
{
    if args.len() > 0 {
        let call = seq![args[0], "embed"@] + options;
        assert(call[1] == "embed"@);
        assert(call.skip(1) =~= seq!["embed"@] + options);
    }
    if args.len() > 1 {
        assert(args.skip(1) =~= args.drop_first());
    }
}

} // verus!
