//! What leads a run to each of its steps: every step by what comes right before it.
use vstd::prelude::*;

use crate::reset::ResetAction;
use crate::session::{Ending, Failure, Outcome, Session, Step};

verus! {

/// A program that changed is always flashed, where flashing is enabled. One that did
/// not change is flashed where that is asked for. Asking for it never keeps a program
/// from being flashed.
pub proof fn law_changed_program_is_flashed(enabled: bool, fresh: bool, flash_when_fresh: bool)
    ensures
        enabled && !fresh ==> crate::session::flash_due(enabled, fresh, flash_when_fresh),
        enabled && fresh ==> (crate::session::flash_due(enabled, fresh, flash_when_fresh)
            <==> flash_when_fresh),
        !enabled ==> !crate::session::flash_due(enabled, fresh, flash_when_fresh),
        crate::session::flash_due(enabled, fresh, false) ==> crate::session::flash_due(
            enabled,
            fresh,
            true,
        ),
        crate::session::flash_due(enabled, true, flash_when_fresh) ==> crate::session::flash_due(
            enabled,
            false,
            flash_when_fresh,
        ),
{
}

/// A wait counts in milliseconds up to the largest word, and from there on anew.
pub proof fn law_wait_is_cut_to_a_word(millis: u128)
    ensures
        0 <= crate::session::word_of(millis) <= usize::MAX,
        millis <= usize::MAX ==> crate::session::word_of(millis) == millis,
        (millis - crate::session::word_of(millis)) % (usize::MAX + 1) == 0,
{
    let wrap = usize::MAX + 1;
    let m = millis as int;
    vstd::arithmetic::div_mod::lemma_fundamental_div_mod(m, wrap);
    vstd::arithmetic::div_mod::lemma_mod_bound(m, wrap);
    if m <= usize::MAX {
        assert(m - crate::session::word_of(millis) == 0);
    } else {
        assert(m - m % wrap == wrap * (m / wrap));
        vstd::arithmetic::div_mod::lemma_mod_multiples_basic(m / wrap, wrap);
        assert(wrap * (m / wrap) == (m / wrap) * wrap) by (nonlinear_arith);
    }
}

/// Each step has its own answers: most are done or fail, some cannot fail, and some
/// are answered with what was found.
pub proof fn law_answers(step: Step, outcome: Outcome)
    ensures
        crate::session::answers(step, outcome) <==> match outcome {
            Outcome::Settled(_) => step is SelectConfig,
            Outcome::Built { .. } => step is Build,
            Outcome::Found(_) => step is ListProbes,
            Outcome::Elapsed(_) => step is WatchRtt,
            Outcome::Quit(_) => step is ServeUi,
            Outcome::Done => !(step is SelectConfig || step is Build || step is ListProbes
                || step is WatchRtt || step is ServeUi || step is Finish),
            Outcome::Failed => !(step is ShowVersion || step is ReportTarget || step is ListProbes
                || step is ReadSpeed || step is StartGdb || step is WatchRtt || step is ServeUi
                || step is JoinGdb || step is ReportDone || step is Finish),
        },
{
}

/// A run for the version starts with showing it, any other with finding the working
/// directory, and neither step is ever come to from another. The configuration is
/// selected once the directory is found.
pub proof fn law_beginning(version: bool, session: Session, outcome: Outcome)
    requires
        crate::session::answers(session.step, outcome),
    ensures
        Session::beginning(version).step == (if version {
            Step::ShowVersion
        } else {
            Step::FindWorkDir
        }),
        Session::beginning(version).settings is None,
        Session::beginning(version).attempt == 1,
        !Session::beginning(version).attach_failed,
        !(session.next(outcome).step is ShowVersion),
        !(session.next(outcome).step is FindWorkDir),
        session.next(outcome).step is SelectConfig <==> session.step is FindWorkDir && outcome
            is Done,
{
}

/// The chip descriptions are loaded one after the other, from the first to the last.
/// Then the chips are listed, where that is asked for, or the program is built.
pub proof fn law_descriptions_come_in_order(session: Session, outcome: Outcome, index: usize)
    requires
        crate::session::answers(session.step, outcome),
    ensures
        ({
            let settings = session.settings->0;
            let after = session.next(outcome).step;
            let all_loaded = session.step matches Step::AddTarget(last) && outcome is Done && last + 1
                >= settings.targets;
            let none_to_load = outcome matches Outcome::Settled(chosen) && chosen.targets == 0;
            &&& after == Step::AddTarget(index) <==> {
                ||| outcome matches Outcome::Settled(chosen) && index == 0 && chosen.targets > 0
                ||| session.step matches Step::AddTarget(last) && outcome is Done && index == last
                    + 1 && index < settings.targets
            }
            &&& after is ListChips <==> {
                ||| none_to_load && outcome->Settled_0.list_chips
                ||| all_loaded && settings.list_chips
            }
            &&& after is Build <==> {
                ||| none_to_load && !outcome->Settled_0.list_chips
                ||| all_loaded && !settings.list_chips
            }
        }),
{
}

/// The target is reported once a program with a name is built. Then the probe that is
/// named is opened, or the attached ones are listed and the only one is opened.
pub proof fn law_probe_is_found(session: Session, outcome: Outcome)
    requires
        crate::session::answers(session.step, outcome),
    ensures
        ({
            let settings = session.settings->0;
            let after = session.next(outcome).step;
            &&& after is ReportTarget <==> (outcome matches Outcome::Built { named, .. } && named)
            &&& after is OpenProbe <==> session.step is ReportTarget && (settings.probe
                is CommandLine || settings.probe is Configured)
            &&& after is ListProbes <==> session.step is ReportTarget && settings.probe is Detected
            &&& after is OpenDetected <==> outcome == Outcome::Found(1)
            &&& after is SelectProtocol <==> outcome is Done && (session.step is OpenProbe
                || session.step is OpenDetected)
        }),
{
}

/// The speed is set where one is asked for, else read, once the protocol is selected.
/// Then the target is attached, under reset where that is asked for.
pub proof fn law_target_is_attached(session: Session, outcome: Outcome, khz: u32)
    requires
        crate::session::answers(session.step, outcome),
    ensures
        ({
            let settings = session.settings->0;
            let after = session.next(outcome).step;
            let speed_known = outcome is Done && (session.step is SetSpeed || session.step
                is ReadSpeed);
            &&& after == Step::SetSpeed(khz) <==> session.step is SelectProtocol && outcome is Done
                && settings.speed == Some(khz)
            &&& after is ReadSpeed <==> session.step is SelectProtocol && outcome is Done
                && settings.speed is None
            &&& after is AttachUnderReset <==> speed_known && settings.connect_under_reset
            &&& after is Attach <==> speed_known && !settings.connect_under_reset
        }),
{
}

/// A program is flashed right after the target is attached, exactly when flashing is
/// enabled and the program changed or is flashed in any case.
pub proof fn law_when_flashed(session: Session, outcome: Outcome)
    requires
        crate::session::answers(session.step, outcome),
    ensures
        session.next(outcome).step is Flash <==> {
            &&& session.step is Attach || session.step is AttachUnderReset
            &&& outcome is Done
            &&& session.settings->0.flashing
            &&& !session.fresh || session.settings->0.flash_when_fresh
        },
{
}

/// The phases behind flashing follow each other, and each is passed over that is not
/// asked for: the reset, the GDB server, RTT with or without defmt data, waiting for
/// the GDB server, and the report. RTT is over where no time was given to it.
pub proof fn law_phases_follow_each_other(session: Session, outcome: Outcome, action: ResetAction)
    requires
        crate::session::answers(session.step, outcome),
    ensures
        ({
            let settings = session.settings->0;
            let after = session.next(outcome).step;
            let done = outcome is Done;
            let flash_over = done && (session.step is Flash || (session.step is Attach
                || session.step is AttachUnderReset) && !(settings.flashing && (!session.fresh
                || settings.flash_when_fresh)));
            let reset_over = session.step is Reset && done || flash_over && settings.reset is None;
            let gdb_over = session.step is StartGdb || reset_over && !settings.gdb;
            let rtt_over = gdb_over && !settings.rtt || (outcome matches Outcome::Elapsed(millis)
                && millis as int % (usize::MAX + 1) >= settings.rtt_timeout
                && !session.attach_failed);
            &&& after == Step::Reset(action) <==> flash_over && settings.reset == Some(action)
            &&& after is StartGdb <==> reset_over && settings.gdb
            &&& after is LoadDefmt <==> gdb_over && settings.rtt && settings.defmt
            &&& after is WatchRtt <==> {
                ||| gdb_over && settings.rtt && !settings.defmt
                ||| session.step is LoadDefmt && done
                ||| session.step is AttachRtt && outcome is Failed
            }
            &&& after is JoinGdb <==> rtt_over && settings.gdb
            &&& after is ReportDone <==> session.step is JoinGdb || rtt_over && !settings.gdb
        }),
{
    if let Outcome::Elapsed(millis) = outcome {
        lemma_word_is_the_remainder(millis);
    }
}

/// RTT is attached to as long as the time lasts, however often that failed before. Its
/// user interface is started once that worked, never else, and served until the user
/// leaves.
pub proof fn law_rtt_is_attached_while_time_is_left(session: Session, outcome: Outcome)
    requires
        crate::session::answers(session.step, outcome),
    ensures
        ({
            let after = session.next(outcome).step;
            &&& after is AttachRtt <==> (outcome matches Outcome::Elapsed(millis) && millis as int
                % (usize::MAX + 1) < session.settings->0.rtt_timeout)
            &&& after is StartUi <==> session.step is AttachRtt && outcome is Done
            &&& after is ServeUi <==> session.step is StartUi && outcome is Done || outcome
                == Outcome::Quit(false)
        }),
{
    if let Outcome::Elapsed(millis) = outcome {
        lemma_word_is_the_remainder(millis);
    }
}

proof fn lemma_word_is_the_remainder(millis: u128)
    ensures
        crate::session::word_of(millis) == millis as int % (usize::MAX + 1),
{
    if millis <= usize::MAX {
        vstd::arithmetic::div_mod::lemma_small_mod(millis as nat, (usize::MAX + 1) as nat);
    }
}

/// A run ends well in one of four ways: the version was shown, the chips were listed,
/// everything was done, or the user left.
pub proof fn law_good_endings(session: Session, outcome: Outcome)
    requires
        crate::session::answers(session.step, outcome),
    ensures
        session.next(outcome).step == Step::Finish(Ending::VersionShown) <==> session.step
            is ShowVersion,
        session.next(outcome).step == Step::Finish(Ending::ChipsListed) <==> session.step
            is ListChips && outcome is Done,
        session.next(outcome).step == Step::Finish(Ending::Completed) <==> session.step
            is ReportDone,
        session.next(outcome).step == Step::Finish(Ending::ShutDown) <==> outcome == Outcome::Quit(
            true,
        ),
{
}

/// A run fails at the step that failed, and is said to have failed at just that.
pub proof fn law_failures_name_their_step(session: Session, outcome: Outcome, index: usize)
    requires
        crate::session::answers(session.step, outcome),
    ensures
        ({
            let after = session.next(outcome).step;
            let ended_at = |failure: Failure| after == Step::Finish(Ending::Failed(failure));
            let failed = outcome is Failed;
            &&& ended_at(Failure::WorkDir) <==> failed && session.step is FindWorkDir
            &&& ended_at(Failure::Config) <==> failed && session.step is SelectConfig
            &&& ended_at(Failure::ChipDescription(index)) <==> failed && session.step
                == Step::AddTarget(index)
            &&& ended_at(Failure::ChipList) <==> failed && session.step is ListChips
            &&& ended_at(Failure::Build) <==> failed && session.step is Build
            &&& ended_at(Failure::BinaryName) <==> (outcome matches Outcome::Built { named, .. }
                && !named)
            &&& ended_at(Failure::ProbeId) <==> session.step is ReportTarget
                && session.settings->0.probe is Rejected
            &&& ended_at(Failure::OpenProbe) <==> failed && (session.step is OpenProbe
                || session.step is OpenDetected)
            &&& ended_at(Failure::NoProbe) <==> outcome == Outcome::Found(0)
            &&& ended_at(Failure::SeveralProbes(index)) <==> outcome == Outcome::Found(index)
                && index > 1
            &&& ended_at(Failure::Protocol) <==> failed && session.step is SelectProtocol
            &&& ended_at(Failure::Speed) <==> failed && session.step is SetSpeed
            &&& ended_at(Failure::Attach) <==> failed && (session.step is Attach || session.step
                is AttachUnderReset)
            &&& ended_at(Failure::Flash) <==> failed && session.step is Flash
            &&& ended_at(Failure::Reset) <==> failed && session.step is Reset
            &&& ended_at(Failure::Defmt) <==> failed && session.step is LoadDefmt
            &&& ended_at(Failure::RttAttach) <==> (outcome matches Outcome::Elapsed(millis)
                && millis as int % (usize::MAX + 1) >= session.settings->0.rtt_timeout
                && session.attach_failed)
            &&& ended_at(Failure::RttUi) <==> failed && session.step is StartUi
        }),
{
    if let Outcome::Elapsed(millis) = outcome {
        lemma_word_is_the_remainder(millis);
    }
}

/// A run remembers: its settings from the configuration, whether the build left the
/// program unchanged, and how often attaching to RTT failed. Nothing else changes
/// these.
pub proof fn law_what_a_run_remembers(session: Session, outcome: Outcome)
    requires
        crate::session::answers(session.step, outcome),
        session.attempt < i32::MAX,
    ensures
        ({
            let after = session.next(outcome);
            let attempt_failed = session.step is AttachRtt && outcome is Failed;
            &&& after.settings == (if outcome is Settled {
                Some(outcome->Settled_0)
            } else {
                session.settings
            })
            &&& after.fresh == (if outcome is Built {
                outcome->fresh
            } else {
                session.fresh
            })
            &&& after.attempt == session.attempt + (if attempt_failed {
                1int
            } else {
                0int
            })
            &&& after.attach_failed == (session.attach_failed || attempt_failed)
        }),
{
}

} // verus!
