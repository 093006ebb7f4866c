//! What holds of whole runs, whatever the outside work comes to.
use vstd::prelude::*;

use crate::session::{Ending, Failure, Outcome, Session, Settings, Step};

verus! {

/// Where a run stands after a sequence of outcomes.
pub open spec fn follow(session: Session, outcomes: Seq<Outcome>) -> Session
    decreases outcomes.len(),
{
    if outcomes.len() == 0 {
        session
    } else {
        follow(session, outcomes.drop_last()).next(outcomes.last())
    }
}

/// Whether each outcome answers the step that the run stands at when it comes, and
/// the attempts to attach to RTT can be counted.
pub open spec fn coherent(session: Session, outcomes: Seq<Outcome>) -> bool
    decreases outcomes.len(),
{
    outcomes.len() > 0 ==> {
        let before = follow(session, outcomes.drop_last());
        &&& coherent(session, outcomes.drop_last())
        &&& crate::session::answers(before.step, outcomes.last())
        &&& before.step is AttachRtt && outcomes.last() is Failed ==> before.attempt < i32::MAX
    }
}

/// Whether a run stands, or stood, at `step`.
pub open spec fn visits(session: Session, outcomes: Seq<Outcome>, step: Step) -> bool
    decreases outcomes.len(),
{
    ||| follow(session, outcomes).step == step
    ||| outcomes.len() > 0 && visits(session, outcomes.drop_last(), step)
}

/// Whether every run passes `step` if its settings have a use for it: the steps
/// from the configuration to the end, without those that wait on the RTT link.
pub open spec fn planned(step: Step) -> bool {
    &&& crate::session::phase(step) > crate::session::phase(Step::SelectConfig)
    &&& !(step is AttachRtt || step is StartUi || step is ServeUi || step is Finish)
}

/// The well-formedness of a run is kept by every answer to its step.
pub proof fn law_well_formed_throughout(session: Session, outcomes: Seq<Outcome>)
    requires
        session.wf(),
        coherent(session, outcomes),
    ensures
        follow(session, outcomes).wf(),
    decreases outcomes.len(),
{
    if outcomes.len() > 0 {
        law_well_formed_throughout(session, outcomes.drop_last());
        lemma_next_wf(follow(session, outcomes.drop_last()), outcomes.last());
    }
}

proof fn lemma_next_wf(session: Session, outcome: Outcome)
    requires
        session.wf(),
        crate::session::answers(session.step, outcome),
        session.step is AttachRtt && outcome is Failed ==> session.attempt < i32::MAX,
    ensures
        session.next(outcome).wf(),
{
}

/// A run never goes back: an answer leads to the same step again, between
/// watching the clock and attaching to RTT, or to a later step.
pub proof fn law_never_goes_back(session: Session, outcome: Outcome)
    requires
        session.wf(),
        crate::session::answers(session.step, outcome),
    ensures
        ({
            let after = session.next(outcome).step;
            ||| crate::session::precedes(session.step, after)
            ||| session.step is WatchRtt && after is AttachRtt
            ||| session.step is AttachRtt && after is WatchRtt
            ||| session.step is ServeUi && after is ServeUi
        }),
{
}

/// Every failure ends the run and is reported as the failure of its step, except
/// that attaching to RTT goes back to watching the clock.
pub proof fn law_failure_is_final(session: Session)
    requires
        session.wf(),
        crate::session::answers(session.step, Outcome::Failed),
    ensures
        !(session.step is AttachRtt) ==> session.next(Outcome::Failed).step == Step::Finish(
            Ending::Failed(crate::session::failure_at(session.step)),
        ),
        session.step is AttachRtt ==> session.next(Outcome::Failed).step is WatchRtt
            && session.next(Outcome::Failed).attach_failed,
{
}

/// A run fails for these reasons and no others: a step failed, the artifact has no
/// binary name, not exactly one probe was found, the configured identifiers cannot
/// be read, or time ran out after attaching to RTT failed.
pub proof fn law_failures_have_a_reason(session: Session, outcome: Outcome)
    requires
        session.wf(),
        crate::session::answers(session.step, outcome),
    ensures
        (session.next(outcome).step matches Step::Finish(Ending::Failed(_))) <==> {
            ||| outcome is Failed && !(session.step is AttachRtt)
            ||| outcome matches Outcome::Built { named, .. } && !named
            ||| outcome matches Outcome::Found(count) && count != 1
            ||| session.step is ReportTarget && session.settings->0.probe is Rejected
            ||| outcome matches Outcome::Elapsed(millis) && crate::session::word_of(millis)
                >= session.settings->0.rtt_timeout && session.attach_failed
        },
{
}

/// Work that went well leads to the earliest later step that the run has a use
/// for: no step in between applies.
pub proof fn law_next_step_is_earliest(session: Session, outcome: Outcome, other: Step)
    requires
        session.wf(),
        session.settings is Some,
        crate::session::answers(session.step, outcome),
        !(session.next(outcome).step is Finish),
        planned(other),
        crate::session::precedes(session.step, other),
        crate::session::precedes(other, session.next(outcome).step),
    ensures
        !crate::session::applicable(session.settings->0, session.next(outcome).fresh, other),
{
}

proof fn lemma_visited_is_past(session: Session, outcomes: Seq<Outcome>, step: Step)
    requires
        session.wf(),
        session.settings is None,
        coherent(session, outcomes),
        planned(step),
        visits(session, outcomes, step),
    ensures
        !crate::session::precedes(follow(session, outcomes).step, step),
    decreases outcomes.len(),
{
    law_well_formed_throughout(session, outcomes);
    if outcomes.len() > 0 && follow(session, outcomes).step != step {
        let before = outcomes.drop_last();
        law_well_formed_throughout(session, before);
        lemma_visited_is_past(session, before, step);
        law_never_goes_back(follow(session, before), outcomes.last());
    }
}

/// Up to the step that a run stands at, it passed exactly the planned steps that
/// it has a use for.
pub proof fn law_passes_what_applies(session: Session, outcomes: Seq<Outcome>, step: Step)
    requires
        session.wf(),
        session.settings is None,
        coherent(session, outcomes),
        planned(step),
        follow(session, outcomes).settings is Some,
        !(follow(session, outcomes).step matches Step::Finish(ending) && ending
            != Ending::Completed),
        !crate::session::precedes(follow(session, outcomes).step, step),
    ensures
        visits(session, outcomes, step) <==> crate::session::applicable(
            follow(session, outcomes).settings->0,
            follow(session, outcomes).fresh,
            step,
        ),
    decreases outcomes.len(),
{
    law_well_formed_throughout(session, outcomes);
    let now = follow(session, outcomes);
    if outcomes.len() > 0 {
        let before = outcomes.drop_last();
        let was = follow(session, before);
        law_well_formed_throughout(session, before);
        law_never_goes_back(was, outcomes.last());
        if was.settings is Some && !crate::session::precedes(was.step, step) {
            law_passes_what_applies(session, before, step);
        } else if visits(session, before, step) {
            lemma_visited_is_past(session, before, step);
        }
    }
}

/// A run that completes has done every planned step that it has a use for, and
/// none that it has no use for: among them flashing, the reset, the GDB server
/// and RTT.
pub proof fn law_completed_run_did_what_applies(
    version: bool,
    outcomes: Seq<Outcome>,
    step: Step,
)
    requires
        coherent(Session::beginning(version), outcomes),
        follow(Session::beginning(version), outcomes).step == Step::Finish(Ending::Completed),
        planned(step),
    ensures
        visits(Session::beginning(version), outcomes, step) <==> crate::session::applicable(
            follow(Session::beginning(version), outcomes).settings->0,
            follow(Session::beginning(version), outcomes).fresh,
            step,
        ),
{
    law_well_formed_throughout(Session::beginning(version), outcomes);
    law_passes_what_applies(Session::beginning(version), outcomes, step);
}

/// Whatever a run comes to, it does nothing that its settings give it no use for:
/// no flashing that is not due, no reset, GDB server or RTT that is not asked for.
pub proof fn law_nothing_else_is_done(version: bool, outcomes: Seq<Outcome>, step: Step)
    requires
        coherent(Session::beginning(version), outcomes),
        visits(Session::beginning(version), outcomes, step),
        crate::session::phase(step) > crate::session::phase(Step::SelectConfig),
        !(step is Finish),
    ensures
        follow(Session::beginning(version), outcomes).settings is Some,
        crate::session::applicable(
            follow(Session::beginning(version), outcomes).settings->0,
            follow(Session::beginning(version), outcomes).fresh,
            step,
        ),
    decreases outcomes.len(),
{
    let session = Session::beginning(version);
    law_well_formed_throughout(session, outcomes);
    if outcomes.len() > 0 && follow(session, outcomes).step != step {
        let before = outcomes.drop_last();
        law_well_formed_throughout(session, before);
        law_nothing_else_is_done(version, before, step);
        lemma_phase_bounds_visits(session, before, step);
    }
}

proof fn lemma_phase_bounds_visits(session: Session, outcomes: Seq<Outcome>, step: Step)
    requires
        session.wf(),
        session.settings is None,
        coherent(session, outcomes),
        visits(session, outcomes, step),
    ensures
        crate::session::phase(step) <= crate::session::phase(follow(session, outcomes).step),
    decreases outcomes.len(),
{
    if outcomes.len() > 0 && follow(session, outcomes).step != step {
        let before = outcomes.drop_last();
        law_well_formed_throughout(session, before);
        lemma_phase_bounds_visits(session, before, step);
        law_never_goes_back(follow(session, before), outcomes.last());
    }
}

/// No planned step is done twice, except for reading the clock of RTT: a run that
/// comes to one has not been there before.
pub proof fn law_no_step_is_repeated(session: Session, outcomes: Seq<Outcome>)
    requires
        session.wf(),
        session.settings is None,
        outcomes.len() > 0,
        coherent(session, outcomes),
        planned(follow(session, outcomes).step),
        !(follow(session, outcomes).step is WatchRtt),
    ensures
        !visits(session, outcomes.drop_last(), follow(session, outcomes).step),
{
    let before = outcomes.drop_last();
    law_well_formed_throughout(session, before);
    law_never_goes_back(follow(session, before), outcomes.last());
    if visits(session, before, follow(session, outcomes).step) {
        lemma_visited_is_past(session, before, follow(session, outcomes).step);
    }
}

/// An upper bound on the steps that a run without RTT has left.
pub open spec fn steps_left(session: Session) -> int {
    let settings = session.settings->0;
    match session.step {
        Step::Finish(_) => 0,
        Step::AddTarget(index) => settings.targets - index + crate::session::phase(
            Step::Finish(Ending::Completed),
        ),
        step => crate::session::phase(Step::Finish(Ending::Completed)) - crate::session::phase(
            step,
        ),
    }
}

/// A run without RTT ends: it takes no more than a fixed number of steps beside
/// one for each chip description.
pub proof fn law_run_without_rtt_is_bounded(session: Session, outcomes: Seq<Outcome>)
    requires
        session.wf(),
        session.settings is Some,
        !session.settings->0.rtt,
        coherent(session, outcomes),
    ensures
        outcomes.len() + steps_left(follow(session, outcomes)) <= steps_left(session),
        steps_left(follow(session, outcomes)) >= 0,
        follow(session, outcomes).settings == session.settings,
    decreases outcomes.len(),
{
    law_well_formed_throughout(session, outcomes);
    if outcomes.len() > 0 {
        let before = outcomes.drop_last();
        law_run_without_rtt_is_bounded(session, before);
        law_well_formed_throughout(session, before);
        law_never_goes_back(follow(session, before), outcomes.last());
    }
}

/// How many attempts to attach to RTT have failed.
pub open spec fn failed_attempts(session: Session, outcomes: Seq<Outcome>) -> nat
    decreases outcomes.len(),
{
    if outcomes.len() == 0 {
        0
    } else {
        let before = outcomes.drop_last();
        failed_attempts(session, before) + if follow(session, before).step is AttachRtt
            && outcomes.last() is Failed {
            1nat
        } else {
            0nat
        }
    }
}

/// The attempts to attach to RTT are numbered in turn, from one.
pub proof fn law_attempts_are_counted(version: bool, outcomes: Seq<Outcome>)
    requires
        coherent(Session::beginning(version), outcomes),
    ensures
        follow(Session::beginning(version), outcomes).attempt == 1 + failed_attempts(
            Session::beginning(version),
            outcomes,
        ),
    decreases outcomes.len(),
{
    if outcomes.len() > 0 {
        law_well_formed_throughout(Session::beginning(version), outcomes.drop_last());
        law_attempts_are_counted(version, outcomes.drop_last());
    }
}

/// The user interface of RTT is only ever started or served after attaching to RTT
/// worked: earlier in the run there is an attempt that was answered with success.
pub proof fn law_user_interface_needs_rtt(version: bool, outcomes: Seq<Outcome>) -> (at: int)
    requires
        coherent(Session::beginning(version), outcomes),
        ({
            let step = follow(Session::beginning(version), outcomes).step;
            step is StartUi || step is ServeUi || step == Step::Finish(Ending::ShutDown)
        }),
    ensures
        0 <= at < outcomes.len(),
        follow(Session::beginning(version), outcomes.take(at)).step is AttachRtt,
        outcomes[at] is Done,
    decreases outcomes.len(),
{
    let before = outcomes.drop_last();
    let last = outcomes.len() - 1;
    assert(outcomes.take(last) =~= before);
    if follow(Session::beginning(version), before).step is AttachRtt {
        last
    } else {
        let at = law_user_interface_needs_rtt(version, before);
        assert(before.take(at) =~= outcomes.take(at));
        at
    }
}

/// Nothing is done to a target that is not attached: flashing, the reset, the GDB
/// server and RTT come after attaching worked, and that after a probe was opened.
pub proof fn law_target_work_needs_the_target(version: bool, outcomes: Seq<Outcome>) -> (at: (
    int,
    int,
))
    requires
        coherent(Session::beginning(version), outcomes),
        ({
            let step = follow(Session::beginning(version), outcomes).step;
            ||| step is Flash || step is Reset || step is StartGdb || step is LoadDefmt
            ||| step is WatchRtt || step is AttachRtt || step is JoinGdb || step is ReportDone
        }),
    ensures
        0 <= at.0 < at.1 < outcomes.len(),
        ({
            let opened = follow(Session::beginning(version), outcomes.take(at.0)).step;
            opened is OpenProbe || opened is OpenDetected
        }),
        outcomes[at.0] is Done,
        ({
            let attached = follow(Session::beginning(version), outcomes.take(at.1)).step;
            attached is Attach || attached is AttachUnderReset
        }),
        outcomes[at.1] is Done,
    decreases outcomes.len(),
{
    let before = outcomes.drop_last();
    let last = outcomes.len() - 1;
    assert(outcomes.take(last) =~= before);
    let step = follow(Session::beginning(version), before).step;
    if step is Attach || step is AttachUnderReset {
        let opened = lemma_attaching_needs_a_probe(version, before);
        assert(before.take(opened) =~= outcomes.take(opened));
        (opened, last)
    } else {
        let at = law_target_work_needs_the_target(version, before);
        assert(before.take(at.0) =~= outcomes.take(at.0));
        assert(before.take(at.1) =~= outcomes.take(at.1));
        at
    }
}

proof fn lemma_attaching_needs_a_probe(version: bool, outcomes: Seq<Outcome>) -> (at: int)
    requires
        coherent(Session::beginning(version), outcomes),
        ({
            let step = follow(Session::beginning(version), outcomes).step;
            ||| step is SelectProtocol || step is SetSpeed || step is ReadSpeed
            ||| step is Attach || step is AttachUnderReset
        }),
    ensures
        0 <= at < outcomes.len(),
        ({
            let opened = follow(Session::beginning(version), outcomes.take(at)).step;
            opened is OpenProbe || opened is OpenDetected
        }),
        outcomes[at] is Done,
    decreases outcomes.len(),
{
    let before = outcomes.drop_last();
    let last = outcomes.len() - 1;
    assert(outcomes.take(last) =~= before);
    let step = follow(Session::beginning(version), before).step;
    if step is OpenProbe || step is OpenDetected {
        last
    } else {
        let at = lemma_attaching_needs_a_probe(version, before);
        assert(before.take(at) =~= outcomes.take(at));
        at
    }
}

/// RTT is only tried while time is left, so a run that gives it no time never
/// fails on it.
pub proof fn law_no_time_means_no_rtt_failure(session: Session, outcomes: Seq<Outcome>)
    requires
        session.wf(),
        session.settings is None,
        coherent(session, outcomes),
        follow(session, outcomes).settings matches Some(settings) && settings.rtt_timeout == 0,
    ensures
        !follow(session, outcomes).attach_failed,
        follow(session, outcomes).step != Step::Finish(Ending::Failed(Failure::RttAttach)),
        follow(session, outcomes).step != Step::Finish(Ending::ShutDown),
    decreases outcomes.len(),
{
    law_well_formed_throughout(session, outcomes);
    if outcomes.len() > 0 {
        let before = outcomes.drop_last();
        law_well_formed_throughout(session, before);
        if follow(session, before).settings is Some {
            law_no_time_means_no_rtt_failure(session, before);
        }
    }
}

/// The settings of a run are those that its configuration gave it.
pub proof fn law_settings_are_kept(session: Session, outcome: Outcome)
    requires
        session.wf(),
        crate::session::answers(session.step, outcome),
    ensures
        session.settings is Some ==> session.next(outcome).settings == session.settings,
        session.settings is None ==> session.next(outcome).settings == (match outcome {
            Outcome::Settled(settings) => Some(settings),
            _ => None::<Settings>,
        }),
{
}

} // verus!
