use cargo_embed::reset::ResetAction;
use cargo_embed::session::{
    millis_as_word, should_flash, Ending, Failure, Outcome, ProbeSource, Session, Settings, Step,
};

fn plain() -> Settings {
    Settings {
        targets: 0,
        list_chips: false,
        probe: ProbeSource::Detected,
        speed: None,
        connect_under_reset: false,
        flashing: true,
        flash_when_fresh: false,
        reset: Some(ResetAction::Run),
        gdb: false,
        rtt: false,
        defmt: false,
        rtt_timeout: 3000,
    }
}

/// Walks a run through successful outcomes and returns the steps it stood at.
fn walk(settings: Settings, fresh: bool) -> Vec<Step> {
    let mut session = Session::start(false);
    let mut steps = vec![session.step];
    while !matches!(session.step, Step::Finish(_)) {
        let outcome = match session.step {
            Step::SelectConfig => Outcome::Settled(settings),
            Step::Build => Outcome::Built { fresh, named: true },
            Step::ListProbes => Outcome::Found(1),
            Step::WatchRtt => Outcome::Elapsed(0),
            Step::ServeUi => Outcome::Quit(true),
            _ => Outcome::Done,
        };
        session = session.advance(outcome);
        steps.push(session.step);
    }
    steps
}

fn configured(settings: Settings) -> Session {
    Session::start(false)
        .advance(Outcome::Done)
        .advance(Outcome::Settled(settings))
}

/// Brings a run up to the clock of its RTT phase.
fn at_clock(settings: Settings) -> Session {
    let mut session = configured(settings);
    while session.step != Step::WatchRtt {
        let outcome = match session.step {
            Step::Build => Outcome::Built { fresh: false, named: true },
            Step::ListProbes => Outcome::Found(1),
            _ => Outcome::Done,
        };
        session = session.advance(outcome);
    }
    session
}

#[test]
fn the_version_is_all_that_is_shown() {
    let session = Session::start(true);
    assert_eq!(session.step, Step::ShowVersion);
    let after = session.advance(Outcome::Done);
    assert_eq!(after.step, Step::Finish(Ending::VersionShown));
}

#[test]
fn a_plain_run_takes_its_steps_in_order() {
    assert_eq!(
        walk(plain(), false),
        vec![
            Step::FindWorkDir,
            Step::SelectConfig,
            Step::Build,
            Step::ReportTarget,
            Step::ListProbes,
            Step::OpenDetected,
            Step::SelectProtocol,
            Step::ReadSpeed,
            Step::Attach,
            Step::Flash,
            Step::Reset(ResetAction::Run),
            Step::ReportDone,
            Step::Finish(Ending::Completed),
        ]
    );
}

#[test]
fn a_full_run_takes_every_step() {
    let settings = Settings {
        targets: 2,
        probe: ProbeSource::Configured,
        speed: Some(4000),
        connect_under_reset: true,
        flash_when_fresh: true,
        reset: Some(ResetAction::HaltDeprecated),
        gdb: true,
        rtt: true,
        defmt: true,
        ..plain()
    };
    assert_eq!(
        walk(settings, true),
        vec![
            Step::FindWorkDir,
            Step::SelectConfig,
            Step::AddTarget(0),
            Step::AddTarget(1),
            Step::Build,
            Step::ReportTarget,
            Step::OpenProbe,
            Step::SelectProtocol,
            Step::SetSpeed(4000),
            Step::AttachUnderReset,
            Step::Flash,
            Step::Reset(ResetAction::HaltDeprecated),
            Step::StartGdb,
            Step::LoadDefmt,
            Step::WatchRtt,
            Step::AttachRtt,
            Step::StartUi,
            Step::ServeUi,
            Step::Finish(Ending::ShutDown),
        ]
    );
}

#[test]
fn a_completed_run_waits_for_the_gdb_server() {
    let settings = Settings { gdb: true, reset: None, flashing: false, ..plain() };
    let steps = walk(settings, false);
    assert!(!steps.contains(&Step::Flash));
    assert!(!steps.iter().any(|step| matches!(step, Step::Reset(_))));
    let end = steps.len();
    assert_eq!(
        &steps[end - 5..],
        &[
            Step::Attach,
            Step::StartGdb,
            Step::JoinGdb,
            Step::ReportDone,
            Step::Finish(Ending::Completed),
        ]
    );
}

#[test]
fn listing_chips_ends_the_run_after_the_descriptions() {
    let settings = Settings { targets: 1, list_chips: true, ..plain() };
    assert_eq!(
        walk(settings, false),
        vec![
            Step::FindWorkDir,
            Step::SelectConfig,
            Step::AddTarget(0),
            Step::ListChips,
            Step::Finish(Ending::ChipsListed),
        ]
    );
}

#[test]
fn only_changed_programs_are_flashed_unless_asked() {
    assert!(should_flash(true, false, false));
    assert!(should_flash(true, true, true));
    assert!(!should_flash(true, true, false));
    assert!(!should_flash(false, false, true));
    assert!(!walk(plain(), true).contains(&Step::Flash));
    assert!(walk(Settings { flash_when_fresh: true, ..plain() }, true).contains(&Step::Flash));
}

#[test]
fn each_failure_ends_the_run() {
    let settings = Settings {
        targets: 1,
        probe: ProbeSource::CommandLine,
        speed: Some(1),
        rtt: true,
        defmt: true,
        ..plain()
    };
    let expected = vec![
        (Step::FindWorkDir, Failure::WorkDir),
        (Step::SelectConfig, Failure::Config),
        (Step::AddTarget(0), Failure::ChipDescription(0)),
        (Step::Build, Failure::Build),
        (Step::OpenProbe, Failure::OpenProbe),
        (Step::SelectProtocol, Failure::Protocol),
        (Step::SetSpeed(1), Failure::Speed),
        (Step::Attach, Failure::Attach),
        (Step::Flash, Failure::Flash),
        (Step::Reset(ResetAction::Run), Failure::Reset),
        (Step::LoadDefmt, Failure::Defmt),
        (Step::StartUi, Failure::RttUi),
    ];
    let mut found = Vec::new();
    let mut session = Session::start(false);
    while !matches!(session.step, Step::Finish(_)) {
        let can_fail = !matches!(
            session.step,
            Step::ReportTarget | Step::WatchRtt | Step::AttachRtt | Step::ServeUi
        );
        if can_fail {
            match session.advance(Outcome::Failed).step {
                Step::Finish(Ending::Failed(failure)) => found.push((session.step, failure)),
                step => panic!("went on with {:?}", step),
            }
        }
        session = session.advance(match session.step {
            Step::SelectConfig => Outcome::Settled(settings),
            Step::Build => Outcome::Built { fresh: false, named: true },
            Step::WatchRtt => Outcome::Elapsed(2999),
            Step::ServeUi => Outcome::Quit(true),
            _ => Outcome::Done,
        });
    }
    assert_eq!(found, expected);
}

#[test]
fn other_failures_end_the_run_too() {
    let listing = configured(Settings { list_chips: true, ..plain() });
    assert_eq!(
        listing.advance(Outcome::Failed).step,
        Step::Finish(Ending::Failed(Failure::ChipList))
    );
    let under_reset = at_attach(Settings { connect_under_reset: true, ..plain() });
    assert_eq!(under_reset.step, Step::AttachUnderReset);
    assert_eq!(
        under_reset.advance(Outcome::Failed).step,
        Step::Finish(Ending::Failed(Failure::Attach))
    );
    let built = configured(plain());
    assert_eq!(
        built.advance(Outcome::Built { fresh: false, named: false }).step,
        Step::Finish(Ending::Failed(Failure::BinaryName))
    );
    let reported = configured(Settings { probe: ProbeSource::Rejected, ..plain() })
        .advance(Outcome::Built { fresh: false, named: true });
    assert_eq!(
        reported.advance(Outcome::Done).step,
        Step::Finish(Ending::Failed(Failure::ProbeId))
    );
}

fn at_attach(settings: Settings) -> Session {
    let mut session = configured(settings);
    while session.step != Step::Attach && session.step != Step::AttachUnderReset {
        session = session.advance(match session.step {
            Step::Build => Outcome::Built { fresh: false, named: true },
            Step::ListProbes => Outcome::Found(1),
            _ => Outcome::Done,
        });
    }
    session
}

#[test]
fn a_probe_is_only_detected_when_it_is_the_only_one() {
    let listed = configured(plain())
        .advance(Outcome::Built { fresh: false, named: true })
        .advance(Outcome::Done);
    assert_eq!(listed.step, Step::ListProbes);
    assert_eq!(
        listed.advance(Outcome::Found(0)).step,
        Step::Finish(Ending::Failed(Failure::NoProbe))
    );
    assert_eq!(listed.advance(Outcome::Found(1)).step, Step::OpenDetected);
    assert_eq!(
        listed.advance(Outcome::Found(3)).step,
        Step::Finish(Ending::Failed(Failure::SeveralProbes(3)))
    );
    assert_eq!(
        listed.advance(Outcome::Found(1)).advance(Outcome::Failed).step,
        Step::Finish(Ending::Failed(Failure::OpenProbe))
    );
}

#[test]
fn rtt_is_tried_until_its_time_is_over() {
    let clock = at_clock(Settings { rtt: true, rtt_timeout: 100, ..plain() });
    assert_eq!(clock.attempt, 1);
    let second = clock.advance(Outcome::Elapsed(0)).advance(Outcome::Failed);
    assert_eq!(second.step, Step::WatchRtt);
    assert_eq!(second.attempt, 2);
    assert!(second.attach_failed);
    let third = second.advance(Outcome::Elapsed(99)).advance(Outcome::Failed);
    assert_eq!(third.attempt, 3);
    assert_eq!(
        third.advance(Outcome::Elapsed(100)).step,
        Step::Finish(Ending::Failed(Failure::RttAttach))
    );
    let attached = third.advance(Outcome::Elapsed(50)).advance(Outcome::Done);
    assert_eq!(attached.step, Step::StartUi);
}

#[test]
fn rtt_without_time_is_not_tried() {
    let clock = at_clock(Settings { rtt: true, rtt_timeout: 0, ..plain() });
    let after = clock.advance(Outcome::Elapsed(0));
    assert_eq!(after.step, Step::ReportDone);
    assert!(!after.attach_failed);
}

#[test]
fn the_user_interface_runs_until_it_is_left() {
    let served = at_clock(Settings { rtt: true, ..plain() })
        .advance(Outcome::Elapsed(1))
        .advance(Outcome::Done)
        .advance(Outcome::Done);
    assert_eq!(served.step, Step::ServeUi);
    assert_eq!(served.advance(Outcome::Quit(false)), served);
    assert_eq!(
        served.advance(Outcome::Quit(true)).step,
        Step::Finish(Ending::ShutDown)
    );
}

#[test]
fn long_waits_are_cut_to_a_word() {
    assert_eq!(millis_as_word(1234), 1234);
    assert_eq!(millis_as_word(usize::MAX as u128), usize::MAX);
    assert_eq!(millis_as_word(usize::MAX as u128 + 6), 5);
}

#[test]
fn a_run_without_rtt_is_bounded() {
    for targets in 0..5 {
        let settings = Settings { targets, gdb: true, ..plain() };
        assert!(walk(settings, false).len() <= targets + 25);
    }
}
