//! The course of one run, as a machine that the program drives.
//!
//! A [`Session`] stands at one [`Step`]: the piece of outside work to do next.
//! The program does it and hands back an [`Outcome`]; [`Session::advance`] says
//! where the run goes from there.
use vstd::prelude::*;

use crate::reset::ResetAction;

verus! {

/// Where the debug probe comes from.
#[derive(Clone, Copy, Debug, PartialEq, Eq, Structural)]
pub enum ProbeSource {
    /// A selector was given on the command line.
    CommandLine,
    /// The configuration names a vendor and a product.
    Configured,
    /// The configuration names a vendor and a product that cannot be read.
    Rejected,
    /// Nothing names a probe: the attached ones are listed.
    Detected,
}

/// What the command line and the configuration ask of a run.
#[derive(Clone, Copy, Debug, PartialEq, Eq)]
pub struct Settings {
    /// How many chip descriptions are to be loaded.
    pub targets: usize,
    /// Only list the supported chips.
    pub list_chips: bool,
    pub probe: ProbeSource,
    /// The wanted protocol speed in kHz.
    pub speed: Option<u32>,
    pub connect_under_reset: bool,
    pub flashing: bool,
    /// Flash a program even when it has not changed.
    pub flash_when_fresh: bool,
    pub reset: Option<ResetAction>,
    pub gdb: bool,
    pub rtt: bool,
    /// Some RTT channel carries defmt frames.
    pub defmt: bool,
    /// How long attaching to RTT is tried, in milliseconds.
    pub rtt_timeout: usize,
}

/// What a failed run failed at.
#[derive(Clone, Copy, Debug, PartialEq, Eq, Structural)]
pub enum Failure {
    WorkDir,
    Config,
    ChipDescription(usize),
    ChipList,
    Build,
    BinaryName,
    ProbeId,
    OpenProbe,
    NoProbe,
    SeveralProbes(usize),
    Protocol,
    Speed,
    Attach,
    Flash,
    Reset,
    Defmt,
    RttAttach,
    RttUi,
}

/// How a run ends.
#[derive(Clone, Copy, Debug, PartialEq, Eq, Structural)]
pub enum Ending {
    VersionShown,
    ChipsListed,
    /// Every step was done.
    Completed,
    /// The RTT user interface was closed.
    ShutDown,
    Failed(Failure),
}

/// The outside work that a run does next.
#[derive(Clone, Copy, Debug, PartialEq, Eq, Structural)]
pub enum Step {
    ShowVersion,
    FindWorkDir,
    SelectConfig,
    /// Load the chip description with this index.
    AddTarget(usize),
    ListChips,
    Build,
    /// Print the configuration's name and the artifact's path.
    ReportTarget,
    /// Open the probe that the settings name.
    OpenProbe,
    ListProbes,
    /// Open the only probe that was listed.
    OpenDetected,
    SelectProtocol,
    SetSpeed(u32),
    ReadSpeed,
    AttachUnderReset,
    Attach,
    Flash,
    Reset(ResetAction),
    StartGdb,
    LoadDefmt,
    /// Read how long attaching to RTT has been tried.
    WatchRtt,
    AttachRtt,
    StartUi,
    /// Poll the RTT channels, draw them and handle one input event.
    ServeUi,
    JoinGdb,
    ReportDone,
    Finish(Ending),
}

/// What came of a step.
#[derive(Clone, Copy, Debug, PartialEq, Eq)]
pub enum Outcome {
    Done,
    Failed,
    /// The configuration was selected.
    Settled(Settings),
    /// The program was built; `named` when its path gives a binary name.
    Built { fresh: bool, named: bool },
    /// This many probes are attached.
    Found(usize),
    /// Attaching to RTT has been tried for this many milliseconds.
    Elapsed(u128),
    /// Whether the user asked to leave the user interface.
    Quit(bool),
}

/// A run under way.
#[derive(Clone, Copy, Debug, PartialEq, Eq)]
pub struct Session {
    pub step: Step,
    /// Known once the configuration is selected.
    pub settings: Option<Settings>,
    /// Whether the build left the program unchanged.
    pub fresh: bool,
    /// The number of the attempt to attach to RTT, from one.
    pub attempt: i32,
    /// Some attempt to attach to RTT failed.
    pub attach_failed: bool,
}

/// Whether an artifact is flashed: flashing is enabled, and the program changed
/// or is flashed in any case.
pub open spec fn flash_due(enabled: bool, fresh: bool, flash_when_fresh: bool) -> bool {
    enabled && (fresh ==> flash_when_fresh)
}

/// Decides whether an artifact is flashed.
pub fn should_flash(enabled: bool, fresh: bool, flash_when_fresh: bool) -> (flash: bool)
    ensures
        flash == flash_due(enabled, fresh, flash_when_fresh),
        flash <==> enabled && (!fresh || flash_when_fresh),
{
    enabled && (!fresh || flash_when_fresh)
}

/// The milliseconds of a wait, as they fit into a machine word: of a longer number
/// the low bits count.
pub open spec fn word_of(millis: u128) -> int {
    if millis <= usize::MAX {
        millis as int
    } else {
        millis as int % (usize::MAX + 1)
    }
}

/// Cuts a number of milliseconds down to a machine word.
pub fn millis_as_word(millis: u128) -> (word: usize)
    ensures
        word == word_of(millis),
        word == millis as int % (usize::MAX + 1),
{
    proof {
        assert(usize::BITS == 32 ==> millis as usize == millis % 0x1_0000_0000) by (bit_vector);
        assert(usize::BITS == 64 ==> millis as usize == millis % 0x1_0000_0000_0000_0000)
            by (bit_vector);
    }
    millis as usize
}

/// Whether `outcome` is an answer to `step`.
pub open spec fn answers(step: Step, outcome: Outcome) -> bool {
    match step {
        Step::ShowVersion
        | Step::ReportTarget
        | Step::ReadSpeed
        | Step::StartGdb
        | Step::JoinGdb
        | Step::ReportDone => outcome is Done,
        Step::SelectConfig => outcome is Settled || outcome is Failed,
        Step::Build => outcome is Built || outcome is Failed,
        Step::ListProbes => outcome is Found,
        Step::WatchRtt => outcome is Elapsed,
        Step::ServeUi => outcome is Quit,
        Step::Finish(_) => false,
        _ => outcome is Done || outcome is Failed,
    }
}

/// Whether a run with these settings has a use for `step`, the start of the run
/// and its end aside.
pub open spec fn applicable(settings: Settings, fresh: bool, step: Step) -> bool {
    match step {
        Step::ShowVersion | Step::FindWorkDir | Step::SelectConfig | Step::Finish(_) => false,
        Step::AddTarget(index) => index < settings.targets,
        Step::ListChips => settings.list_chips,
        _ => !settings.list_chips && match step {
            Step::OpenProbe => settings.probe is CommandLine || settings.probe is Configured,
            Step::ListProbes | Step::OpenDetected => settings.probe is Detected,
            Step::SetSpeed(khz) => settings.speed == Some(khz),
            Step::ReadSpeed => settings.speed is None,
            Step::AttachUnderReset => settings.connect_under_reset,
            Step::Attach => !settings.connect_under_reset,
            Step::Flash => flash_due(settings.flashing, fresh, settings.flash_when_fresh),
            Step::Reset(action) => settings.reset == Some(action),
            Step::StartGdb | Step::JoinGdb => settings.gdb,
            Step::LoadDefmt => settings.rtt && settings.defmt,
            Step::WatchRtt => settings.rtt,
            Step::AttachRtt | Step::StartUi | Step::ServeUi => settings.rtt
                && settings.rtt_timeout > 0,
            _ => true,
        },
    }
}

/// The place of a step in the order of a run. Watching the clock and attaching to
/// RTT take turns, so they share one.
pub open spec fn phase(step: Step) -> int {
    match step {
        Step::ShowVersion => 0,
        Step::FindWorkDir => 1,
        Step::SelectConfig => 2,
        Step::AddTarget(_) => 3,
        Step::ListChips => 4,
        Step::Build => 5,
        Step::ReportTarget => 6,
        Step::OpenProbe => 7,
        Step::ListProbes => 8,
        Step::OpenDetected => 9,
        Step::SelectProtocol => 10,
        Step::SetSpeed(_) | Step::ReadSpeed => 11,
        Step::AttachUnderReset | Step::Attach => 12,
        Step::Flash => 13,
        Step::Reset(_) => 14,
        Step::StartGdb => 15,
        Step::LoadDefmt => 16,
        Step::WatchRtt | Step::AttachRtt => 17,
        Step::StartUi => 18,
        Step::ServeUi => 19,
        Step::JoinGdb => 20,
        Step::ReportDone => 21,
        Step::Finish(_) => 22,
    }
}

/// Whether `step` attaches to RTT or comes after that worked.
pub open spec fn tries_rtt(step: Step) -> bool {
    step is WatchRtt || step is AttachRtt || step is StartUi || step is ServeUi
}

/// Whether `first` comes before `second` in every run.
pub open spec fn precedes(first: Step, second: Step) -> bool {
    ||| phase(first) < phase(second)
    ||| (first matches Step::AddTarget(i) && second matches Step::AddTarget(j) && i < j)
}

/// What a run failed at when `step` fails.
pub open spec fn failure_at(step: Step) -> Failure {
    match step {
        Step::FindWorkDir => Failure::WorkDir,
        Step::SelectConfig => Failure::Config,
        Step::AddTarget(index) => Failure::ChipDescription(index),
        Step::ListChips => Failure::ChipList,
        Step::Build => Failure::Build,
        Step::OpenProbe | Step::OpenDetected => Failure::OpenProbe,
        Step::SelectProtocol => Failure::Protocol,
        Step::SetSpeed(_) => Failure::Speed,
        Step::Flash => Failure::Flash,
        Step::Reset(_) => Failure::Reset,
        Step::LoadDefmt => Failure::Defmt,
        Step::StartUi => Failure::RttUi,
        _ => Failure::Attach,
    }
}

/// The first step at or after loading the chip description `index`.
pub open spec fn from_targets(settings: Settings, index: int) -> Step {
    if index < settings.targets {
        Step::AddTarget(index as usize)
    } else if settings.list_chips {
        Step::ListChips
    } else {
        Step::Build
    }
}

/// The first step at or after finding the probe.
pub open spec fn from_probe(settings: Settings) -> Step {
    match settings.probe {
        ProbeSource::CommandLine | ProbeSource::Configured => Step::OpenProbe,
        ProbeSource::Rejected => Step::Finish(Ending::Failed(Failure::ProbeId)),
        ProbeSource::Detected => Step::ListProbes,
    }
}

/// The first step at or after flashing.
pub open spec fn from_flash(settings: Settings, fresh: bool) -> Step {
    if flash_due(settings.flashing, fresh, settings.flash_when_fresh) {
        Step::Flash
    } else {
        from_reset(settings)
    }
}

/// The first step at or after the reset.
pub open spec fn from_reset(settings: Settings) -> Step {
    match settings.reset {
        Some(action) => Step::Reset(action),
        None => from_gdb(settings),
    }
}

/// The first step at or after starting the GDB server.
pub open spec fn from_gdb(settings: Settings) -> Step {
    if settings.gdb {
        Step::StartGdb
    } else {
        from_rtt(settings)
    }
}

/// The first step at or after RTT.
pub open spec fn from_rtt(settings: Settings) -> Step {
    if settings.rtt && settings.defmt {
        Step::LoadDefmt
    } else if settings.rtt {
        Step::WatchRtt
    } else {
        from_join(settings)
    }
}

/// The first step at or after waiting for the GDB server.
pub open spec fn from_join(settings: Settings) -> Step {
    if settings.gdb {
        Step::JoinGdb
    } else {
        Step::ReportDone
    }
}

impl Session {
    /// The run ends as `failure`.
    pub open spec fn failed(self, failure: Failure) -> Session {
        Session { step: Step::Finish(Ending::Failed(failure)), ..self }
    }

    /// The run goes on with `step`.
    pub open spec fn at(self, step: Step) -> Session {
        Session { step: step, ..self }
    }

    /// The run after `outcome`.
    pub open spec fn next(self, outcome: Outcome) -> Session {
        let settings = self.settings->0;
        match (self.step, outcome) {
            // A failed attempt to attach to RTT is repeated; any other failure is final.
            (Step::AttachRtt, Outcome::Failed) => Session {
                step: Step::WatchRtt,
                attempt: (self.attempt + 1) as i32,
                attach_failed: true,
                ..self
            },
            (_, Outcome::Failed) => self.failed(failure_at(self.step)),
            (Step::ShowVersion, _) => self.at(Step::Finish(Ending::VersionShown)),
            (Step::FindWorkDir, _) => self.at(Step::SelectConfig),
            (Step::SelectConfig, Outcome::Settled(chosen)) => Session {
                step: from_targets(chosen, 0),
                settings: Some(chosen),
                ..self
            },
            (Step::AddTarget(index), _) => self.at(from_targets(settings, index + 1)),
            (Step::ListChips, _) => self.at(Step::Finish(Ending::ChipsListed)),
            (Step::Build, Outcome::Built { fresh, named }) => {
                let built = Session { fresh: fresh, ..self };
                if named {
                    built.at(Step::ReportTarget)
                } else {
                    built.failed(Failure::BinaryName)
                }
            },
            (Step::ReportTarget, _) => self.at(from_probe(settings)),
            (Step::ListProbes, Outcome::Found(count)) => if count == 0 {
                self.failed(Failure::NoProbe)
            } else if count == 1 {
                self.at(Step::OpenDetected)
            } else {
                self.failed(Failure::SeveralProbes(count))
            },
            (Step::OpenProbe, _) | (Step::OpenDetected, _) => self.at(Step::SelectProtocol),
            (Step::SelectProtocol, _) => match settings.speed {
                Some(khz) => self.at(Step::SetSpeed(khz)),
                None => self.at(Step::ReadSpeed),
            },
            (Step::SetSpeed(_), _) | (Step::ReadSpeed, _) => if settings.connect_under_reset {
                self.at(Step::AttachUnderReset)
            } else {
                self.at(Step::Attach)
            },
            (Step::AttachUnderReset, _) | (Step::Attach, _) => self.at(
                from_flash(settings, self.fresh),
            ),
            (Step::Flash, _) => self.at(from_reset(settings)),
            (Step::Reset(_), _) => self.at(from_gdb(settings)),
            (Step::StartGdb, _) => self.at(from_rtt(settings)),
            (Step::LoadDefmt, _) => self.at(Step::WatchRtt),
            (Step::WatchRtt, Outcome::Elapsed(millis)) => if word_of(millis)
                < settings.rtt_timeout {
                self.at(Step::AttachRtt)
            } else if self.attach_failed {
                self.failed(Failure::RttAttach)
            } else {
                self.at(from_join(settings))
            },
            (Step::AttachRtt, _) => self.at(Step::StartUi),
            (Step::StartUi, _) => self.at(Step::ServeUi),
            (Step::ServeUi, Outcome::Quit(quit)) => if quit {
                self.at(Step::Finish(Ending::ShutDown))
            } else {
                self
            },
            (Step::JoinGdb, _) => self.at(Step::ReportDone),
            (Step::ReportDone, _) => self.at(Step::Finish(Ending::Completed)),
            _ => self,
        }
    }

    /// What holds of a run at every step.
    pub open spec fn wf(self) -> bool {
        &&& self.attempt >= 1
        &&& self.attach_failed <==> self.attempt > 1
        &&& self.attach_failed ==> tries_rtt(self.step) || self.step is Finish
        &&& match self.step {
            Step::ShowVersion | Step::FindWorkDir | Step::SelectConfig => self.settings is None,
            Step::Finish(ending) => self.ends_as(ending),
            _ => self.settings is Some && applicable(self.settings->0, self.fresh, self.step),
        }
    }

    /// What holds of a run that ended as `ending`.
    pub open spec fn ends_as(self, ending: Ending) -> bool {
        let settings = self.settings->0;
        match ending {
            Ending::VersionShown => self.settings is None,
            Ending::ChipsListed => self.settings is Some && settings.list_chips,
            Ending::Completed => {
                &&& self.settings is Some
                &&& !settings.list_chips
                &&& !self.attach_failed
            },
            Ending::ShutDown => self.settings is Some && settings.rtt,
            Ending::Failed(Failure::WorkDir) | Ending::Failed(Failure::Config) => self.settings
                is None,
            Ending::Failed(failure) => {
                &&& self.settings is Some
                &&& match failure {
                    Failure::ProbeId => settings.probe is Rejected,
                    Failure::NoProbe => settings.probe is Detected,
                    Failure::SeveralProbes(count) => settings.probe is Detected && count > 1,
                    Failure::Speed => settings.speed is Some,
                    Failure::Flash => flash_due(
                        settings.flashing,
                        self.fresh,
                        settings.flash_when_fresh,
                    ),
                    Failure::Reset => settings.reset is Some,
                    Failure::Defmt => settings.rtt && settings.defmt,
                    Failure::RttAttach => settings.rtt && self.attach_failed,
                    _ => true,
                }
            },
        }
    }

    /// A run's beginning.
    pub open spec fn beginning(version: bool) -> Session {
        Session {
            step: if version {
                Step::ShowVersion
            } else {
                Step::FindWorkDir
            },
            settings: None,
            fresh: false,
            attempt: 1,
            attach_failed: false,
        }
    }

    /// Begins a run: one that only shows the version, or a full one.
    pub fn start(version: bool) -> (session: Session)
        ensures
            session == Session::beginning(version),
            session.wf(),
            version <==> session.step is ShowVersion,
            !version <==> session.step is FindWorkDir,
            session.settings is None,
            session.attempt == 1,
            !session.attach_failed,
    {
        Session {
            step: if version {
                Step::ShowVersion
            } else {
                Step::FindWorkDir
            },
            settings: None,
            fresh: false,
            attempt: 1,
            attach_failed: false,
        }
    }

    /// Takes the outcome of the step that the run stands at.
    pub fn advance(self, outcome: Outcome) -> (after: Session)
        requires
            self.wf(),
            answers(self.step, outcome),
            self.step is AttachRtt && outcome is Failed ==> self.attempt < i32::MAX,
        ensures
            after == self.next(outcome),
            after.wf(),
    {
        match outcome {
            Outcome::Failed => self.after_failure(),
            Outcome::Settled(settings) => Session {
                step: first_target(&settings, 0),
                settings: Some(settings),
                ..self
            },
            _ => match self.settings {
                None => match self.step {
                    Step::ShowVersion => Session {
                        step: Step::Finish(Ending::VersionShown),
                        ..self
                    },
                    _ => Session { step: Step::SelectConfig, ..self },
                },
                Some(settings) => self.after_work(&settings, outcome),
            },
        }
    }

    /// The step that the run stands at failed.
    fn after_failure(self) -> (after: Session)
        requires
            self.wf(),
            answers(self.step, Outcome::Failed),
            self.step is AttachRtt ==> self.attempt < i32::MAX,
        ensures
            after == self.next(Outcome::Failed),
            after.wf(),
    {
        let failure = match self.step {
            Step::AttachRtt => {
                return Session {
                    step: Step::WatchRtt,
                    attempt: self.attempt + 1,
                    attach_failed: true,
                    ..self
                };
            },
            Step::FindWorkDir => Failure::WorkDir,
            Step::SelectConfig => Failure::Config,
            Step::AddTarget(index) => Failure::ChipDescription(index),
            Step::ListChips => Failure::ChipList,
            Step::Build => Failure::Build,
            Step::OpenProbe | Step::OpenDetected => Failure::OpenProbe,
            Step::SelectProtocol => Failure::Protocol,
            Step::SetSpeed(_) => Failure::Speed,
            Step::Flash => Failure::Flash,
            Step::Reset(_) => Failure::Reset,
            Step::LoadDefmt => Failure::Defmt,
            Step::StartUi => Failure::RttUi,
            _ => Failure::Attach,
        };
        Session { step: Step::Finish(Ending::Failed(failure)), ..self }
    }

    /// The step that the run stands at was done.
    fn after_work(self, settings: &Settings, outcome: Outcome) -> (after: Session)
        requires
            self.wf(),
            self.settings == Some(*settings),
            answers(self.step, outcome),
            !(outcome is Failed),
        ensures
            after == self.next(outcome),
            after.wf(),
    {
        let mut after = self;
        after.step = match (self.step, outcome) {
            (Step::AddTarget(index), _) => first_target(settings, index + 1),
            (Step::ListChips, _) => Step::Finish(Ending::ChipsListed),
            (Step::Build, Outcome::Built { fresh, named }) => {
                after.fresh = fresh;
                if named {
                    Step::ReportTarget
                } else {
                    Step::Finish(Ending::Failed(Failure::BinaryName))
                }
            },
            (Step::ReportTarget, _) => match settings.probe {
                ProbeSource::CommandLine | ProbeSource::Configured => Step::OpenProbe,
                ProbeSource::Rejected => Step::Finish(Ending::Failed(Failure::ProbeId)),
                ProbeSource::Detected => Step::ListProbes,
            },
            (Step::ListProbes, Outcome::Found(count)) => match count {
                0 => Step::Finish(Ending::Failed(Failure::NoProbe)),
                1 => Step::OpenDetected,
                _ => Step::Finish(Ending::Failed(Failure::SeveralProbes(count))),
            },
            (Step::OpenProbe, _) | (Step::OpenDetected, _) => Step::SelectProtocol,
            (Step::SelectProtocol, _) => match settings.speed {
                Some(khz) => Step::SetSpeed(khz),
                None => Step::ReadSpeed,
            },
            (Step::SetSpeed(_), _) | (Step::ReadSpeed, _) => if settings.connect_under_reset {
                Step::AttachUnderReset
            } else {
                Step::Attach
            },
            (Step::AttachUnderReset, _) | (Step::Attach, _) => {
                if should_flash(settings.flashing, self.fresh, settings.flash_when_fresh) {
                    Step::Flash
                } else {
                    after_flash(settings)
                }
            },
            (Step::Flash, _) => after_flash(settings),
            (Step::Reset(_), _) => after_reset(settings),
            (Step::StartGdb, _) => after_gdb(settings),
            (Step::LoadDefmt, _) => Step::WatchRtt,
            (Step::WatchRtt, Outcome::Elapsed(millis)) => {
                if millis_as_word(millis) < settings.rtt_timeout {
                    Step::AttachRtt
                } else if self.attach_failed {
                    Step::Finish(Ending::Failed(Failure::RttAttach))
                } else {
                    after_rtt(settings)
                }
            },
            (Step::AttachRtt, _) => Step::StartUi,
            (Step::StartUi, _) => Step::ServeUi,
            (Step::ServeUi, Outcome::Quit(true)) => Step::Finish(Ending::ShutDown),
            (Step::JoinGdb, _) => Step::ReportDone,
            (Step::ReportDone, _) => Step::Finish(Ending::Completed),
            (step, _) => step,
        };
        after
    }
}

fn first_target(settings: &Settings, index: usize) -> (step: Step)
    ensures
        step == from_targets(*settings, index as int),
{
    if index < settings.targets {
        Step::AddTarget(index)
    } else if settings.list_chips {
        Step::ListChips
    } else {
        Step::Build
    }
}

fn after_flash(settings: &Settings) -> (step: Step)
    ensures
        step == from_reset(*settings),
{
    match settings.reset {
        Some(action) => Step::Reset(action),
        None => after_reset(settings),
    }
}

fn after_reset(settings: &Settings) -> (step: Step)
    ensures
        step == from_gdb(*settings),
{
    if settings.gdb {
        Step::StartGdb
    } else {
        after_gdb(settings)
    }
}

fn after_gdb(settings: &Settings) -> (step: Step)
    ensures
        step == from_rtt(*settings),
{
    if !settings.rtt {
        after_rtt(settings)
    } else if settings.defmt {
        Step::LoadDefmt
    } else {
        Step::WatchRtt
    }
}

fn after_rtt(settings: &Settings) -> (step: Step)
    ensures
        step == from_join(*settings),
{
    if settings.gdb {
        Step::JoinGdb
    } else {
        Step::ReportDone
    }
}

} // verus!
