//! The configuration, and what it asks of a run together with the command line.
use vstd::prelude::*;

use crate::cli::Options;
use crate::probe::{plan_probe, HexError, ProbePlan};
use crate::reset::{choose_reset, ResetAction};
use crate::session::{ProbeSource, Settings};

verus! {

/// How the probe talks to the target.
#[derive(Clone, Copy, Debug, PartialEq, Eq, Structural)]
pub enum Protocol {
    Swd,
    Jtag,
}

/// What an RTT channel carries.
#[derive(Clone, Copy, Debug, PartialEq, Eq, Structural)]
pub enum DataFormat {
    Text,
    Binary,
    /// Log frames that the artifact's defmt table decodes.
    Defmt,
}

#[derive(Clone, Debug, PartialEq, Eq)]
pub struct GeneralConfig {
    pub chip: Option<String>,
    /// Files that describe further chips.
    pub chip_descriptions: Vec<String>,
    pub connect_under_reset: bool,
}

#[derive(Clone, Debug, PartialEq, Eq)]
pub struct FlashingConfig {
    pub enabled: bool,
    /// The former place of the option in [`ResetConfig`].
    pub halt_afterwards: bool,
    pub restore_unwritten_bytes: bool,
    /// Where a picture of the flash layout is written.
    pub flash_layout_output_path: Option<String>,
    pub do_chip_erase: bool,
}

#[derive(Clone, Debug, PartialEq, Eq)]
pub struct ProbeConfig {
    /// The USB vendor, in hexadecimal.
    pub usb_vid: Option<String>,
    /// The USB product, in hexadecimal.
    pub usb_pid: Option<String>,
    pub serial: Option<String>,
    pub protocol: Protocol,
    /// The protocol speed in kHz.
    pub speed: Option<u32>,
}

#[derive(Clone, Copy, Debug, PartialEq, Eq, Structural)]
pub struct ResetConfig {
    pub enabled: bool,
    pub halt_afterwards: bool,
}

#[derive(Clone, Debug, PartialEq, Eq)]
pub struct GdbConfig {
    pub enabled: bool,
    pub gdb_connection_string: Option<String>,
}

#[derive(Clone, Debug, PartialEq, Eq)]
pub struct RttConfig {
    pub enabled: bool,
    /// What each channel carries.
    pub channels: Vec<DataFormat>,
    /// How long attaching is tried, in milliseconds.
    pub timeout: usize,
}

/// One configuration of the tool.
#[derive(Clone, Debug, PartialEq, Eq)]
pub struct Config {
    pub general: GeneralConfig,
    pub flashing: FlashingConfig,
    pub probe: ProbeConfig,
    pub reset: ResetConfig,
    pub gdb: GdbConfig,
    pub rtt: RttConfig,
}

impl RttConfig {
    /// Whether some channel carries defmt frames.
    pub fn carries_defmt(&self) -> (carries: bool)
        ensures
            carries <==> self.channels@.contains(DataFormat::Defmt),
    {
        let mut n: usize = 0;
        while n < self.channels.len()
            invariant
                n <= self.channels.len(),
                forall|k: int| 0 <= k < n ==> self.channels@[k] != DataFormat::Defmt,
            decreases self.channels.len() - n,
        {
            if self.channels[n] == DataFormat::Defmt {
                return true;
            }
            n = n + 1;
        }
        false
    }
}

/// Where the probe of a run comes from.
pub open spec fn probe_source_of(options: Options, config: ProbeConfig) -> ProbeSource {
    if options.probe_selector is Some {
        ProbeSource::CommandLine
    } else if config.usb_vid is None || config.usb_pid is None {
        ProbeSource::Detected
    } else if crate::probe::is_usb_id(config.usb_vid->0@) && crate::probe::is_usb_id(
        config.usb_pid->0@,
    ) {
        ProbeSource::Configured
    } else {
        ProbeSource::Rejected
    }
}

/// Tells where the probe of a run comes from.
pub fn probe_source(options: &Options, config: &ProbeConfig) -> (source: ProbeSource)
    ensures
        source == probe_source_of(*options, *config),
        source is CommandLine <==> options.probe_selector is Some,
        source is Detected <==> options.probe_selector is None && (config.usb_vid is None
            || config.usb_pid is None),
        source is Configured <==> {
            &&& options.probe_selector is None
            &&& config.usb_vid matches Some(vid) && crate::probe::is_usb_id(vid@)
            &&& config.usb_pid matches Some(pid) && crate::probe::is_usb_id(pid@)
        },
{
    if options.probe_selector.is_some() {
        return ProbeSource::CommandLine;
    }
    match plan_probe(None, &config.usb_vid, &config.usb_pid, &config.serial) {
        Ok(ProbePlan::Open(_)) => ProbeSource::Configured,
        Ok(ProbePlan::Detect { .. }) => ProbeSource::Detected,
        Err(_) => ProbeSource::Rejected,
    }
}

/// What the command line and the configuration ask of a run.
pub open spec fn settings_of(options: Options, config: Config) -> Settings {
    Settings {
        targets: config.general.chip_descriptions@.len() as usize,
        list_chips: options.list_chips,
        probe: probe_source_of(options, config.probe),
        speed: config.probe.speed,
        connect_under_reset: config.general.connect_under_reset,
        flashing: config.flashing.enabled,
        flash_when_fresh: options.flash_when_fresh,
        reset: crate::reset::reset_asked(
            config.reset.enabled,
            config.flashing.halt_afterwards,
            config.reset.halt_afterwards,
        ),
        gdb: config.gdb.enabled,
        rtt: config.rtt.enabled,
        defmt: config.rtt.channels@.contains(DataFormat::Defmt),
        rtt_timeout: config.rtt.timeout,
    }
}

/// Collects what the command line and the configuration ask of a run.
pub fn settings(options: &Options, config: &Config) -> (found: Settings)
    ensures
        found == settings_of(*options, *config),
        found.targets == config.general.chip_descriptions@.len(),
        found.list_chips == options.list_chips,
        found.probe is CommandLine <==> options.probe_selector is Some,
        found.probe is Detected <==> options.probe_selector is None && (config.probe.usb_vid is None
            || config.probe.usb_pid is None),
        found.probe is Configured <==> {
            &&& options.probe_selector is None
            &&& config.probe.usb_vid matches Some(vid) && crate::probe::is_usb_id(vid@)
            &&& config.probe.usb_pid matches Some(pid) && crate::probe::is_usb_id(pid@)
        },
        found.speed == config.probe.speed,
        found.connect_under_reset == config.general.connect_under_reset,
        found.flashing == config.flashing.enabled,
        found.flash_when_fresh == options.flash_when_fresh,
        found.reset is None <==> !config.reset.enabled,
        found.reset matches Some(action) ==> (action != ResetAction::Run <==>
            config.flashing.halt_afterwards || config.reset.halt_afterwards),
        found.reset matches Some(action) ==> (action == ResetAction::HaltDeprecated <==>
            config.flashing.halt_afterwards),
        found.gdb == config.gdb.enabled,
        found.rtt == config.rtt.enabled,
        found.defmt <==> exists|k: int|
            0 <= k < config.rtt.channels@.len() && config.rtt.channels@[k] == DataFormat::Defmt,
        found.rtt_timeout == config.rtt.timeout,
{
    Settings {
        targets: config.general.chip_descriptions.len(),
        list_chips: options.list_chips,
        probe: probe_source(options, &config.probe),
        speed: config.probe.speed,
        connect_under_reset: config.general.connect_under_reset,
        flashing: config.flashing.enabled,
        flash_when_fresh: options.flash_when_fresh,
        reset: choose_reset(
            config.reset.enabled,
            config.flashing.halt_afterwards,
            config.reset.halt_afterwards,
        ),
        gdb: config.gdb.enabled,
        rtt: config.rtt.enabled,
        defmt: config.rtt.carries_defmt(),
        rtt_timeout: config.rtt.timeout,
    }
}

/// An identifier that stands alone in the configuration changes nothing: without
/// the other, and without a selector on the command line, the probe is detected.
pub proof fn law_lone_identifier_is_ignored(options: Options, config: ProbeConfig)
    requires
        options.probe_selector is None,
        config.usb_vid is None || config.usb_pid is None,
    ensures
        probe_source_of(options, config) == probe_source_of(
            options,
            (ProbeConfig { usb_vid: None, usb_pid: None, ..config }),
        ),
        probe_source_of(options, config) is Detected,
{
}

/// The command line wins: with a selector on it, the configuration's identifiers
/// do not matter, not even unreadable ones.
pub proof fn law_selector_wins(options: Options, config: ProbeConfig, other: ProbeConfig)
    requires
        options.probe_selector is Some,
    ensures
        probe_source_of(options, config) == probe_source_of(options, other),
        probe_source_of(options, config) is CommandLine,
{
}

/// A vendor and a product in the configuration name the probe, unless the command
/// line does: both are read, or the run is refused. What else the configuration says
/// of the probe, its serial number among it, makes no difference to that.
pub proof fn law_named_probe_is_not_detected(
    options: Options,
    config: ProbeConfig,
    other: ProbeConfig,
)
    requires
        options.probe_selector is None,
        config.usb_vid is Some && config.usb_pid is Some,
        other.usb_vid == config.usb_vid && other.usb_pid == config.usb_pid,
    ensures
        probe_source_of(options, config) is Configured <==> crate::probe::is_usb_id(
            config.usb_vid->0@,
        ) && crate::probe::is_usb_id(config.usb_pid->0@),
        !(probe_source_of(options, config) is Configured) <==> probe_source_of(
            options,
            config,
        ) is Rejected,
        probe_source_of(options, other) == probe_source_of(options, config),
{
}

/// The probe comes from where the plan for opening it says: a selector to open means
/// the command line or the configuration, no selector means the attached probes, and
/// an identifier that is refused means a refused run.
pub proof fn law_source_agrees_with_plan(
    options: Options,
    config: ProbeConfig,
    plan: Result<ProbePlan, HexError>,
)
    requires
        options.probe_selector is Some ==> plan matches Ok(ProbePlan::Open(_)),
        options.probe_selector is None && (config.usb_vid is None || config.usb_pid is None)
            ==> plan matches Ok(ProbePlan::Detect { .. }),
        options.probe_selector is None && config.usb_vid is Some && config.usb_pid is Some
            ==> match plan {
            Ok(ProbePlan::Open(selector)) => crate::probe::reads_as(
                config.usb_vid->0@,
                Ok(selector.vendor_id),
            ) && crate::probe::reads_as(config.usb_pid->0@, Ok(selector.product_id)),
            Ok(ProbePlan::Detect { .. }) => false,
            Err(error) => crate::probe::reads_as(config.usb_vid->0@, Err(error))
                || crate::probe::reads_as(config.usb_pid->0@, Err(error)),
        },
    ensures
        plan matches Ok(ProbePlan::Open(_)) <==> probe_source_of(options, config) is CommandLine
            || probe_source_of(options, config) is Configured,
        plan matches Ok(ProbePlan::Detect { .. }) <==> probe_source_of(options, config) is Detected,
        plan is Err <==> probe_source_of(options, config) is Rejected,
{
}

/// Each setting is what the option of its name says, and nothing else.
pub proof fn law_settings_are_the_options(options: Options, config: Config)
    requires
        config.general.chip_descriptions@.len() <= usize::MAX,
    ensures
        ({
            let found = settings_of(options, config);
            &&& found.targets == config.general.chip_descriptions@.len()
            &&& found.list_chips == options.list_chips
            &&& found.speed == config.probe.speed
            &&& found.connect_under_reset == config.general.connect_under_reset
            &&& found.flashing == config.flashing.enabled
            &&& found.flash_when_fresh == options.flash_when_fresh
            &&& found.gdb == config.gdb.enabled
            &&& found.rtt == config.rtt.enabled
            &&& found.defmt <==> config.rtt.channels@.contains(DataFormat::Defmt)
            &&& found.rtt_timeout == config.rtt.timeout
        }),
{
}

/// The core is reset exactly when the configuration enables it. It is then left
/// halted exactly when either place of the option asks for that, and else it runs.
pub proof fn law_core_runs_unless_told_to_halt(options: Options, config: Config)
    ensures
        settings_of(options, config).reset is None <==> !config.reset.enabled,
        settings_of(options, config).reset == Some(ResetAction::Run) <==> config.reset.enabled
            && !config.flashing.halt_afterwards && !config.reset.halt_afterwards,
        settings_of(options, config).reset == Some(ResetAction::HaltDeprecated)
            <==> config.reset.enabled && config.flashing.halt_afterwards,
{
}

} // verus!
