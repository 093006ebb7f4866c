use cargo_embed::cli::Options;
use cargo_embed::config::{
    probe_source, settings, Config, DataFormat, FlashingConfig, GdbConfig, GeneralConfig,
    ProbeConfig, Protocol, ResetConfig, RttConfig,
};
use cargo_embed::probe::ProbeSelector;
use cargo_embed::reset::ResetAction;
use cargo_embed::session::ProbeSource;

fn options() -> Options {
    Options {
        version: false,
        config: None,
        chip: None,
        probe_selector: None,
        list_chips: false,
        disable_progressbars: false,
        flash_when_fresh: true,
    }
}

fn config() -> Config {
    Config {
        general: GeneralConfig {
            chip: None,
            chip_descriptions: vec!["a.yaml".to_string(), "b.yaml".to_string()],
            connect_under_reset: true,
        },
        flashing: FlashingConfig {
            enabled: true,
            halt_afterwards: false,
            restore_unwritten_bytes: false,
            flash_layout_output_path: None,
            do_chip_erase: false,
        },
        probe: ProbeConfig {
            usb_vid: None,
            usb_pid: None,
            serial: None,
            protocol: Protocol::Swd,
            speed: Some(1000),
        },
        reset: ResetConfig { enabled: true, halt_afterwards: true },
        gdb: GdbConfig { enabled: true, gdb_connection_string: None },
        rtt: RttConfig {
            enabled: true,
            channels: vec![DataFormat::Text, DataFormat::Defmt],
            timeout: 3000,
        },
    }
}

#[test]
fn settings_collect_what_is_asked() {
    let found = settings(&options(), &config());
    assert_eq!(found.targets, 2);
    assert!(!found.list_chips);
    assert_eq!(found.probe, ProbeSource::Detected);
    assert_eq!(found.speed, Some(1000));
    assert!(found.connect_under_reset);
    assert!(found.flashing);
    assert!(found.flash_when_fresh);
    assert_eq!(found.reset, Some(ResetAction::Halt));
    assert!(found.gdb);
    assert!(found.rtt);
    assert!(found.defmt);
    assert_eq!(found.rtt_timeout, 3000);
}

#[test]
fn one_defmt_channel_is_enough() {
    let channels = |list: Vec<DataFormat>| RttConfig { enabled: true, channels: list, timeout: 0 };
    assert!(!channels(vec![]).carries_defmt());
    assert!(!channels(vec![DataFormat::Text, DataFormat::Binary]).carries_defmt());
    assert!(channels(vec![DataFormat::Binary, DataFormat::Defmt]).carries_defmt());
}

#[test]
fn the_source_of_the_probe_is_found() {
    let named = |vid: Option<&str>, pid: Option<&str>| ProbeConfig {
        usb_vid: vid.map(|s| s.to_string()),
        usb_pid: pid.map(|s| s.to_string()),
        ..config().probe
    };
    let source = |vid, pid| probe_source(&options(), &named(vid, pid));
    assert_eq!(source(None, None), ProbeSource::Detected);
    assert_eq!(source(Some("zz"), None), ProbeSource::Detected);
    assert_eq!(source(None, Some("1366")), ProbeSource::Detected);
    assert_eq!(source(Some("1366"), Some("0101")), ProbeSource::Configured);
    assert_eq!(source(Some("1366"), Some("zz")), ProbeSource::Rejected);
    assert_eq!(source(Some("11366"), Some("0101")), ProbeSource::Rejected);
    let selected = Options {
        probe_selector: Some(ProbeSelector {
            vendor_id: 1,
            product_id: 2,
            serial_number: None,
        }),
        ..options()
    };
    assert_eq!(
        probe_source(&selected, &named(Some("zz"), Some("zz"))),
        ProbeSource::CommandLine
    );
}
