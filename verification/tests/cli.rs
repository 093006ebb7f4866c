use cargo_embed::cli::{strip_subcommand, version_text, Options};

fn args(list: &[&str]) -> Vec<String> {
    list.iter().map(|s| s.to_string()).collect()
}

fn options() -> Options {
    Options {
        version: false,
        config: None,
        chip: None,
        probe_selector: None,
        list_chips: false,
        disable_progressbars: false,
        flash_when_fresh: false,
    }
}

#[test]
fn the_subcommand_is_taken_off() {
    assert_eq!(
        strip_subcommand(args(&["cargo-embed", "embed", "--chip", "nRF52"])),
        args(&["embed", "--chip", "nRF52"])
    );
    assert_eq!(strip_subcommand(args(&["cargo-embed", "embed"])), args(&["embed"]));
    assert_eq!(
        strip_subcommand(args(&["cargo-embed", "release", "embed"])),
        args(&["cargo-embed", "release", "embed"])
    );
    assert_eq!(strip_subcommand(args(&["embed"])), args(&["embed"]));
    assert_eq!(strip_subcommand(vec![]), Vec::<String>::new());
}

#[test]
fn a_call_through_cargo_is_a_direct_call() {
    let direct = strip_subcommand(args(&["cargo-embed", "--list-chips"]));
    let through_cargo = strip_subcommand(args(&["cargo-embed", "embed", "--list-chips"]));
    assert_eq!(direct[1..], through_cargo[1..]);
}

#[test]
fn the_configuration_has_a_default() {
    assert_eq!(options().config_name(), "default");
    let named = Options { config: Some("release".to_string()), ..options() };
    assert_eq!(named.config_name(), "release");
}

#[test]
fn the_version_names_the_commit() {
    assert_eq!(
        version_text("cargo-embed", "0.12.0", "crates.io"),
        "cargo-embed 0.12.0\ngit commit: crates.io"
    );
}
