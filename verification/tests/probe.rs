use cargo_embed::probe::{
    is_slower, pick_detected, plan_probe, DetectError, HexReason, ProbePlan, ProbeSelector,
};

fn text(s: &str) -> Option<String> {
    Some(s.to_string())
}

fn selector(vendor_id: u16, product_id: u16, serial: Option<&str>) -> ProbeSelector {
    ProbeSelector {
        vendor_id,
        product_id,
        serial_number: serial.map(|s| s.to_string()),
    }
}

#[test]
fn a_selector_from_the_command_line_comes_first() {
    let given = selector(0x1366, 0x0101, None);
    let plan = plan_probe(Some(given.clone()), &text("nonsense"), &text("ffff"), &None);
    assert_eq!(plan, Ok(ProbePlan::Open(given)));
}

#[test]
fn configured_identifiers_are_hexadecimal() {
    assert_eq!(
        plan_probe(None, &text("0483"), &text("374b"), &text("0670FF")),
        Ok(ProbePlan::Open(selector(0x0483, 0x374b, Some("0670FF"))))
    );
    assert_eq!(
        plan_probe(None, &text("+FfFf"), &text("00000a"), &None),
        Ok(ProbePlan::Open(selector(0xffff, 0x000a, None)))
    );
}

#[test]
fn unreadable_identifiers_are_refused() {
    let refused = |vid: &str, pid: &str| {
        plan_probe(None, &text(vid), &text(pid), &None).map_err(|error| error.reason)
    };
    assert_eq!(refused("", "1"), Err(HexReason::Empty));
    assert_eq!(refused("0x12", "1"), Err(HexReason::InvalidDigit));
    assert_eq!(refused(" 12", "1"), Err(HexReason::InvalidDigit));
    assert_eq!(refused("+", "1"), Err(HexReason::InvalidDigit));
    assert_eq!(refused("-1", "1"), Err(HexReason::InvalidDigit));
    assert_eq!(refused("10000", "1"), Err(HexReason::TooLarge));
    assert_eq!(refused("1", "zz"), Err(HexReason::InvalidDigit));
    assert_eq!(refused("", "zz"), Err(HexReason::Empty));
    assert_eq!(refused("1", ""), Err(HexReason::Empty));
}

#[test]
fn refusals_are_worded_as_in_std() {
    for source in vec!["", "g", "10000"] {
        let error = plan_probe(None, &text(source), &text("1"), &None).unwrap_err();
        let expected = u16::from_str_radix(source, 16).unwrap_err().to_string();
        assert_eq!(error.message, expected);
    }
    let error = plan_probe(None, &text("1"), &text("10000"), &None).unwrap_err();
    assert_eq!(error.message, u16::from_str_radix("10000", 16).unwrap_err().to_string());
}

#[test]
fn a_lone_identifier_is_ignored() {
    let detect = |vendor_ignored, product_ignored| {
        Ok(ProbePlan::Detect { vendor_ignored, product_ignored })
    };
    assert_eq!(plan_probe(None, &None, &None, &text("s")), detect(false, false));
    assert_eq!(plan_probe(None, &text("bad id"), &None, &None), detect(true, false));
    assert_eq!(plan_probe(None, &None, &text("bad id"), &None), detect(false, true));
}

#[test]
fn the_only_probe_is_picked() {
    assert_eq!(pick_detected(&vec!["ST-Link".to_string()]), Ok(0));
    let none = pick_detected(&Vec::new()).unwrap_err();
    assert_eq!(none, DetectError::NoProbe);
    assert_eq!(none.message(), "No supported probe was found");
}

#[test]
fn several_probes_are_listed() {
    let found = vec!["ST-Link (VID: 0483)".to_string(), "J-Link (VID: 1366)".to_string()];
    let message = pick_detected(&found).unwrap_err().message();
    assert_eq!(
        message,
        "The following devices were found:\n [0]: ST-Link (VID: 0483)\n[1]: J-Link (VID: 1366)\n Use '--probe VID:PID'\n You can also set the [default.probe] config attribute (in your Embed.toml) to select which probe to use. For usage examples see https://github.com/probe-rs/cargo-embed/blob/master/src/config/default.toml ."
    );
}

#[test]
fn every_probe_has_its_line() {
    let found: Vec<String> = (0..12).map(|n| format!("probe {}", n * n)).collect();
    let message = pick_detected(&found).unwrap_err().message();
    let list = message.strip_prefix("The following devices were found:\n ").unwrap();
    for (n, line) in list.lines().take(12).enumerate() {
        assert_eq!(line, format!("[{}]: probe {}", n, n * n));
    }
}

#[test]
fn slower_probes_are_noticed() {
    assert!(is_slower(4000, 1800));
    assert!(!is_slower(4000, 4000));
    assert!(!is_slower(4000, 8000));
}
