use cargo_embed::rtt::{gdb_address, log_name, scan_region, stamped_log_name, Moment, ScanRegion};

#[test]
fn the_symbol_gives_the_region() {
    assert_eq!(scan_region(None), ScanRegion::Ram);
    assert_eq!(scan_region(Some(0x2000_0000)), ScanRegion::Exact(0x2000_0000));
    assert_eq!(scan_region(Some(0x1_2000_0004)), ScanRegion::Exact(0x2000_0004));
    assert_eq!(scan_region(Some(0)), ScanRegion::Exact(0));
}

#[test]
fn the_gdb_server_has_a_default_address() {
    assert_eq!(gdb_address(&None), "127.0.0.1:1337");
    assert_eq!(gdb_address(&Some("0.0.0.0:3333".to_string())), "0.0.0.0:3333");
}

#[test]
fn logs_are_named_by_binary_chip_and_time() {
    let chip = Some("nRF52840".to_string());
    assert_eq!(stamped_log_name("blinky", &chip, "now"), "blinky_nRF52840_now");
    assert_eq!(stamped_log_name("blinky", &None, "now"), "blinky__now");
}

#[test]
fn moments_are_written_in_local_time() {
    let moment = Moment { seconds: 1_431_648_000, nanos: 0, offset: 7200 };
    assert_eq!(
        log_name("blinky", &None, moment).unwrap(),
        "blinky__2015-05-15T02:00:00+02:00"
    );
    let fine = Moment { seconds: 0, nanos: 120_000_000, offset: -3600 };
    assert_eq!(
        log_name("b", &Some("c".to_string()), fine).unwrap(),
        "b_c_1969-12-31T23:00:00.120-01:00"
    );
}

#[test]
fn moments_outside_the_calendar_give_no_name() {
    let moment = Moment { seconds: 0, nanos: 0, offset: 0 };
    assert!(log_name("b", &None, moment).is_some());
    assert_eq!(log_name("b", &None, Moment { offset: 86_400, ..moment }), None);
    assert_eq!(log_name("b", &None, Moment { offset: -86_400, ..moment }), None);
    assert_eq!(log_name("b", &None, Moment { nanos: 2_000_000_000, ..moment }), None);
    assert_eq!(log_name("b", &None, Moment { seconds: i64::MAX, ..moment }), None);
    assert!(log_name("b", &None, Moment { seconds: 253_402_300_799, ..moment }).is_some());
}

#[test]
fn logs_of_different_times_differ() {
    let early = Moment { seconds: 10, nanos: 0, offset: 0 };
    let late = Moment { seconds: 11, ..early };
    assert_ne!(log_name("b", &None, early), log_name("b", &None, late));
}
