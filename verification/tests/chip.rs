use cargo_embed::chip::{choose_chip, list_chips, report_families, ChipChoice, Family};

#[test]
fn the_command_line_names_the_chip_first() {
    let given = Some("nRF52840".to_string());
    let configured = Some("STM32F4".to_string());
    assert_eq!(choose_chip(&given, &configured), ChipChoice::Named("nRF52840".to_string()));
    assert_eq!(choose_chip(&given, &None), ChipChoice::Named("nRF52840".to_string()));
    assert_eq!(choose_chip(&None, &configured), ChipChoice::Named("STM32F4".to_string()));
    assert_eq!(choose_chip(&None, &None), ChipChoice::Auto);
}

#[test]
fn chips_are_listed_by_family() {
    let families = vec![
        Family {
            name: "nRF52 Series".to_string(),
            variants: vec!["nRF52832_xxAA".to_string(), "nRF52840_xxAA".to_string()],
        },
        Family { name: "Empty".to_string(), variants: vec![] },
    ];
    assert_eq!(
        list_chips(&families),
        vec![
            "Available chips:",
            "nRF52 Series",
            "    Variants:",
            "        nRF52832_xxAA",
            "        nRF52840_xxAA",
            "Empty",
            "    Variants:",
        ]
    );
    assert_eq!(list_chips(&vec![]), vec!["Available chips:"]);
}

#[test]
fn every_chip_is_listed() {
    let families: Vec<Family> = (0..3)
        .map(|f| Family {
            name: format!("family {}", f),
            variants: (0..f).map(|v| format!("chip {}.{}", f, v)).collect(),
        })
        .collect();
    let list = list_chips(&families);
    for family in &families {
        let at = list.iter().position(|line| *line == family.name).unwrap();
        for (n, variant) in family.variants.iter().enumerate() {
            assert_eq!(list[at + 2 + n], format!("        {}", variant));
        }
    }
}

#[test]
fn families_that_cannot_be_read_leave_the_heading() {
    let report = report_families(&Err("Io".to_string()));
    assert_eq!(report.lines, vec!["Available chips:"]);
    assert_eq!(report.error.unwrap(), "Families could not be read: Io");

    let families = vec![Family { name: "f".to_string(), variants: vec!["v".to_string()] }];
    let report = report_families(&Ok(families.clone()));
    assert_eq!(report.lines, list_chips(&families));
    assert_eq!(report.error, None);
}

#[test]
fn lists_join_below_one_heading() {
    let family = |name: &str| Family { name: name.to_string(), variants: vec!["v".to_string()] };
    let mut expected = list_chips(&vec![family("a")]);
    expected.extend(list_chips(&vec![family("b")]).split_off(1));
    assert_eq!(list_chips(&vec![family("a"), family("b")]), expected);
}
