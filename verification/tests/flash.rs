use cargo_embed::flash::{
    bar_commands, bar_label, plan_download, total_size, Bar, BarCommand, FlashEvent, FlashLayout,
    FlashTotals, TICK_MILLIS,
};

#[test]
fn plans_follow_the_options() {
    let quiet = plan_download(true, true, false);
    assert!(!quiet.show_progress);
    assert!(!quiet.show_fill);
    assert!(quiet.keep_unwritten_bytes);
    assert!(!quiet.do_chip_erase);
    let full = plan_download(false, true, true);
    assert!(full.show_progress && full.show_fill && full.do_chip_erase);
    assert!(!plan_download(false, false, false).show_fill);
    assert_eq!(TICK_MILLIS, 100);
}

#[test]
fn sizes_add_up() {
    assert_eq!(total_size(&vec![]), Some(0));
    assert_eq!(total_size(&vec![1024, 512, 1]), Some(1537));
    assert_eq!(total_size(&vec![u32::MAX, 0]), Some(u32::MAX));
    assert_eq!(total_size(&vec![u32::MAX, 1]), None);
}

#[test]
fn layouts_have_totals() {
    let layout = FlashLayout { pages: vec![256; 4], sectors: vec![4096, 4096], fills: vec![100] };
    assert_eq!(
        layout.totals(),
        Some(FlashTotals { pages: 1024, sectors: 8192, fills: 100 })
    );
    let large = FlashLayout { pages: vec![], sectors: vec![u32::MAX, u32::MAX], fills: vec![] };
    assert_eq!(large.totals(), None);
}

#[test]
fn lengths_are_set_at_the_start() {
    let event = FlashEvent::Initialized(FlashTotals { pages: 3, sectors: 2, fills: 1 });
    assert_eq!(
        bar_commands(event, true, true),
        vec![
            BarCommand::SetLength(Bar::Fill, 1),
            BarCommand::SetLength(Bar::Erase, 2),
            BarCommand::SetLength(Bar::Program, 3),
            BarCommand::WriteLayout,
        ]
    );
    assert_eq!(
        bar_commands(event, false, false),
        vec![BarCommand::SetLength(Bar::Erase, 2), BarCommand::SetLength(Bar::Program, 3)]
    );
}

#[test]
fn phases_drive_their_bars() {
    let told = |event| bar_commands(event, true, false);
    for (event, bar) in vec![
        (FlashEvent::StartedFilling, Bar::Fill),
        (FlashEvent::StartedErasing, Bar::Erase),
        (FlashEvent::StartedProgramming, Bar::Program),
    ] {
        assert_eq!(told(event), vec![BarCommand::Tick(bar), BarCommand::ResetElapsed(bar)]);
    }
    assert_eq!(told(FlashEvent::PageFilled(9)), vec![BarCommand::Advance(Bar::Fill, 9)]);
    assert_eq!(told(FlashEvent::SectorErased(8)), vec![BarCommand::Advance(Bar::Erase, 8)]);
    assert_eq!(told(FlashEvent::PageProgrammed(7)), vec![BarCommand::Advance(Bar::Program, 7)]);
    assert_eq!(told(FlashEvent::FinishedFilling), vec![BarCommand::Finish(Bar::Fill)]);
    assert_eq!(told(FlashEvent::FinishedErasing), vec![BarCommand::Finish(Bar::Erase)]);
    assert_eq!(told(FlashEvent::FinishedProgramming), vec![BarCommand::Finish(Bar::Program)]);
    assert_eq!(told(FlashEvent::FailedFilling), vec![BarCommand::Abandon(Bar::Fill)]);
    assert_eq!(told(FlashEvent::FailedProgramming), vec![BarCommand::Abandon(Bar::Program)]);
}

#[test]
fn failed_erasing_abandons_programming_too() {
    assert_eq!(
        bar_commands(FlashEvent::FailedErasing, false, false),
        vec![BarCommand::Abandon(Bar::Erase), BarCommand::Abandon(Bar::Program)]
    );
}

#[test]
fn a_hidden_bar_is_told_nothing() {
    for event in vec![
        FlashEvent::StartedFilling,
        FlashEvent::PageFilled(1),
        FlashEvent::FailedFilling,
        FlashEvent::FinishedFilling,
    ] {
        assert_eq!(bar_commands(event, false, true), vec![]);
    }
}

#[test]
fn a_bar_reaches_its_length() {
    let layout = FlashLayout { pages: vec![256, 256, 100], sectors: vec![], fills: vec![] };
    let totals = layout.totals().unwrap();
    let mut position = 0;
    for size in &layout.pages {
        for command in bar_commands(FlashEvent::PageProgrammed(*size), false, false) {
            match command {
                BarCommand::Advance(Bar::Program, by) => position += by,
                other => panic!("unexpected {:?}", other),
            }
        }
    }
    assert_eq!(position, 612);
    assert!(bar_commands(FlashEvent::Initialized(totals), false, false)
        .contains(&BarCommand::SetLength(Bar::Program, position)));
}

#[test]
fn bars_have_labels_of_one_width() {
    assert_eq!(bar_label(Bar::Fill), "     Reading flash  ");
    assert_eq!(bar_label(Bar::Erase), "     Erasing sectors");
    assert_eq!(bar_label(Bar::Program), " Programming pages  ");
}
