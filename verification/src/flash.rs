//! Flashing: what is asked of the flash loader, and how the progress bars follow
//! what it reports.
use vstd::prelude::*;

verus! {

/// How often a running bar redraws itself, in milliseconds.
pub const TICK_MILLIS: u64 = 100;

/// What is asked of the flash loader.
#[derive(Clone, Copy, Debug, PartialEq, Eq, Structural)]
pub struct DownloadPlan {
    pub show_progress: bool,
    /// Show the bar for reading back what is kept.
    pub show_fill: bool,
    pub keep_unwritten_bytes: bool,
    pub do_chip_erase: bool,
}

/// Turns the options about flashing into a plan. Bytes are read back, and a bar is
/// shown for that, where those that are not written are to be kept.
pub fn plan_download(
    disable_progressbars: bool,
    restore_unwritten_bytes: bool,
    do_chip_erase: bool,
) -> (plan: DownloadPlan)
    ensures
        plan.show_progress == !disable_progressbars,
        plan.show_fill == (!disable_progressbars && restore_unwritten_bytes),
        plan.keep_unwritten_bytes == restore_unwritten_bytes,
        plan.do_chip_erase == do_chip_erase,
{
    DownloadPlan {
        show_progress: !disable_progressbars,
        show_fill: !disable_progressbars && restore_unwritten_bytes,
        keep_unwritten_bytes: restore_unwritten_bytes,
        do_chip_erase,
    }
}

/// The sizes of the parts of the flash that are worked on.
#[derive(Clone, Debug, PartialEq, Eq)]
pub struct FlashLayout {
    pub pages: Vec<u32>,
    pub sectors: Vec<u32>,
    pub fills: Vec<u32>,
}

/// The sizes of a layout, added up.
#[derive(Clone, Copy, Debug, PartialEq, Eq, Structural)]
pub struct FlashTotals {
    pub pages: u32,
    pub sectors: u32,
    pub fills: u32,
}

/// The sum of some sizes.
pub open spec fn total(sizes: Seq<u32>) -> nat
    decreases sizes.len(),
{
    if sizes.len() == 0 {
        0
    } else {
        total(sizes.drop_last()) + sizes.last() as nat
    }
}

proof fn lemma_total_grows(sizes: Seq<u32>, n: int)
    requires
        0 <= n <= sizes.len(),
    ensures
        total(sizes.take(n)) <= total(sizes),
    decreases sizes.len(),
{
    if n < sizes.len() {
        lemma_total_grows(sizes.drop_last(), n);
        assert(sizes.drop_last().take(n) =~= sizes.take(n));
    } else {
        assert(sizes.take(n) =~= sizes);
    }
}

/// Adds up sizes, if the sum fits.
pub fn total_size(sizes: &Vec<u32>) -> (sum: Option<u32>)
    ensures
        sum matches Some(value) ==> value == total(sizes@),
        sum is None <==> total(sizes@) > u32::MAX,
{
    let mut sum: u32 = 0;
    let mut n: usize = 0;
    while n < sizes.len()
        invariant
            n <= sizes.len(),
            sum == total(sizes@.take(n as int)),
        decreases sizes.len() - n,
    {
        proof {
            lemma_total_grows(sizes@, n + 1);
            assert(sizes@.take(n + 1).drop_last() =~= sizes@.take(n as int));
        }
        match sum.checked_add(sizes[n]) {
            Some(next) => {
                sum = next;
            },
            None => {
                return None;
            },
        }
        n = n + 1;
    }
    proof {
        assert(sizes@.take(n as int) =~= sizes@);
    }
    Some(sum)
}

impl FlashLayout {
    /// Adds up the sizes of the layout, if each sum fits.
    pub fn totals(&self) -> (totals: Option<FlashTotals>)
        ensures
            totals matches Some(sums) ==> {
                &&& sums.pages == total(self.pages@)
                &&& sums.sectors == total(self.sectors@)
                &&& sums.fills == total(self.fills@)
            },
            totals is None <==> total(self.pages@) > u32::MAX || total(self.sectors@) > u32::MAX
                || total(self.fills@) > u32::MAX,
    {
        match (total_size(&self.pages), total_size(&self.sectors), total_size(&self.fills)) {
            (Some(pages), Some(sectors), Some(fills)) => Some(
                FlashTotals { pages, sectors, fills },
            ),
            _ => None,
        }
    }
}

/// What the flash loader reports.
#[derive(Clone, Copy, Debug, PartialEq, Eq, Structural)]
pub enum FlashEvent {
    Initialized(FlashTotals),
    StartedFilling,
    PageFilled(u32),
    FailedFilling,
    FinishedFilling,
    StartedErasing,
    SectorErased(u32),
    FailedErasing,
    FinishedErasing,
    StartedProgramming,
    PageProgrammed(u32),
    FailedProgramming,
    FinishedProgramming,
}

/// A progress bar.
#[derive(Clone, Copy, Debug, PartialEq, Eq, Structural)]
pub enum Bar {
    /// Reading back bytes to keep. Not every run shows it.
    Fill,
    Erase,
    Program,
}

/// What a progress bar is told.
#[derive(Clone, Copy, Debug, PartialEq, Eq, Structural)]
pub enum BarCommand {
    SetLength(Bar, u64),
    /// Redraw regularly from now on.
    Tick(Bar),
    ResetElapsed(Bar),
    Advance(Bar, u64),
    Abandon(Bar),
    Finish(Bar),
    /// Not for a bar: write the picture of the flash layout.
    WriteLayout,
}

/// The bar that a command is for.
pub open spec fn bar_of(command: BarCommand) -> Option<Bar> {
    match command {
        BarCommand::SetLength(bar, _) | BarCommand::Advance(bar, _) => Some(bar),
        BarCommand::Tick(bar)
        | BarCommand::ResetElapsed(bar)
        | BarCommand::Abandon(bar)
        | BarCommand::Finish(bar) => Some(bar),
        BarCommand::WriteLayout => None,
    }
}

/// What an event means for the bars, were all of them shown. Erasing that fails
/// leaves nothing to program.
pub open spec fn meaning(event: FlashEvent) -> Seq<BarCommand> {
    match event {
        FlashEvent::Initialized(totals) => seq![
            BarCommand::SetLength(Bar::Fill, totals.fills as u64),
            BarCommand::SetLength(Bar::Erase, totals.sectors as u64),
            BarCommand::SetLength(Bar::Program, totals.pages as u64),
            BarCommand::WriteLayout,
        ],
        FlashEvent::StartedFilling => started(Bar::Fill),
        FlashEvent::StartedErasing => started(Bar::Erase),
        FlashEvent::StartedProgramming => started(Bar::Program),
        FlashEvent::PageFilled(size) => seq![BarCommand::Advance(Bar::Fill, size as u64)],
        FlashEvent::SectorErased(size) => seq![BarCommand::Advance(Bar::Erase, size as u64)],
        FlashEvent::PageProgrammed(size) => seq![BarCommand::Advance(Bar::Program, size as u64)],
        FlashEvent::FailedFilling => seq![BarCommand::Abandon(Bar::Fill)],
        FlashEvent::FailedErasing => seq![
            BarCommand::Abandon(Bar::Erase),
            BarCommand::Abandon(Bar::Program),
        ],
        FlashEvent::FailedProgramming => seq![BarCommand::Abandon(Bar::Program)],
        FlashEvent::FinishedFilling => seq![BarCommand::Finish(Bar::Fill)],
        FlashEvent::FinishedErasing => seq![BarCommand::Finish(Bar::Erase)],
        FlashEvent::FinishedProgramming => seq![BarCommand::Finish(Bar::Program)],
    }
}

/// What a bar is told when its phase starts.
pub open spec fn started(bar: Bar) -> Seq<BarCommand> {
    seq![BarCommand::Tick(bar), BarCommand::ResetElapsed(bar)]
}

/// Whether a command is carried out, given whether the fill bar is shown and
/// whether a picture of the layout is wanted.
pub open spec fn carried_out(command: BarCommand, show_fill: bool, layout_wanted: bool) -> bool {
    &&& bar_of(command) == Some(Bar::Fill) ==> show_fill
    &&& command is WriteLayout ==> layout_wanted
}

/// The commands that an event leads to.
pub open spec fn commands(event: FlashEvent, show_fill: bool, layout_wanted: bool) -> Seq<
    BarCommand,
> {
    meaning(event).filter(|command: BarCommand| carried_out(command, show_fill, layout_wanted))
}

fn push_command(list: &mut Vec<BarCommand>, command: BarCommand, wanted: bool)
    ensures
        final(list)@ == (if wanted {
            old(list)@.push(command)
        } else {
            old(list)@
        }),
{
    if wanted {
        list.push(command);
    }
}

fn push_started(list: &mut Vec<BarCommand>, bar: Bar, wanted: bool)
    ensures
        final(list)@ == (if wanted {
            old(list)@ + started(bar)
        } else {
            old(list)@
        }),
{
    push_command(list, BarCommand::Tick(bar), wanted);
    push_command(list, BarCommand::ResetElapsed(bar), wanted);
}

/// Turns an event into the commands for the bars.
pub fn bar_commands(event: FlashEvent, show_fill: bool, layout_wanted: bool) -> (list: Vec<
    BarCommand,
>)
    ensures
        list@ == commands(event, show_fill, layout_wanted),
{
    let mut list: Vec<BarCommand> = Vec::new();
    match event {
        FlashEvent::Initialized(totals) => {
            push_command(
                &mut list,
                BarCommand::SetLength(Bar::Fill, totals.fills as u64),
                show_fill,
            );
            push_command(
                &mut list,
                BarCommand::SetLength(Bar::Erase, totals.sectors as u64),
                true,
            );
            push_command(
                &mut list,
                BarCommand::SetLength(Bar::Program, totals.pages as u64),
                true,
            );
            push_command(&mut list, BarCommand::WriteLayout, layout_wanted);
        },
        FlashEvent::StartedFilling => push_started(&mut list, Bar::Fill, show_fill),
        FlashEvent::StartedErasing => push_started(&mut list, Bar::Erase, true),
        FlashEvent::StartedProgramming => push_started(&mut list, Bar::Program, true),
        FlashEvent::PageFilled(size) => {
            push_command(&mut list, BarCommand::Advance(Bar::Fill, size as u64), show_fill);
        },
        FlashEvent::SectorErased(size) => {
            push_command(&mut list, BarCommand::Advance(Bar::Erase, size as u64), true);
        },
        FlashEvent::PageProgrammed(size) => {
            push_command(&mut list, BarCommand::Advance(Bar::Program, size as u64), true);
        },
        FlashEvent::FailedFilling => {
            push_command(&mut list, BarCommand::Abandon(Bar::Fill), show_fill);
        },
        FlashEvent::FailedErasing => {
            push_command(&mut list, BarCommand::Abandon(Bar::Erase), true);
            push_command(&mut list, BarCommand::Abandon(Bar::Program), true);
        },
        FlashEvent::FailedProgramming => {
            push_command(&mut list, BarCommand::Abandon(Bar::Program), true);
        },
        FlashEvent::FinishedFilling => {
            push_command(&mut list, BarCommand::Finish(Bar::Fill), show_fill);
        },
        FlashEvent::FinishedErasing => {
            push_command(&mut list, BarCommand::Finish(Bar::Erase), true);
        },
        FlashEvent::FinishedProgramming => {
            push_command(&mut list, BarCommand::Finish(Bar::Program), true);
        },
    }
    proof {
        reveal_with_fuel(Seq::filter, 5);
        assert(list@ =~= commands(event, show_fill, layout_wanted));
    }
    list
}

/// How far some commands move a bar.
pub open spec fn moved(list: Seq<BarCommand>, bar: Bar) -> nat
    decreases list.len(),
{
    if list.len() == 0 {
        0
    } else {
        moved(list.drop_last(), bar) + match list.last() {
            BarCommand::Advance(other, by) => if other == bar {
                by as nat
            } else {
                0
            },
            _ => 0,
        }
    }
}

/// How far some events move a bar.
pub open spec fn progress(
    events: Seq<FlashEvent>,
    show_fill: bool,
    layout_wanted: bool,
    bar: Bar,
) -> nat
    decreases events.len(),
{
    if events.len() == 0 {
        0
    } else {
        progress(events.drop_last(), show_fill, layout_wanted, bar) + moved(
            commands(events.last(), show_fill, layout_wanted),
            bar,
        )
    }
}

/// The report that one part of the flash was worked on.
pub open spec fn part_done(bar: Bar, size: u32) -> FlashEvent {
    match bar {
        Bar::Fill => FlashEvent::PageFilled(size),
        Bar::Erase => FlashEvent::SectorErased(size),
        Bar::Program => FlashEvent::PageProgrammed(size),
    }
}

/// The reports that some parts of the flash were worked on, one after the other.
pub open spec fn parts_done(bar: Bar, sizes: Seq<u32>) -> Seq<FlashEvent> {
    sizes.map_values(|size: u32| part_done(bar, size))
}

/// The size that a layout's totals give for a bar.
pub open spec fn length_of(totals: FlashTotals, bar: Bar) -> u32 {
    match bar {
        Bar::Fill => totals.fills,
        Bar::Erase => totals.sectors,
        Bar::Program => totals.pages,
    }
}

/// Once every part of the layout is reported, its bar stands at exactly the length
/// that it was given at the start.
pub proof fn law_bar_reaches_its_length(
    totals: FlashTotals,
    sizes: Seq<u32>,
    show_fill: bool,
    layout_wanted: bool,
    bar: Bar,
)
    requires
        length_of(totals, bar) == total(sizes),
        bar is Fill ==> show_fill,
    ensures
        commands(FlashEvent::Initialized(totals), show_fill, layout_wanted).contains(
            BarCommand::SetLength(bar, length_of(totals, bar) as u64),
        ),
        progress(parts_done(bar, sizes), show_fill, layout_wanted, bar) == length_of(totals, bar),
{
    broadcast use vstd::seq_lib::group_filter_ensures;

    let set_length = BarCommand::SetLength(bar, length_of(totals, bar) as u64);
    let all = meaning(FlashEvent::Initialized(totals));
    assert(all[0] == set_length || all[1] == set_length || all[2] == set_length);
    lemma_progress_is_the_total(sizes, show_fill, layout_wanted, bar);
}

proof fn lemma_progress_is_the_total(
    sizes: Seq<u32>,
    show_fill: bool,
    layout_wanted: bool,
    bar: Bar,
)
    requires
        bar is Fill ==> show_fill,
    ensures
        progress(parts_done(bar, sizes), show_fill, layout_wanted, bar) == total(sizes),
    decreases sizes.len(),
{
    let events = parts_done(bar, sizes);
    if sizes.len() > 0 {
        lemma_progress_is_the_total(sizes.drop_last(), show_fill, layout_wanted, bar);
        assert(events.drop_last() =~= parts_done(bar, sizes.drop_last()));
        reveal_with_fuel(Seq::filter, 2);
        reveal_with_fuel(moved, 2);
        let list = commands(events.last(), show_fill, layout_wanted);
        assert(list =~= seq![BarCommand::Advance(bar, sizes.last() as u64)]);
        assert(list.drop_last() =~= Seq::<BarCommand>::empty());
    }
}

/// A bar that is not shown is told nothing, and no picture of the layout is written
/// unless one is wanted.
pub proof fn law_only_what_is_shown_is_touched(
    event: FlashEvent,
    show_fill: bool,
    layout_wanted: bool,
    n: int,
)
    requires
        0 <= n < commands(event, show_fill, layout_wanted).len(),
    ensures
        !show_fill ==> bar_of(commands(event, show_fill, layout_wanted)[n]) != Some(Bar::Fill),
        !layout_wanted ==> !(commands(event, show_fill, layout_wanted)[n] is WriteLayout),
        commands(event, show_fill, layout_wanted)[n] is WriteLayout ==> event is Initialized,
{
    reveal_with_fuel(Seq::filter, 5);
}

/// The text beside a bar.
pub fn bar_label(bar: Bar) -> (label: &'static str)
    ensures
        label@ == match bar {
            Bar::Fill => "     Reading flash  "@,
            Bar::Erase => "     Erasing sectors"@,
            Bar::Program => " Programming pages  "@,
        },
{
    match bar {
        Bar::Fill => "     Reading flash  ",
        Bar::Erase => "     Erasing sectors",
        Bar::Program => " Programming pages  ",
    }
}

/// Sizes add up in any grouping, and a further size adds itself.
pub proof fn law_total_adds_up(sizes: Seq<u32>, more: Seq<u32>, size: u32)
    ensures
        total(Seq::<u32>::empty()) == 0,
        total(sizes.push(size)) == total(sizes) + size,
        total(sizes + more) == total(sizes) + total(more),
    decreases more.len(),
{
    assert(sizes.push(size).drop_last() =~= sizes);
    if more.len() == 0 {
        assert(sizes + more =~= sizes);
    } else {
        law_total_adds_up(sizes, more.drop_last(), size);
        assert((sizes + more).drop_last() =~= sizes + more.drop_last());
    }
}

/// Each command has one event that leads to it. The lengths are set and the picture of
/// the layout is written when the layout is known; a bar runs from the start of its
/// phase, moves by what is worked on, and ends with its phase. Erasing that fails ends
/// programming too. The bar for reading back is only told anything where it is shown.
pub proof fn law_commands_follow_events(
    event: FlashEvent,
    show_fill: bool,
    layout_wanted: bool,
    bar: Bar,
    amount: u64,
)
    ensures
        ({
            let list = commands(event, show_fill, layout_wanted);
            let shown = bar is Fill ==> show_fill;
            &&& list.contains(BarCommand::SetLength(bar, amount)) <==> shown && (event matches
                FlashEvent::Initialized(totals) && amount == match bar {
                Bar::Fill => totals.fills,
                Bar::Erase => totals.sectors,
                Bar::Program => totals.pages,
            })
            &&& list.contains(BarCommand::WriteLayout) <==> event is Initialized && layout_wanted
            &&& list.contains(BarCommand::Tick(bar)) <==> shown && event == match bar {
                Bar::Fill => FlashEvent::StartedFilling,
                Bar::Erase => FlashEvent::StartedErasing,
                Bar::Program => FlashEvent::StartedProgramming,
            }
            &&& list.contains(BarCommand::ResetElapsed(bar)) <==> list.contains(
                BarCommand::Tick(bar),
            )
            &&& list.contains(BarCommand::Advance(bar, amount)) <==> shown && match bar {
                Bar::Fill => event matches FlashEvent::PageFilled(size) && amount == size,
                Bar::Erase => event matches FlashEvent::SectorErased(size) && amount == size,
                Bar::Program => event matches FlashEvent::PageProgrammed(size) && amount == size,
            }
            &&& list.contains(BarCommand::Abandon(bar)) <==> shown && match bar {
                Bar::Fill => event is FailedFilling,
                Bar::Erase => event is FailedErasing,
                Bar::Program => event is FailedErasing || event is FailedProgramming,
            }
            &&& list.contains(BarCommand::Finish(bar)) <==> shown && event == match bar {
                Bar::Fill => FlashEvent::FinishedFilling,
                Bar::Erase => FlashEvent::FinishedErasing,
                Bar::Program => FlashEvent::FinishedProgramming,
            }
        }),
{
    lemma_commands_in_the_filter(event, show_fill, layout_wanted, BarCommand::SetLength(bar, amount));
    lemma_commands_in_the_filter(event, show_fill, layout_wanted, BarCommand::WriteLayout);
    lemma_commands_in_the_filter(event, show_fill, layout_wanted, BarCommand::Tick(bar));
    lemma_commands_in_the_filter(event, show_fill, layout_wanted, BarCommand::ResetElapsed(bar));
    lemma_commands_in_the_filter(event, show_fill, layout_wanted, BarCommand::Advance(bar, amount));
    lemma_commands_in_the_filter(event, show_fill, layout_wanted, BarCommand::Abandon(bar));
    lemma_commands_in_the_filter(event, show_fill, layout_wanted, BarCommand::Finish(bar));
}

proof fn lemma_commands_in_the_filter(
    event: FlashEvent,
    show_fill: bool,
    layout_wanted: bool,
    command: BarCommand,
)
    ensures
        commands(event, show_fill, layout_wanted).contains(command) <==> carried_out(
            command,
            show_fill,
            layout_wanted,
        ) && meaning(event).contains(command),
        meaning(event).len() <= 4,
        meaning(event).contains(command) <==> {
            let all = meaning(event);
            ||| all.len() > 0 && all[0] == command
            ||| all.len() > 1 && all[1] == command
            ||| all.len() > 2 && all[2] == command
            ||| all.len() > 3 && all[3] == command
        },
{
    let all = meaning(event);
    let kept = |command: BarCommand| carried_out(command, show_fill, layout_wanted);
    let list = commands(event, show_fill, layout_wanted);
    assert(list == all.filter(kept));
    if list.contains(command) {
        let i = choose|i: int| 0 <= i < list.len() && list[i] == command;
        all.lemma_filter_pred(kept, i);
        all.lemma_filter_contains_rev(kept, command);
    }
    if all.contains(command) && carried_out(command, show_fill, layout_wanted) {
        let i = choose|i: int| 0 <= i < all.len() && all[i] == command;
        all.lemma_filter_contains(kept, i);
    }
}

/// A bar starts to run before its clock is set back, the lengths are set in the order
/// of the phases and before the picture is written, erasing is given up before
/// programming, and no command is given twice.
pub proof fn law_commands_are_in_order(
    event: FlashEvent,
    show_fill: bool,
    layout_wanted: bool,
    i: int,
    j: int,
)
    requires
        0 <= i < j < commands(event, show_fill, layout_wanted).len(),
    ensures
        ({
            let first = commands(event, show_fill, layout_wanted)[i];
            let second = commands(event, show_fill, layout_wanted)[j];
            &&& first != second
            &&& !(first is WriteLayout)
            &&& !(first is ResetElapsed)
            &&& first matches BarCommand::SetLength(bar, _) ==> !(bar is Program) || second
                is WriteLayout
            &&& second matches BarCommand::SetLength(bar, _) ==> !(bar is Fill)
            &&& first matches BarCommand::Abandon(bar) ==> bar is Erase
        }),
{
    reveal_with_fuel(Seq::filter, 5);
}

/// A running bar redraws itself ten times a second.
pub proof fn law_bars_redraw_ten_times_a_second()
    ensures
        10 * TICK_MILLIS == 1000,
{
}

} // verus!
