//! What happens to the core once the target is attached and flashed.
use vstd::prelude::*;

verus! {

/// How long a core may take to halt after a reset, in milliseconds.
pub const HALT_TIMEOUT_MILLIS: u64 = 500;

/// The reset that ends the flashing phase.
#[derive(Clone, Copy, Debug, PartialEq, Eq, Structural)]
pub enum ResetAction {
    /// Reset the core and let it run.
    Run,
    /// Reset the core and halt it at its first instruction.
    Halt,
    /// As `Halt`, asked for by the option's former place in the `flashing` section.
    HaltDeprecated,
}

/// The reset that a configuration asks for, if it asks for one.
///
/// The option's former place wins over its present one, so that the notice about
/// the move is shown whenever the former place is used.
pub open spec fn reset_asked(
    enabled: bool,
    flashing_halt: bool,
    reset_halt: bool,
) -> Option<ResetAction> {
    if !enabled {
        None
    } else if flashing_halt {
        Some(ResetAction::HaltDeprecated)
    } else if reset_halt {
        Some(ResetAction::Halt)
    } else {
        Some(ResetAction::Run)
    }
}

/// Picks the reset from `reset.enabled`, `flashing.halt_afterwards` and
/// `reset.halt_afterwards`.
pub fn choose_reset(enabled: bool, flashing_halt: bool, reset_halt: bool) -> (action: Option<
    ResetAction,
>)
    ensures
        action is None <==> !enabled,
        enabled && flashing_halt <==> action == Some(ResetAction::HaltDeprecated),
        enabled && !flashing_halt && reset_halt <==> action == Some(ResetAction::Halt),
        enabled && !flashing_halt && !reset_halt <==> action == Some(ResetAction::Run),
        action == reset_asked(enabled, flashing_halt, reset_halt),
{
    if !enabled {
        return None;
    }
    if flashing_halt {
        Some(ResetAction::HaltDeprecated)
    } else if reset_halt {
        Some(ResetAction::Halt)
    } else {
        Some(ResetAction::Run)
    }
}

impl ResetAction {
    /// Whether the core is left halted.
    pub fn halts(self) -> (halts: bool)
        ensures
            halts == (self != ResetAction::Run),
    {
        match self {
            ResetAction::Run => false,
            ResetAction::Halt | ResetAction::HaltDeprecated => true,
        }
    }
}

/// The core is left halted exactly when a reset is made and either place of the
/// option asks for it.
pub proof fn law_halted_when_either_place_asks(
    enabled: bool,
    flashing_halt: bool,
    reset_halt: bool,
)
    ensures
        (reset_asked(enabled, flashing_halt, reset_halt) matches Some(action)
            && action != ResetAction::Run) <==> enabled && (flashing_halt || reset_halt),
{
}

/// A core that is to halt has half a second for it.
pub proof fn law_halting_takes_half_a_second()
    ensures
        2 * HALT_TIMEOUT_MILLIS == 1000,
{
}

} // verus!
