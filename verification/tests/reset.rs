use cargo_embed::reset::{choose_reset, ResetAction, HALT_TIMEOUT_MILLIS};

#[test]
fn no_reset_without_being_enabled() {
    assert_eq!(choose_reset(false, true, true), None);
    assert_eq!(choose_reset(false, false, false), None);
}

#[test]
fn the_former_place_of_the_halt_option_wins() {
    assert_eq!(choose_reset(true, true, true), Some(ResetAction::HaltDeprecated));
    assert_eq!(choose_reset(true, true, false), Some(ResetAction::HaltDeprecated));
    assert_eq!(choose_reset(true, false, true), Some(ResetAction::Halt));
    assert_eq!(choose_reset(true, false, false), Some(ResetAction::Run));
}

#[test]
fn a_core_halts_when_either_place_asks() {
    for flashing in vec![false, true] {
        for reset in vec![false, true] {
            let action = choose_reset(true, flashing, reset).unwrap();
            assert_eq!(action.halts(), flashing || reset);
        }
    }
    assert_eq!(HALT_TIMEOUT_MILLIS, 500);
}
