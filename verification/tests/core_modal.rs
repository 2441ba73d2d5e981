use crusade_roguelite::game_core::reduce_run_modal_state;
use crusade_roguelite::model::{RunModalAction, RunModalScreen, RunModalState};

#[test]
fn modal_reducer_toggles_open_and_close_for_same_screen() {
    let state = reduce_run_modal_state(
        RunModalState::Closed,
        RunModalAction::Toggle(RunModalScreen::Inventory),
        true,
    );
    assert_eq!(state, RunModalState::Open(RunModalScreen::Inventory));

    let closed = reduce_run_modal_state(state, RunModalAction::Toggle(RunModalScreen::Inventory), true);
    assert_eq!(closed, RunModalState::Closed);
}

#[test]
fn modal_open_requests_are_ignored_when_opening_not_allowed() {
    let state = RunModalState::Closed;
    let ignored = reduce_run_modal_state(state, RunModalAction::Open(RunModalScreen::SkillBook), false);
    assert_eq!(ignored, state);
}

#[test]
fn modal_close_request_always_clears_modal_state() {
    let state = RunModalState::Open(RunModalScreen::Stats);
    let closed = reduce_run_modal_state(state, RunModalAction::Close, false);
    assert_eq!(closed, RunModalState::Closed);
}

#[test]
fn modal_open_request_supports_all_in_run_screens() {
    let screens = [
        RunModalScreen::Inventory,
        RunModalScreen::Stats,
        RunModalScreen::SkillBook,
        RunModalScreen::Archive,
        RunModalScreen::UnitUpgrade,
    ];
    for screen in screens {
        let state = reduce_run_modal_state(RunModalState::Closed, RunModalAction::Open(screen), true);
        assert_eq!(state, RunModalState::Open(screen));
    }
}

#[test]
fn toggling_a_screen_twice_restores_the_closed_state() {
    for screen in [RunModalScreen::Chest, RunModalScreen::Archive] {
        let open = reduce_run_modal_state(RunModalState::Closed, RunModalAction::Toggle(screen), true);
        let back = reduce_run_modal_state(open, RunModalAction::Toggle(screen), true);
        assert_eq!(back, RunModalState::Closed);
    }
}

#[test]
fn toggling_another_screen_switches_to_it() {
    let open = RunModalState::Open(RunModalScreen::Stats);
    let switched = reduce_run_modal_state(open, RunModalAction::Toggle(RunModalScreen::Archive), true);
    assert_eq!(switched, RunModalState::Open(RunModalScreen::Archive));
}

#[test]
fn refused_open_keeps_an_open_screen() {
    let open = RunModalState::Open(RunModalScreen::Stats);
    let kept = reduce_run_modal_state(open, RunModalAction::Open(RunModalScreen::Chest), false);
    assert_eq!(kept, open);
    assert!(kept.is_open());
    assert!(!RunModalState::Closed.is_open());
}

#[test]
fn opening_the_open_screen_again_changes_nothing() {
    let open = RunModalState::Open(RunModalScreen::SkillBook);
    let again = reduce_run_modal_state(open, RunModalAction::Open(RunModalScreen::SkillBook), true);
    assert_eq!(again, open);
}
