//! The run-modal reducer: how open/toggle/close requests change which
//! modal screen is shown over a run, which requests the run hotkeys send,
//! and when the run clock stands still.
use vstd::prelude::*;

use crate::model::{RunModalAction, RunModalScreen, RunModalState};

verus! {

/// The modal state after `action`, where `can_open` tells whether a modal
/// may open at all (only while a run is in progress).
pub open spec fn spec_reduce_run_modal_state(
    current: RunModalState,
    action: RunModalAction,
    can_open: bool,
) -> RunModalState {
    match action {
        RunModalAction::Close => RunModalState::Closed,
        RunModalAction::Open(screen) => if can_open {
            RunModalState::Open(screen)
        } else {
            current
        },
        RunModalAction::Toggle(screen) => if !can_open {
            current
        } else if current == RunModalState::Open(screen) {
            RunModalState::Closed
        } else {
            RunModalState::Open(screen)
        },
    }
}

/// Applies one modal request to the current modal state.
pub fn reduce_run_modal_state(current: RunModalState, action: RunModalAction, can_open: bool) -> (r:
    RunModalState)
    ensures
        r == spec_reduce_run_modal_state(current, action, can_open),
{
    match action {
        RunModalAction::Close => RunModalState::Closed,
        RunModalAction::Open(screen) => {
            if can_open {
                RunModalState::Open(screen)
            } else {
                current
            }
        },
        RunModalAction::Toggle(screen) => {
            if !can_open {
                return current;
            }
            match current {
                RunModalState::Open(active) => {
                    if active == screen {
                        RunModalState::Closed
                    } else {
                        RunModalState::Open(screen)
                    }
                },
                _ => RunModalState::Open(screen),
            }
        },
    }
}

/// Toggling the same screen twice, while modals may open, leaves the
/// modal state where it started whenever that screen was open or no modal
/// was.
pub proof fn lemma_toggle_twice_restores(current: RunModalState, screen: RunModalScreen)
    requires
        current == RunModalState::Closed || current == RunModalState::Open(screen),
    ensures
        spec_reduce_run_modal_state(
            spec_reduce_run_modal_state(current, RunModalAction::Toggle(screen), true),
            RunModalAction::Toggle(screen),
            true,
        ) == current,
{
}

/// A close request always clears the modal state, and no request opens a
/// modal while opening is not allowed.
pub proof fn lemma_close_and_refusal(current: RunModalState, action: RunModalAction)
    ensures
        spec_reduce_run_modal_state(current, RunModalAction::Close, false)
            == RunModalState::Closed,
        spec_reduce_run_modal_state(current, RunModalAction::Close, true) == RunModalState::Closed,
        action != RunModalAction::Close ==> spec_reduce_run_modal_state(current, action, false)
            == current,
{
}

/// An open request, when allowed, always shows exactly the requested
/// screen, and repeating it changes nothing.
pub proof fn lemma_open_is_idempotent(current: RunModalState, screen: RunModalScreen)
    ensures
        spec_reduce_run_modal_state(current, RunModalAction::Open(screen), true)
            == RunModalState::Open(screen),
        spec_reduce_run_modal_state(
            spec_reduce_run_modal_state(current, RunModalAction::Open(screen), true),
            RunModalAction::Open(screen),
            true,
        ) == RunModalState::Open(screen),
{
}

/// The modal state after `actions`, applied in order.
pub open spec fn spec_apply_run_modal_requests(
    current: RunModalState,
    actions: Seq<RunModalAction>,
    can_open: bool,
) -> RunModalState
    decreases actions.len(),
{
    if actions.len() == 0 {
        current
    } else {
        spec_apply_run_modal_requests(
            spec_reduce_run_modal_state(current, actions[0], can_open),
            actions.drop_first(),
            can_open,
        )
    }
}

/// Applies a frame's modal requests, in the order they were sent.
pub fn apply_run_modal_requests(current: RunModalState, actions: &[RunModalAction], can_open: bool) -> (r:
    RunModalState)
    ensures
        r == spec_apply_run_modal_requests(current, actions@, can_open),
{
    let mut next = current;
    let mut i: usize = 0;
    assert(actions@.subrange(0, actions@.len() as int) =~= actions@);
    while i < actions.len()
        invariant
            i <= actions@.len(),
            spec_apply_run_modal_requests(next, actions@.subrange(i as int, actions@.len() as int), can_open)
                == spec_apply_run_modal_requests(current, actions@, can_open),
        decreases actions@.len() - i,
    {
        let ghost rest = actions@.subrange(i as int, actions@.len() as int);
        assert(rest.drop_first() =~= actions@.subrange(i + 1, actions@.len() as int));
        next = reduce_run_modal_state(next, actions[i], can_open);
        i = i + 1;
    }
    assert(actions@.subrange(i as int, actions@.len() as int) =~= Seq::<RunModalAction>::empty());
    next
}

/// While modals may not open, no sequence of requests opens one: the state
/// stays as it was, or is closed.
pub proof fn lemma_requests_outside_run_never_open(current: RunModalState, actions: Seq<RunModalAction>)
    ensures
        spec_apply_run_modal_requests(current, actions, false) == current
            || spec_apply_run_modal_requests(current, actions, false) == RunModalState::Closed,
    decreases actions.len(),
{
    if actions.len() > 0 {
        let next = spec_reduce_run_modal_state(current, actions[0], false);
        lemma_requests_outside_run_never_open(next, actions.drop_first());
        if next == RunModalState::Closed {
            lemma_requests_outside_run_never_open(RunModalState::Closed, actions.drop_first());
        }
    }
}

/// The run hotkeys pressed this frame: Escape, and the keys of the
/// inventory (I), stats (O), skill book (P), archive (K) and unit upgrade
/// (U) screens.
#[derive(Clone, Copy, Debug, PartialEq, Eq, Structural)]
pub struct RunModalHotkeys {
    pub escape: bool,
    pub inventory: bool,
    pub stats: bool,
    pub skill_book: bool,
    pub archive: bool,
    pub unit_upgrade: bool,
}

/// One toggle request where `pressed`, none otherwise.
pub open spec fn toggle_if(pressed: bool, screen: RunModalScreen) -> Seq<RunModalAction> {
    if pressed {
        seq![RunModalAction::Toggle(screen)]
    } else {
        Seq::empty()
    }
}

/// The requests of a frame's hotkeys during a run: Escape closes an open
/// modal, then each screen key toggles its screen, in the order inventory,
/// stats, skill book, archive, unit upgrade.
pub open spec fn spec_hotkey_requests(modal_open: bool, keys: RunModalHotkeys) -> Seq<RunModalAction> {
    (if keys.escape && modal_open {
        seq![RunModalAction::Close]
    } else {
        Seq::empty()
    }) + toggle_if(keys.inventory, RunModalScreen::Inventory) + toggle_if(keys.stats, RunModalScreen::Stats)
        + toggle_if(keys.skill_book, RunModalScreen::SkillBook) + toggle_if(keys.archive, RunModalScreen::Archive)
        + toggle_if(keys.unit_upgrade, RunModalScreen::UnitUpgrade)
}

fn push_toggle_if(requests: &mut Vec<RunModalAction>, pressed: bool, screen: RunModalScreen)
    ensures
        final(requests)@ == old(requests)@ + toggle_if(pressed, screen),
{
    if pressed {
        requests.push(RunModalAction::Toggle(screen));
    }
    assert(final(requests)@ =~= old(requests)@ + toggle_if(pressed, screen));
}

/// What the run hotkeys of a frame do: the modal requests they send, and
/// whether they pause the game (Escape with no modal open). Outside a run
/// they do nothing.
pub fn run_modal_hotkey_requests(in_run: bool, modal_open: bool, keys: RunModalHotkeys) -> (r: (
    Vec<RunModalAction>,
    bool,
))
    ensures
        !in_run ==> r.0@ == Seq::<RunModalAction>::empty() && !r.1,
        in_run ==> r.0@ == spec_hotkey_requests(modal_open, keys) && r.1 == (keys.escape && !modal_open),
{
    let mut requests: Vec<RunModalAction> = Vec::new();
    if !in_run {
        return (requests, false);
    }
    let mut pause = false;
    if keys.escape {
        if modal_open {
            requests.push(RunModalAction::Close);
        } else {
            pause = true;
        }
    }
    assert(requests@ =~= (if keys.escape && modal_open {
        seq![RunModalAction::Close]
    } else {
        Seq::<RunModalAction>::empty()
    }));
    push_toggle_if(&mut requests, keys.inventory, RunModalScreen::Inventory);
    push_toggle_if(&mut requests, keys.stats, RunModalScreen::Stats);
    push_toggle_if(&mut requests, keys.skill_book, RunModalScreen::SkillBook);
    push_toggle_if(&mut requests, keys.archive, RunModalScreen::Archive);
    push_toggle_if(&mut requests, keys.unit_upgrade, RunModalScreen::UnitUpgrade);
    (requests, pause)
}

/// The run clock stands still while a modal is open over a running run.
pub fn run_time_should_pause(in_run: bool, modal_state: RunModalState) -> (r: bool)
    ensures
        r == (in_run && modal_state is Open),
{
    in_run && modal_state.is_open()
}

} // verus!
