//! The screens between menu and game: which app states are loading, the
//! loading phases, and leaving the menus for the game.
use vstd::prelude::*;
use crate::ui_state::{UiInteractionState, Visibility, loading_preload_radius_for_ui};
use crate::single_player::SinglePlayerUiState;
use crate::multiplayer::{MultiplayerUiState, same_lists};

verus! {

/// The menu screens.
#[derive(Clone, Copy, PartialEq, Eq, Debug, Structural)]
pub enum BeforeUiState {
    Menu,
    SinglePlayer,
    MultiPlayer,
}

/// The stages of loading a world.
#[derive(Clone, Copy, PartialEq, Eq, Debug, Structural)]
pub enum LoadingStates {
    BaseGen,
    CaveGen,
    WaterGen,
}

/// Where the application is.
#[derive(Clone, Copy, PartialEq, Eq, Debug, Structural)]
pub enum AppState {
    Screen(BeforeUiState),
    Loading(LoadingStates),
    InGame,
}

/// Whether the application is loading a world.
pub fn is_loading_state(app_state: AppState) -> (r: bool)
    ensures
        r == (app_state is Loading),
{
    match app_state {
        AppState::Loading(_) => true,
        _ => false,
    }
}

/// The phase the loading screen reports.
#[derive(Clone, Copy, PartialEq, Eq, Debug, Structural)]
pub enum LoadingPhase {
    BaseGen,
    CaveGen,
    WaterGen,
    Done,
}

/// The loading phase of an app state and the percentage the progress bar
/// heads for in it.
pub fn loading_phase_target(app_state: AppState) -> (r: (LoadingPhase, u8))
    ensures
        r == match app_state {
            AppState::Loading(LoadingStates::BaseGen) => (LoadingPhase::BaseGen, 34u8),
            AppState::Loading(LoadingStates::CaveGen) => (LoadingPhase::CaveGen, 72u8),
            AppState::Loading(LoadingStates::WaterGen) => (LoadingPhase::WaterGen, 97u8),
            _ => (LoadingPhase::Done, 100u8),
        },
{
    match app_state {
        AppState::Loading(LoadingStates::BaseGen) => (LoadingPhase::BaseGen, 34),
        AppState::Loading(LoadingStates::CaveGen) => (LoadingPhase::CaveGen, 72),
        AppState::Loading(LoadingStates::WaterGen) => (LoadingPhase::WaterGen, 97),
        _ => (LoadingPhase::Done, 100),
    }
}

/// How many chunks the loading screen waits for: the square of side
/// `2r + 1` around the player, `r` the preload radius.
pub fn world_gen_chunk_target(chunk_range: i32) -> (r: u64)
    ensures
        ({
            let radius = if chunk_range < 0 {
                0
            } else {
                chunk_range as int
            };
            r == (2 * radius + 1) * (2 * radius + 1)
        }),
{
    let radius = loading_preload_radius_for_ui(chunk_range) as u64;
    let side = radius * 2 + 1;
    assert(side * side <= 0xFFFF_FFFF_FFFF_FFFF) by (nonlinear_arith)
        requires
            side < 0x1_0000_0000,
    ;
    side * side
}

/// Entering the game: the menus close and no menu dialog stays pending.
pub fn hide_menu_roots_for_ingame(
    ui_interaction: &mut UiInteractionState,
    single_player_state: &mut SinglePlayerUiState,
    multiplayer_state: &mut MultiplayerUiState,
)
    ensures
        !final(ui_interaction).menu_open,
        final(ui_interaction).chat_open == old(ui_interaction).chat_open,
        final(ui_interaction).inventory_open == old(ui_interaction).inventory_open,
        !final(single_player_state).closing_for_world_load,
        final(single_player_state).pending_delete_index is None,
        final(single_player_state).page == old(single_player_state).page,
        final(single_player_state).worlds == old(single_player_state).worlds,
        final(single_player_state).selected_index == old(single_player_state).selected_index,
        final(multiplayer_state).form_dialog is None,
        final(multiplayer_state).pending_delete_key is None,
        final(multiplayer_state).joining_key is None,
        same_lists(*old(multiplayer_state), *final(multiplayer_state)),
        final(multiplayer_state).selected_key == old(multiplayer_state).selected_key,
{
    ui_interaction.menu_open = false;
    single_player_state.closing_for_world_load = false;
    single_player_state.pending_delete_index = None;
    multiplayer_state.form_dialog = None;
    multiplayer_state.pending_delete_key = None;
    multiplayer_state.joining_key = None;
}

/// Whether the "leaving the world" notice is running.
pub struct WorldUnloadUiState {
    pub active: bool,
}

/// Leaving a world shows the notice (its timer starts again).
pub fn trigger_world_unload_ui(state: &mut WorldUnloadUiState) -> (r: Visibility)
    ensures
        final(state).active,
        r == Visibility::Inherited,
{
    state.active = true;
    Visibility::Inherited
}

/// One frame of the notice: nothing while it is not running; it ends (hidden)
/// as soon as a world loads or once its timer has run out, and stays shown
/// otherwise.
pub fn tick_world_unload_ui(state: &mut WorldUnloadUiState, app_state: AppState, timer_finished: bool) -> (r:
    Option<Visibility>)
    ensures
        !old(state).active ==> r is None && !final(state).active,
        old(state).active && (app_state is Loading || timer_finished) ==> r == Some(Visibility::Hidden)
            && !final(state).active,
        old(state).active && !(app_state is Loading) && !timer_finished ==> r == Some(
            Visibility::Inherited,
        ) && final(state).active,
{
    if !state.active {
        return None;
    }
    if is_loading_state(app_state) {
        state.active = false;
        return Some(Visibility::Hidden);
    }
    if !timer_finished {
        return Some(Visibility::Inherited);
    }
    state.active = false;
    Some(Visibility::Hidden)
}

/// Resetting hides the notice and stops it.
pub fn reset_world_unload_ui(state: &mut WorldUnloadUiState) -> (r: Visibility)
    ensures
        !final(state).active,
        r == Visibility::Hidden,
{
    state.active = false;
    Visibility::Hidden
}

/// Whether the notice's timer runs.
pub fn world_unload_ui_should_tick(state: &WorldUnloadUiState) -> (r: bool)
    ensures
        r == state.active,
{
    state.active
}

/// A list's scrollbars while its menu root is hidden: one that forces itself
/// visible is hidden; otherwise nothing changes.
pub open spec fn scrollbar_after(root: Visibility, v: Visibility) -> Visibility {
    if root == Visibility::Hidden && v == Visibility::Visible {
        Visibility::Hidden
    } else {
        v
    }
}

/// Hides the scrollbars of a list whose menu root is hidden but which still
/// force themselves visible.
pub fn suppress_stale_scrollbars(root: Visibility, scrollbars: &mut Vec<Visibility>)
    ensures
        final(scrollbars)@.len() == old(scrollbars)@.len(),
        forall|k: int|
            0 <= k < old(scrollbars)@.len() ==> #[trigger] final(scrollbars)@[k] == scrollbar_after(
                root,
                old(scrollbars)@[k],
            ),
{
    if root != Visibility::Hidden {
        return;
    }
    let ghost s0 = scrollbars@;
    let mut i: usize = 0;
    while i < scrollbars.len()
        invariant
            i <= scrollbars@.len(),
            scrollbars@.len() == s0.len(),
            root == Visibility::Hidden,
            forall|k: int| 0 <= k < i ==> #[trigger] scrollbars@[k] == scrollbar_after(root, s0[k]),
            forall|k: int| i <= k < s0.len() ==> #[trigger] scrollbars@[k] == s0[k],
        decreases s0.len() - i,
    {
        if scrollbars[i] == Visibility::Visible {
            scrollbars.set(i, Visibility::Hidden);
        }
        i = i + 1;
    }
}

} // verus!
