//! Which UI panels are open, what the mouse cursor does, the menu buttons, and
//! the small decisions of the loading and debug screens.
use vstd::prelude::*;
use crate::css_ids::WidgetState;
use crate::text::{text_equals, push_decimal};

verus! {

/// Visibility of a UI node.
#[derive(Clone, Copy, PartialEq, Eq, Debug, Structural)]
pub enum Visibility {
    Inherited,
    Hidden,
    Visible,
}

/// Which panels are open, as the input systems see it.
pub struct UiInteractionState {
    pub menu_open: bool,
    pub chat_open: bool,
    pub inventory_open: bool,
    pub structure_menu_open: bool,
    pub workbench_menu_open: bool,
    pub chest_menu_open: bool,
}

/// How the window treats the mouse cursor.
#[derive(Clone, Copy, PartialEq, Eq, Debug, Structural)]
pub enum CursorGrabMode {
    Free,
    Locked,
}

pub struct CursorOptions {
    pub grab_mode: CursorGrabMode,
    pub visible: bool,
}

/// A UI node counts as open unless it is hidden.
pub fn is_ui_open_visibility(visibility: Visibility) -> (r: bool)
    ensures
        r == (visibility != Visibility::Hidden),
{
    !matches!(visibility, Visibility::Hidden)
}

/// A free, visible cursor while a panel is open; a locked, hidden one otherwise.
pub fn set_inventory_cursor(inventory_open: bool, cursor: &mut CursorOptions)
    ensures
        inventory_open ==> final(cursor).grab_mode == CursorGrabMode::Free && final(cursor).visible,
        !inventory_open ==> final(cursor).grab_mode == CursorGrabMode::Locked && !final(cursor).visible,
{
    if inventory_open {
        cursor.grab_mode = CursorGrabMode::Free;
        cursor.visible = true;
    } else {
        cursor.grab_mode = CursorGrabMode::Locked;
        cursor.visible = false;
    }
}

/// The window cursor in game: free and visible while the UI blocks game
/// input, locked and hidden otherwise. `blocks_game_input` is the interaction
/// state's blocking flag, read after the panels were reconciled (see
/// `sync_ingame_ui_interaction_state`).
pub fn set_game_input_cursor(blocks_game_input: bool, cursor: &mut CursorOptions)
    ensures
        final(cursor).visible == blocks_game_input,
        final(cursor).grab_mode == if blocks_game_input {
            CursorGrabMode::Free
        } else {
            CursorGrabMode::Locked
        },
{
    if blocks_game_input {
        cursor.grab_mode = CursorGrabMode::Free;
        cursor.visible = true;
    } else {
        cursor.grab_mode = CursorGrabMode::Locked;
        cursor.visible = false;
    }
}

/// Entering the main menu: the menu counts as open and the cursor is free.
pub fn set_menu_cursor(ui_interaction: &mut UiInteractionState, cursor: &mut CursorOptions)
    ensures
        final(ui_interaction).menu_open,
        final(ui_interaction).chat_open == old(ui_interaction).chat_open,
        final(ui_interaction).inventory_open == old(ui_interaction).inventory_open,
        final(ui_interaction).structure_menu_open == old(ui_interaction).structure_menu_open,
        final(ui_interaction).workbench_menu_open == old(ui_interaction).workbench_menu_open,
        final(ui_interaction).chest_menu_open == old(ui_interaction).chest_menu_open,
        final(cursor).grab_mode == CursorGrabMode::Free,
        final(cursor).visible,
{
    ui_interaction.menu_open = true;
    cursor.grab_mode = CursorGrabMode::Free;
    cursor.visible = true;
}

/// Entering the multiplayer screen: the menu counts as open and the cursor is free.
pub fn set_multiplayer_interaction(ui_interaction: &mut UiInteractionState, cursor: &mut CursorOptions)
    ensures
        final(ui_interaction).menu_open,
        final(ui_interaction).chat_open == old(ui_interaction).chat_open,
        final(ui_interaction).inventory_open == old(ui_interaction).inventory_open,
        final(ui_interaction).structure_menu_open == old(ui_interaction).structure_menu_open,
        final(ui_interaction).workbench_menu_open == old(ui_interaction).workbench_menu_open,
        final(ui_interaction).chest_menu_open == old(ui_interaction).chest_menu_open,
        final(cursor).grab_mode == CursorGrabMode::Free,
        final(cursor).visible,
{
    set_menu_cursor(ui_interaction, cursor)
}

/// The open flags of the in-game panels once the panel states and the
/// visibility of their root nodes are reconciled, and the visibility each root
/// gets.
pub struct ResolvedPanels {
    pub pause_open: bool,
    pub inventory_open: bool,
    pub structure_open: bool,
    pub workbench_open: bool,
    pub pause_root: Visibility,
    pub inventory_root: Visibility,
    pub structure_root: Visibility,
    pub workbench_root: Visibility,
}

pub open spec fn shown(open: bool) -> Visibility {
    if open {
        Visibility::Inherited
    } else {
        Visibility::Hidden
    }
}

pub open spec fn root_open(v: Option<Visibility>) -> bool {
    match v {
        Some(x) => x != Visibility::Hidden,
        None => false,
    }
}

fn root_is_open(v: Option<Visibility>) -> (r: bool)
    ensures
        r == root_open(v),
{
    match v {
        Some(x) => is_ui_open_visibility(x),
        None => false,
    }
}

fn shown_if(open: bool) -> (r: Visibility)
    ensures
        r == shown(open),
{
    if open {
        Visibility::Inherited
    } else {
        Visibility::Hidden
    }
}

/// Keeps the panel flags, the UI interaction flags and the root visibilities of
/// the pause menu, inventory, structure menu and workbench consistent: a panel
/// is open when its state says so or its root is visible (the inventory by its
/// state alone); the inventory root also shows the workbench. The window
/// cursor then follows the updated state's game-input blocking, through
/// `set_game_input_cursor`.
pub fn sync_ingame_ui_interaction_state(
    ui_interaction: &mut UiInteractionState,
    pause_menu_open: bool,
    inventory_ui_open: bool,
    structure_menu_open: bool,
    workbench_menu_open: bool,
    pause_root: Option<Visibility>,
    structure_root: Option<Visibility>,
    workbench_root: Option<Visibility>,
) -> (r: ResolvedPanels)
    ensures
        r.pause_open == (pause_menu_open || root_open(pause_root)),
        r.inventory_open == inventory_ui_open,
        r.structure_open == (structure_menu_open || root_open(structure_root)),
        r.workbench_open == (workbench_menu_open || root_open(workbench_root)),
        r.pause_root == shown(r.pause_open),
        r.inventory_root == shown(r.inventory_open || r.workbench_open),
        r.structure_root == shown(r.structure_open),
        r.workbench_root == shown(r.workbench_open),
        final(ui_interaction).menu_open == r.pause_open,
        final(ui_interaction).inventory_open == r.inventory_open,
        final(ui_interaction).structure_menu_open == r.structure_open,
        final(ui_interaction).workbench_menu_open == r.workbench_open,
        final(ui_interaction).chat_open == old(ui_interaction).chat_open,
        final(ui_interaction).chest_menu_open == old(ui_interaction).chest_menu_open,
{
    let pause_open = pause_menu_open || root_is_open(pause_root);
    let inventory_open = inventory_ui_open;
    let structure_open = structure_menu_open || root_is_open(structure_root);
    let workbench_open = workbench_menu_open || root_is_open(workbench_root);
    ui_interaction.menu_open = pause_open;
    ui_interaction.inventory_open = inventory_open;
    ui_interaction.structure_menu_open = structure_open;
    ui_interaction.workbench_menu_open = workbench_open;
    ResolvedPanels {
        pause_open,
        inventory_open,
        structure_open,
        workbench_open,
        pause_root: shown_if(pause_open),
        inventory_root: shown_if(inventory_open || workbench_open),
        structure_root: shown_if(structure_open),
        workbench_root: shown_if(workbench_open),
    }
}

/// The chunk radius the loading screen waits for: the configured range, never
/// negative.
pub fn loading_preload_radius_for_ui(chunk_range: i32) -> (r: i32)
    ensures
        r == if chunk_range < 0 {
            0
        } else {
            chunk_range
        },
{
    if chunk_range < 0 {
        0
    } else {
        chunk_range
    }
}

// ---------------------------------------------------------------------------
// Slot count badges
// ---------------------------------------------------------------------------

/// A slot's count badge: hidden with no text for an empty slot or a zero count,
/// otherwise the count in decimal.
pub fn sync_badge(text: &mut String, visibility: &mut Visibility, count: u16, empty: bool)
    ensures
        empty || count == 0 ==> final(text)@.len() == 0 && *final(visibility) == Visibility::Hidden,
        !(empty || count == 0) ==> final(text)@ == crate::text::decimal_chars(count as nat)
            && *final(visibility) == Visibility::Inherited,
{
    if empty || count == 0 {
        *text = String::new();
        *visibility = Visibility::Hidden;
        return;
    }
    let mut next_text = String::new();
    push_decimal(&mut next_text, count as u64);
    assert(next_text@ =~= crate::text::decimal_chars(count as nat));
    *text = next_text;
    *visibility = Visibility::Inherited;
}

// ---------------------------------------------------------------------------
// Menu buttons
// ---------------------------------------------------------------------------

pub const MAIN_MENU_SINGLE_PLAYER_ID: &'static str = "main-menu-single-player";
pub const MAIN_MENU_MULTI_PLAYER_ID: &'static str = "main-menu-multi-player";
pub const MAIN_MENU_SETTINGS_ID: &'static str = "main-menu-settings";
pub const MAIN_MENU_QUIT_ID: &'static str = "main-menu-quit";

#[derive(Clone, Copy, PartialEq, Eq, Debug, Structural)]
pub enum MainMenuAction {
    SinglePlayer,
    MultiPlayer,
    Settings,
    QuitGame,
}

/// The screen the main menu switches to.
#[derive(Clone, Copy, PartialEq, Eq, Debug, Structural)]
pub enum MenuScreen {
    SinglePlayer,
    MultiPlayer,
}

pub open spec fn main_menu_action_of(id: Seq<char>) -> Option<MainMenuAction> {
    if id == MAIN_MENU_SINGLE_PLAYER_ID@ {
        Some(MainMenuAction::SinglePlayer)
    } else if id == MAIN_MENU_MULTI_PLAYER_ID@ {
        Some(MainMenuAction::MultiPlayer)
    } else if id == MAIN_MENU_SETTINGS_ID@ {
        Some(MainMenuAction::Settings)
    } else if id == MAIN_MENU_QUIT_ID@ {
        Some(MainMenuAction::QuitGame)
    } else {
        None
    }
}

/// Index of the first widget at or after `i` that is checked and whose id
/// names a main-menu action.
pub open spec fn first_action_from(w: Seq<WidgetState>, i: int) -> Option<int>
    decreases w.len() - i,
{
    if i < 0 || i >= w.len() {
        None
    } else if w[i].checked && main_menu_action_of(w[i].css_id@) is Some {
        Some(i)
    } else {
        first_action_from(w, i + 1)
    }
}

/// The action a click on the main menu triggers, if any.
pub open spec fn clicked_main_menu_action(w: Seq<WidgetState>) -> Option<MainMenuAction> {
    match first_action_from(w, 0) {
        Some(k) => main_menu_action_of(w[k].css_id@),
        None => None,
    }
}

/// The widget states after a click was consumed: every checked widget up to
/// and including the one that named the action (all of them if none did) is
/// unchecked.
pub open spec fn consumed_main_menu(w: Seq<WidgetState>) -> Seq<WidgetState> {
    match first_action_from(w, 0) {
        Some(k) => unchecked_upto(w, k + 1),
        None => unchecked_upto(w, w.len() as int),
    }
}

/// The widget states after checked widgets `0..i` were visited and their
/// `checked` flag cleared, the visit stopping at the first that names an action.
pub open spec fn unchecked_upto(w: Seq<WidgetState>, i: int) -> Seq<WidgetState> {
    Seq::new(
        w.len(),
        |k: int|
            if k < i {
                WidgetState { checked: false, ..w[k] }
            } else {
                w[k]
            },
    )
}

fn main_menu_action_for(id: &str) -> (r: Option<MainMenuAction>)
    ensures
        r == main_menu_action_of(id@),
{
    if text_equals(id, MAIN_MENU_SINGLE_PLAYER_ID) {
        Some(MainMenuAction::SinglePlayer)
    } else if text_equals(id, MAIN_MENU_MULTI_PLAYER_ID) {
        Some(MainMenuAction::MultiPlayer)
    } else if text_equals(id, MAIN_MENU_SETTINGS_ID) {
        Some(MainMenuAction::Settings)
    } else if text_equals(id, MAIN_MENU_QUIT_ID) {
        Some(MainMenuAction::QuitGame)
    } else {
        None
    }
}

/// The first checked main-menu button that names an action; every checked
/// button visited on the way, and that one, is unchecked.
pub fn consume_main_menu_action(widgets: &mut Vec<WidgetState>) -> (r: Option<MainMenuAction>)
    ensures
        r == clicked_main_menu_action(old(widgets)@),
        final(widgets)@ == consumed_main_menu(old(widgets)@),
{
    let ghost w0 = widgets@;
    let mut i: usize = 0;
    while i < widgets.len()
        invariant
            w0 == old(widgets)@,
            widgets@.len() == w0.len(),
            i <= w0.len(),
            widgets@ =~= unchecked_upto(w0, i as int),
            first_action_from(w0, 0) == first_action_from(w0, i as int),
        decreases widgets.len() - i,
    {
        if widgets[i].checked {
            let w = WidgetState {
                css_id: widgets[i].css_id.clone(),
                hovered: widgets[i].hovered,
                checked: false,
                focused: widgets[i].focused,
            };
            let action = main_menu_action_for(w.css_id.as_str());
            widgets.set(i, w);
            assert(widgets@ =~= unchecked_upto(w0, i + 1));
            if action.is_some() {
                return action;
            }
        } else {
            assert(unchecked_upto(w0, i as int) =~= unchecked_upto(w0, i + 1));
        }
        i = i + 1;
    }
    None
}

/// Where a main-menu action leads: single player and multiplayer switch
/// screens; settings and quit are not implemented and lead nowhere.
pub open spec fn screen_for(a: Option<MainMenuAction>) -> Option<MenuScreen> {
    match a {
        Some(MainMenuAction::SinglePlayer) => Some(MenuScreen::SinglePlayer),
        Some(MainMenuAction::MultiPlayer) => Some(MenuScreen::MultiPlayer),
        _ => None,
    }
}

/// Main menu clicks: the screen to switch to, if the click names one.
pub fn handle_main_menu_buttons(widgets: &mut Vec<WidgetState>) -> (r: Option<MenuScreen>)
    ensures
        r == screen_for(clicked_main_menu_action(old(widgets)@)),
        final(widgets)@ == consumed_main_menu(old(widgets)@),
{
    match consume_main_menu_action(widgets) {
        Some(MainMenuAction::SinglePlayer) => Some(MenuScreen::SinglePlayer),
        Some(MainMenuAction::MultiPlayer) => Some(MenuScreen::MultiPlayer),
        _ => None,
    }
}

// ---------------------------------------------------------------------------
// Debug overlay
// ---------------------------------------------------------------------------

#[derive(Clone, Copy, PartialEq, Eq, Debug, Structural)]
pub enum DebugGridMode {
    Off,
    Chunks,
    AllSubchunks,
}

/// Hiding the main menu closes it for input too; its root is hidden.
pub fn hide_main_menu(ui_interaction: &mut UiInteractionState) -> (r: Visibility)
    ensures
        *final(ui_interaction) == (UiInteractionState { menu_open: false, ..*old(ui_interaction) }),
        r == Visibility::Hidden,
{
    ui_interaction.menu_open = false;
    Visibility::Hidden
}

/// The label of the chunk-grid mode in the debug overlay.
pub fn grid_mode_label(mode: DebugGridMode) -> (r: &'static str)
    ensures
        mode == DebugGridMode::Off ==> r@ == "Off"@,
        mode == DebugGridMode::Chunks ==> r@ == "On"@,
        mode == DebugGridMode::AllSubchunks ==> r@ == "All"@,
{
    match mode {
        DebugGridMode::Off => "Off",
        DebugGridMode::Chunks => "On",
        DebugGridMode::AllSubchunks => "All",
    }
}

/// Sizes of the chunk pipeline's queues, as the debug overlay reads them.
pub struct ChunkQueueSizes {
    pub loaded_chunks: usize,
    pub pending_gen: usize,
    pub pending_mesh: usize,
    pub mesh_backlog: usize,
    pub pending_collider: Option<usize>,
    pub collider_backlog: Option<usize>,
    pub pending_water_load: Option<usize>,
    pub pending_water_mesh: Option<usize>,
    pub water_backlog: Option<usize>,
}

/// The chunk counts shown by the debug overlay.
pub struct ChunkDebugCounts {
    pub loaded_chunks: usize,
    pub queue_chunks: usize,
    pub base_gen_inflight: usize,
    pub base_mesh_inflight: usize,
    pub base_mesh_queue: usize,
    pub collider_inflight: usize,
    pub collider_queue: usize,
    pub water_gen_inflight: usize,
    pub water_mesh_inflight: usize,
    pub water_mesh_queue: usize,
    /// Chunks waiting to be rebuilt after an edit.
    pub dirty_chunks: usize,
    /// Sub-chunks waiting to be rebuilt after an edit.
    pub dirty_subchunks: usize,
}

pub open spec fn ceil_div(a: nat, b: nat) -> nat
    recommends
        b > 0,
{
    if a % b == 0 {
        a / b
    } else {
        a / b + 1
    }
}

pub open spec fn or_zero(v: Option<usize>) -> nat {
    match v {
        Some(x) => x as nat,
        None => 0,
    }
}

fn div_ceil(a: usize, b: usize) -> (r: usize)
    requires
        b > 0,
    ensures
        r as nat == ceil_div(a as nat, b as nat),
{
    let q = a / b;
    if a % b == 0 {
        q
    } else {
        assert(q < a) by (nonlinear_arith)
            requires
                b > 0,
                a % b != 0,
                q == a / b,
        ;
        q + 1
    }
}

fn value_or_zero(v: Option<usize>) -> (r: usize)
    ensures
        r as nat == or_zero(v),
{
    match v {
        Some(x) => x,
        None => 0,
    }
}

/// Sub-chunks per chunk as the overlay counts them: never less than one.
pub open spec fn per_chunk(sub_chunks_per_chunk: usize) -> nat {
    if sub_chunks_per_chunk == 0 {
        1
    } else {
        sub_chunks_per_chunk as nat
    }
}

/// The queue total of the debug overlay: chunk-level queues count as they
/// are, queues of sub-chunk jobs count in whole chunks, rounded up.
pub open spec fn queue_chunk_total(sizes: ChunkQueueSizes, sub_chunks_per_chunk: usize) -> nat {
    let per = per_chunk(sub_chunks_per_chunk);
    sizes.pending_gen as nat + ceil_div(sizes.pending_mesh as nat, per) + ceil_div(
        sizes.mesh_backlog as nat,
        per,
    ) + ceil_div(or_zero(sizes.pending_collider), per) + ceil_div(
        or_zero(sizes.collider_backlog),
        per,
    ) + or_zero(sizes.pending_water_load) + ceil_div(or_zero(sizes.pending_water_mesh), per)
        + ceil_div(or_zero(sizes.water_backlog), per)
}

/// The chunk counts of the debug overlay for the given queue sizes.
pub fn sample_chunk_debug_stats(sizes: &ChunkQueueSizes, sub_chunks_per_chunk: usize) -> (r:
    ChunkDebugCounts)
    requires
        queue_chunk_total(*sizes, sub_chunks_per_chunk) <= usize::MAX,
    ensures
        r.queue_chunks as nat == queue_chunk_total(*sizes, sub_chunks_per_chunk),
        r.loaded_chunks == sizes.loaded_chunks,
        r.base_gen_inflight == sizes.pending_gen,
        r.base_mesh_inflight == sizes.pending_mesh,
        r.base_mesh_queue == sizes.mesh_backlog,
        r.collider_inflight as nat == or_zero(sizes.pending_collider),
        r.collider_queue as nat == or_zero(sizes.collider_backlog),
        r.water_gen_inflight as nat == or_zero(sizes.pending_water_load),
        r.water_mesh_inflight as nat == or_zero(sizes.pending_water_mesh),
        r.water_mesh_queue as nat == or_zero(sizes.water_backlog),
        r.dirty_chunks == 0,
        r.dirty_subchunks == 0,
{
    let per: usize = if sub_chunks_per_chunk == 0 {
        1
    } else {
        sub_chunks_per_chunk
    };
    let a = sizes.pending_gen;
    let b = div_ceil(sizes.pending_mesh, per);
    let c = div_ceil(sizes.mesh_backlog, per);
    let d = div_ceil(value_or_zero(sizes.pending_collider), per);
    let e = div_ceil(value_or_zero(sizes.collider_backlog), per);
    let f = value_or_zero(sizes.pending_water_load);
    let g = div_ceil(value_or_zero(sizes.pending_water_mesh), per);
    let h = div_ceil(value_or_zero(sizes.water_backlog), per);
    let total = a + b + c + d + e + f + g + h;
    ChunkDebugCounts {
        loaded_chunks: sizes.loaded_chunks,
        queue_chunks: total,
        base_gen_inflight: sizes.pending_gen,
        base_mesh_inflight: sizes.pending_mesh,
        base_mesh_queue: sizes.mesh_backlog,
        collider_inflight: value_or_zero(sizes.pending_collider),
        collider_queue: value_or_zero(sizes.collider_backlog),
        water_gen_inflight: value_or_zero(sizes.pending_water_load),
        water_mesh_inflight: value_or_zero(sizes.pending_water_mesh),
        water_mesh_queue: value_or_zero(sizes.water_backlog),
        dirty_chunks: 0,
        dirty_subchunks: 0,
    }
}

/// One sample of the overlay's chunk counts: taken while the overlay is
/// shown (see `sample_chunk_debug_stats`); while it is hidden the counts
/// stay as they were.
pub fn sync_chunk_debug_stats(
    overlay_shown: bool,
    sizes: &ChunkQueueSizes,
    sub_chunks_per_chunk: usize,
    stats: &mut ChunkDebugCounts,
)
    requires
        overlay_shown ==> queue_chunk_total(*sizes, sub_chunks_per_chunk) <= usize::MAX,
    ensures
        !overlay_shown ==> *final(stats) == *old(stats),
        overlay_shown ==> {
            let r = *final(stats);
            &&& r.queue_chunks as nat == queue_chunk_total(*sizes, sub_chunks_per_chunk)
            &&& r.loaded_chunks == sizes.loaded_chunks
            &&& r.base_gen_inflight == sizes.pending_gen
            &&& r.base_mesh_inflight == sizes.pending_mesh
            &&& r.base_mesh_queue == sizes.mesh_backlog
            &&& r.collider_inflight as nat == or_zero(sizes.pending_collider)
            &&& r.collider_queue as nat == or_zero(sizes.collider_backlog)
            &&& r.water_gen_inflight as nat == or_zero(sizes.pending_water_load)
            &&& r.water_mesh_inflight as nat == or_zero(sizes.pending_water_mesh)
            &&& r.water_mesh_queue as nat == or_zero(sizes.water_backlog)
            &&& r.dirty_chunks == 0
            &&& r.dirty_subchunks == 0
        },
{
    if !overlay_shown {
        return;
    }
    *stats = sample_chunk_debug_stats(sizes, sub_chunks_per_chunk);
}

} // verus!
