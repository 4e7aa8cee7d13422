//! Clicks and key presses on the open inventory screens (player inventory,
//! workbench, chest): which action a frame's input triggers, and what that
//! action does to the slots, the cursor stack and the recipe preview.
//!
//! The caller reads the mouse, the keyboard and the panel geometry, hands
//! them over as an `InventoryClickInput`, and performs what the returned
//! action leaves to it: sending a craft request, starting the workbench
//! timer, spawning or sending a dropped stack.
use vstd::prelude::*;
use crate::slots::{InventorySlot, ItemId, empty_slot, decremented, decrement_slot_count};
use crate::inventory::{
    PlayerInventory, HandCraftedState, WorkTableCraftingState, ChestInventoryUiState,
    move_to_first_empty, transfer_player_slot_to_hand_crafted, transfer_player_slot_to_work_table,
    transfer_player_slot_to_chest,
};
use crate::stacking::{
    WorkbenchStorageSide, WorkbenchToolSlotsState, InventoryCursorItemState, grid_slot_to_inventory,
    transfer_hand_crafted_slot_to_inventory, transfer_work_table_slot_to_inventory,
    transfer_chest_slot_to_inventory, transfer_workbench_storage_slot_to_inventory,
};
use crate::targets::{
    InventoryUiSlotTarget, CursorMove, GridsView, grids, target_move, take_all_at,
    take_all_from_target_to_cursor, take_half_from_target_to_cursor, place_one_from_cursor_on_target,
    place_all_from_cursor_on_target,
};
use crate::css_ids::{
    WidgetState, is_button_hovered, hovered_recipe_preview_tab_slot_index, first_hovered_slot_from, lemma_first_hovered_below,
    RECIPE_PREVIEW_TAB_PREFIX, RECIPE_PREVIEW_TABS_PER_PAGE, HAND_CRAFTED_INPUT_SLOTS,
    WORK_TABLE_CRAFTING_INPUT_SLOTS,
};
use crate::recipe_variants::{
    RecipePreviewDialogState, tab_pages, recipe_preview_tab_page_count, select_recipe_preview_variant,
};
use crate::recipe_preview::{RecipePreviewCraftingType, RecipeRegistry};
use crate::recipe_fill::{
    fill_grid_upto, fill_work_table_from_recipe_preview, fill_hand_crafted_from_recipe_preview,
};
use crate::registry::ItemRegistry;
use crate::recipe_dialog::{open_recipe_preview_dialog_for_hovered_item, preview_variants};
use crate::recipe_variants::views_of;
use crate::slots::held;
use crate::inventory::{lemma_transfer_conserves_items, lemma_item_total_update};
use crate::stacking::lemma_grid_slot_to_inventory_conserves;
use crate::targets::{grids_total, lemma_target_move_conserves_items};
use crate::recipe_fill::lemma_fill_conserves_items;

verus! {

pub const INVENTORY_TRASH_BUTTON_ID: &'static str = "inventory-trash-button";
pub const WORKBENCH_TRASH_BUTTON_ID: &'static str = "workbench-trash-button";
pub const CHEST_TRASH_BUTTON_ID: &'static str = "chest-trash-button";
pub const RECIPE_PREVIEW_TAB_PREV_ID: &'static str = "recipe-preview-tab-prev";
pub const RECIPE_PREVIEW_TAB_NEXT_ID: &'static str = "recipe-preview-tab-next";
pub const RECIPE_PREVIEW_FILL_ID: &'static str = "recipe-preview-fill";

/// Everything a click on the inventory screens can change.
pub struct InventoryScreens {
    pub cursor_item: InventoryCursorItemState,
    pub inventory: PlayerInventory,
    pub chest_inventory: ChestInventoryUiState,
    pub hand_crafted: HandCraftedState,
    pub work_table: WorkTableCraftingState,
    pub workbench_tools: WorkbenchToolSlotsState,
    pub recipe_preview: RecipePreviewDialogState,
}

/// One frame's input to the inventory screens.
#[derive(Clone, Copy)]
pub struct InventoryClickInput {
    pub inventory_open: bool,
    pub workbench_open: bool,
    pub chest_open: bool,
    /// The left, middle and right mouse buttons went down this frame.
    pub left_clicked: bool,
    pub middle_clicked: bool,
    pub right_clicked: bool,
    pub shift_held: bool,
    /// The configured recipe-preview key and drop key went down this frame.
    pub recipe_key_pressed: bool,
    pub drop_key_pressed: bool,
    pub spectator: bool,
    /// The slot under the mouse, as `sync_inventory_slot_hover_border` found it.
    pub hovered_slot: Option<InventoryUiSlotTarget>,
    /// The item under the mouse, as `hovered_item_id` found it.
    pub hovered_item: Option<ItemId>,
    /// Whether the mouse is inside each panel.
    pub cursor_in_recipe_preview: bool,
    pub cursor_in_inventory: bool,
    pub cursor_in_drop_zone: bool,
    pub cursor_in_workbench: bool,
    pub cursor_in_chest: bool,
    /// The recipe the work-table grid currently makes, if any: `Some(true)`
    /// when it takes no time to build.
    pub workbench_recipe: Option<bool>,
    /// Whether there is a player to drop items from.
    pub player_present: bool,
}

/// What a frame's input did.
#[derive(Clone, Copy, PartialEq, Eq, Debug, Structural)]
pub enum InventoryClickAction {
    Ignored,
    TrashCursor,
    PreviewTabPrev,
    PreviewTabNext,
    PreviewSelectTab(usize),
    PreviewFillWorkTable,
    PreviewFillHandCrafted,
    PreviewClose,
    PreviewOpenForItem(ItemId),
    ShiftTransfer(InventoryUiSlotTarget),
    /// The caller sends a hand-crafting request.
    CraftHandCrafted,
    /// The caller sends a work-table crafting request.
    CraftWorkTable,
    /// The caller starts the workbench's build timer.
    StartWorkbenchCraft,
    CursorMove(InventoryUiSlotTarget, CursorMove),
    /// The cursor stack was dropped; the caller spawns or sends it.
    DropCursorStack(InventorySlot),
    /// One item of a player slot was dropped; the caller spawns or sends it.
    DropOneFromSlot(usize, ItemId),
}

/// The action, and whether the workbench's build progress is to be reset.
pub struct InventoryClickOutcome {
    pub action: InventoryClickAction,
    pub reset_craft_progress: bool,
}

pub open spec fn button_hovered(buttons: Seq<WidgetState>, id: Seq<char>) -> bool {
    exists|k: int| 0 <= k < buttons.len() && #[trigger] buttons[k].css_id@ == id && buttons[k].hovered
}

pub open spec fn trash_hovered(buttons: Seq<WidgetState>) -> bool {
    ||| button_hovered(buttons, INVENTORY_TRASH_BUTTON_ID@)
    ||| button_hovered(buttons, WORKBENCH_TRASH_BUTTON_ID@)
    ||| button_hovered(buttons, CHEST_TRASH_BUTTON_ID@)
}

/// The variant a hovered preview tab stands for, if the tab shows one.
pub open spec fn hovered_tab_variant(buttons: Seq<WidgetState>, p: RecipePreviewDialogState) -> Option<
    usize,
> {
    match first_hovered_slot_from(
        buttons,
        RECIPE_PREVIEW_TAB_PREFIX@,
        RECIPE_PREVIEW_TABS_PER_PAGE as nat,
        0,
    ) {
        Some(t) => {
            let v = p.tab_page * RECIPE_PREVIEW_TABS_PER_PAGE + t;
            if v < p.variants@.len() {
                Some(v as usize)
            } else {
                None
            }
        },
        None => None,
    }
}

/// A left click while the recipe preview is open: the preview action it
/// triggers, or `None` when the click goes on to the slots.
pub open spec fn preview_click_action(
    i: InventoryClickInput,
    buttons: Seq<WidgetState>,
    p: RecipePreviewDialogState,
) -> Option<InventoryClickAction> {
    if button_hovered(buttons, RECIPE_PREVIEW_TAB_PREV_ID@) && p.tab_page > 0 {
        Some(InventoryClickAction::PreviewTabPrev)
    } else if button_hovered(buttons, RECIPE_PREVIEW_TAB_NEXT_ID@) && p.tab_page + 1 < tab_pages(
        p.variants@.len(),
    ) {
        Some(InventoryClickAction::PreviewTabNext)
    } else if hovered_tab_variant(buttons, p) is Some {
        Some(InventoryClickAction::PreviewSelectTab(hovered_tab_variant(buttons, p)->0))
    } else if button_hovered(buttons, RECIPE_PREVIEW_FILL_ID@) && i.workbench_open {
        Some(InventoryClickAction::PreviewFillWorkTable)
    } else if button_hovered(buttons, RECIPE_PREVIEW_FILL_ID@) && p.crafting_type == Some(
        RecipePreviewCraftingType::HandCrafted,
    ) {
        Some(InventoryClickAction::PreviewFillHandCrafted)
    } else if !i.cursor_in_recipe_preview {
        Some(InventoryClickAction::PreviewClose)
    } else {
        None
    }
}

pub open spec fn screens_grids(s: InventoryScreens) -> GridsView {
    grids(s.inventory, s.chest_inventory, s.hand_crafted, s.work_table, s.workbench_tools)
}

/// The dialog with only its `open` flag changed.
pub open spec fn closed_preview(p: RecipePreviewDialogState) -> RecipePreviewDialogState {
    RecipePreviewDialogState { open: false, ..p }
}

/// The effect of a preview action on the screens.
pub open spec fn preview_effect(
    a: InventoryClickAction,
    old_s: InventoryScreens,
    new_s: InventoryScreens,
    reg: ItemRegistry,
    inventory_stack_max: u16,
) -> bool {
    let g = screens_grids(old_s);
    let g2 = screens_grids(new_s);
    let p = old_s.recipe_preview;
    let q = new_s.recipe_preview;
    &&& new_s.cursor_item.slot == old_s.cursor_item.slot
    &&& match a {
        InventoryClickAction::PreviewTabPrev => g2 == g && q == RecipePreviewDialogState {
            tab_page: (p.tab_page - 1) as usize,
            ..p
        },
        InventoryClickAction::PreviewTabNext => g2 == g && q == RecipePreviewDialogState {
            tab_page: (p.tab_page + 1) as usize,
            ..p
        },
        InventoryClickAction::PreviewSelectTab(v) => {
            &&& g2 == g
            &&& q.selected_variant_index == v
            &&& q.tab_page == v / RECIPE_PREVIEW_TABS_PER_PAGE
            &&& q.shows_variant(v as int)
            &&& q.variants == p.variants
            &&& q.open == p.open
        },
        InventoryClickAction::PreviewFillWorkTable => {
            &&& (g2.work_table, g2.player) == fill_grid_upto(
                p,
                g.work_table,
                g.player,
                reg,
                inventory_stack_max,
                WORK_TABLE_CRAFTING_INPUT_SLOTS as int,
            )
            &&& g2 == GridsView { work_table: g2.work_table, player: g2.player, ..g }
            &&& q == closed_preview(p)
        },
        InventoryClickAction::PreviewFillHandCrafted => {
            &&& (g2.hand_crafted, g2.player) == fill_grid_upto(
                p,
                g.hand_crafted,
                g.player,
                reg,
                inventory_stack_max,
                HAND_CRAFTED_INPUT_SLOTS as int,
            )
            &&& g2 == GridsView { hand_crafted: g2.hand_crafted, player: g2.player, ..g }
            &&& q == closed_preview(p)
        },
        InventoryClickAction::PreviewClose => g2 == g && q == closed_preview(p),
        _ => false,
    }
}

fn preview_click(
    s: &mut InventoryScreens,
    input: InventoryClickInput,
    buttons: &Vec<WidgetState>,
    item_registry: &ItemRegistry,
    inventory_stack_max: u16,
) -> (r: Option<InventoryClickAction>)
    requires
        old(s).recipe_preview.wf(),
    ensures
        r == preview_click_action(input, buttons@, old(s).recipe_preview),
        r is None ==> *final(s) == *old(s),
        r is Some ==> preview_effect(r->0, *old(s), *final(s), *item_registry, inventory_stack_max),
        final(s).recipe_preview.wf(),
{
    if is_button_hovered(buttons, RECIPE_PREVIEW_TAB_PREV_ID) && s.recipe_preview.tab_page > 0 {
        s.recipe_preview.tab_page = s.recipe_preview.tab_page - 1;
        return Some(InventoryClickAction::PreviewTabPrev);
    }
    if is_button_hovered(buttons, RECIPE_PREVIEW_TAB_NEXT_ID) {
        let page_count = recipe_preview_tab_page_count(&s.recipe_preview);
        if page_count > 0 && s.recipe_preview.tab_page < page_count - 1 {
            s.recipe_preview.tab_page = s.recipe_preview.tab_page + 1;
            return Some(InventoryClickAction::PreviewTabNext);
        }
    }
    proof {
        lemma_first_hovered_below(
            buttons@,
            RECIPE_PREVIEW_TAB_PREFIX@,
            RECIPE_PREVIEW_TABS_PER_PAGE as nat,
            0,
        );
    }
    if let Some(tab_slot_index) = hovered_recipe_preview_tab_slot_index(buttons) {
        let variant_count = s.recipe_preview.variants.len();
        if let Some(base) = s.recipe_preview.tab_page.checked_mul(RECIPE_PREVIEW_TABS_PER_PAGE) {
            if let Some(variant_index) = base.checked_add(tab_slot_index) {
                if variant_index < variant_count && select_recipe_preview_variant(&mut s.recipe_preview, variant_index) {
                    return Some(InventoryClickAction::PreviewSelectTab(variant_index));
                }
            }
        }
    }
    if is_button_hovered(buttons, RECIPE_PREVIEW_FILL_ID) {
        if input.workbench_open {
            fill_work_table_from_recipe_preview(
                &s.recipe_preview,
                &mut s.inventory,
                &mut s.work_table,
                item_registry,
                inventory_stack_max,
            );
            s.recipe_preview.open = false;
            return Some(InventoryClickAction::PreviewFillWorkTable);
        }
        let hand_crafted_recipe = match s.recipe_preview.crafting_type {
            Some(RecipePreviewCraftingType::HandCrafted) => true,
            _ => false,
        };
        if hand_crafted_recipe {
            fill_hand_crafted_from_recipe_preview(
                &s.recipe_preview,
                &mut s.inventory,
                &mut s.hand_crafted,
                item_registry,
                inventory_stack_max,
            );
            s.recipe_preview.open = false;
            return Some(InventoryClickAction::PreviewFillHandCrafted);
        }
    }
    if !input.cursor_in_recipe_preview {
        s.recipe_preview.open = false;
        return Some(InventoryClickAction::PreviewClose);
    }
    None
}

/// The targets a shift-click sends somewhere.
pub open spec fn is_shift_target(t: InventoryUiSlotTarget) -> bool {
    match t {
        InventoryUiSlotTarget::Player(_) => true,
        InventoryUiSlotTarget::Chest(_) => true,
        InventoryUiSlotTarget::WorkbenchStorage(_, _) => true,
        InventoryUiSlotTarget::HandCrafted(_) => true,
        InventoryUiSlotTarget::WorkTable(_) => true,
        _ => false,
    }
}

/// A shift-click on `t` with an empty cursor: whether anything moved, and
/// the grids after it. A player slot goes to the first empty slot of the
/// open chest, else of the open workbench's grid, else of the hand-crafting
/// grid; any other slot's stack goes into the inventory.
pub open spec fn shift_transfer(
    t: InventoryUiSlotTarget,
    g: GridsView,
    workbench_open: bool,
    chest_open: bool,
    reg: ItemRegistry,
    inventory_stack_max: u16,
) -> (bool, GridsView) {
    match t {
        InventoryUiSlotTarget::Player(k) => if chest_open {
            let o = move_to_first_empty(g.player, k as int, g.chest);
            (o.0, GridsView { player: o.1, chest: o.2, ..g })
        } else if workbench_open {
            let o = move_to_first_empty(g.player, k as int, g.work_table);
            (o.0, GridsView { player: o.1, work_table: o.2, ..g })
        } else {
            let o = move_to_first_empty(g.player, k as int, g.hand_crafted);
            (o.0, GridsView { player: o.1, hand_crafted: o.2, ..g })
        },
        InventoryUiSlotTarget::Chest(k) => {
            let o = grid_slot_to_inventory(g.chest, k as int, g.player, reg, inventory_stack_max);
            (o.0, GridsView { chest: o.1, player: o.2, ..g })
        },
        InventoryUiSlotTarget::WorkbenchStorage(WorkbenchStorageSide::Left, k) => {
            let o = grid_slot_to_inventory(g.storage_left, k as int, g.player, reg, inventory_stack_max);
            (o.0, GridsView { storage_left: o.1, player: o.2, ..g })
        },
        InventoryUiSlotTarget::WorkbenchStorage(WorkbenchStorageSide::Right, k) => {
            let o = grid_slot_to_inventory(
                g.storage_right,
                k as int,
                g.player,
                reg,
                inventory_stack_max,
            );
            (o.0, GridsView { storage_right: o.1, player: o.2, ..g })
        },
        InventoryUiSlotTarget::HandCrafted(k) => {
            let o = grid_slot_to_inventory(g.hand_crafted, k as int, g.player, reg, inventory_stack_max);
            (o.0, GridsView { hand_crafted: o.1, player: o.2, ..g })
        },
        InventoryUiSlotTarget::WorkTable(k) => {
            let o = grid_slot_to_inventory(g.work_table, k as int, g.player, reg, inventory_stack_max);
            (o.0, GridsView { work_table: o.1, player: o.2, ..g })
        },
        _ => (false, g),
    }
}

/// Whether a shift-click on `t` that moved something changes the work-table grid.
pub open spec fn shift_touches_work_table(
    t: InventoryUiSlotTarget,
    workbench_open: bool,
    chest_open: bool,
) -> bool {
    match t {
        InventoryUiSlotTarget::WorkTable(_) => true,
        InventoryUiSlotTarget::Player(_) => !chest_open && workbench_open,
        _ => false,
    }
}

/// A cursor move on `t`: whether it happened, the grids and the cursor after it.
pub open spec fn cursor_move(
    g: GridsView,
    cursor: InventorySlot,
    t: InventoryUiSlotTarget,
    m: CursorMove,
    reg: ItemRegistry,
    inventory_stack_max: u16,
) -> (bool, GridsView, InventorySlot) {
    match m {
        CursorMove::TakeAll => take_all_at(g, cursor, t),
        _ => target_move(g, cursor, t, m, reg, inventory_stack_max),
    }
}

fn shift_click(
    s: &mut InventoryScreens,
    t: InventoryUiSlotTarget,
    workbench_open: bool,
    chest_open: bool,
    item_registry: &ItemRegistry,
    inventory_stack_max: u16,
) -> (r: bool)
    requires
        is_shift_target(t),
    ensures
        (r, screens_grids(*final(s))) == shift_transfer(
            t,
            screens_grids(*old(s)),
            workbench_open,
            chest_open,
            *item_registry,
            inventory_stack_max,
        ),
        final(s).cursor_item == old(s).cursor_item,
        final(s).recipe_preview == old(s).recipe_preview,
{
    match t {
        InventoryUiSlotTarget::Player(k) => if chest_open {
            transfer_player_slot_to_chest(k, &mut s.inventory, &mut s.chest_inventory)
        } else if workbench_open {
            transfer_player_slot_to_work_table(k, &mut s.inventory, &mut s.work_table)
        } else {
            transfer_player_slot_to_hand_crafted(k, &mut s.inventory, &mut s.hand_crafted)
        },
        InventoryUiSlotTarget::Chest(k) => transfer_chest_slot_to_inventory(
            k,
            &mut s.chest_inventory,
            &mut s.inventory,
            item_registry,
            inventory_stack_max,
        ),
        InventoryUiSlotTarget::WorkbenchStorage(side, k) => transfer_workbench_storage_slot_to_inventory(
            side,
            k,
            &mut s.chest_inventory,
            &mut s.inventory,
            item_registry,
            inventory_stack_max,
        ),
        InventoryUiSlotTarget::HandCrafted(k) => transfer_hand_crafted_slot_to_inventory(
            k,
            &mut s.hand_crafted,
            &mut s.inventory,
            item_registry,
            inventory_stack_max,
        ),
        InventoryUiSlotTarget::WorkTable(k) => transfer_work_table_slot_to_inventory(
            k,
            &mut s.work_table,
            &mut s.inventory,
            item_registry,
            inventory_stack_max,
        ),
        _ => false,
    }
}

fn cursor_click(
    s: &mut InventoryScreens,
    t: InventoryUiSlotTarget,
    m: CursorMove,
    item_registry: &ItemRegistry,
    inventory_stack_max: u16,
) -> (r: bool)
    ensures
        (r, screens_grids(*final(s)), final(s).cursor_item.slot) == cursor_move(
            screens_grids(*old(s)),
            old(s).cursor_item.slot,
            t,
            m,
            *item_registry,
            inventory_stack_max,
        ),
        final(s).recipe_preview == old(s).recipe_preview,
{
    match m {
        CursorMove::TakeAll => take_all_from_target_to_cursor(
            t,
            &mut s.cursor_item,
            &mut s.inventory,
            &mut s.chest_inventory,
            &mut s.hand_crafted,
            &mut s.work_table,
            &mut s.workbench_tools,
        ),
        CursorMove::TakeHalf => take_half_from_target_to_cursor(
            t,
            &mut s.cursor_item,
            &mut s.inventory,
            &mut s.chest_inventory,
            &mut s.hand_crafted,
            &mut s.work_table,
            &mut s.workbench_tools,
            item_registry,
            inventory_stack_max,
        ),
        CursorMove::PlaceOne => place_one_from_cursor_on_target(
            t,
            &mut s.cursor_item,
            &mut s.inventory,
            &mut s.chest_inventory,
            &mut s.hand_crafted,
            &mut s.work_table,
            &mut s.workbench_tools,
            item_registry,
            inventory_stack_max,
        ),
        CursorMove::PlaceAll => place_all_from_cursor_on_target(
            t,
            &mut s.cursor_item,
            &mut s.inventory,
            &mut s.chest_inventory,
            &mut s.hand_crafted,
            &mut s.work_table,
            &mut s.workbench_tools,
            item_registry,
            inventory_stack_max,
        ),
    }
}

/// Whether a left click outside every slot drops the cursor stack: not
/// inside the workbench or chest panel, not inside the inventory panel
/// unless on its drop zone, not in spectator mode, with a player present.
pub open spec fn drop_allowed(i: InventoryClickInput) -> bool {
    &&& !i.cursor_in_workbench
    &&& !i.cursor_in_chest
    &&& !(i.cursor_in_inventory && !i.cursor_in_drop_zone)
    &&& !i.spectator
    &&& i.player_present
}

/// The action a frame's input triggers, in the order the screens check them:
/// trash buttons, the open recipe preview, the recipe key, shift-clicks,
/// the result slots, middle, right and left clicks on a slot, a left click
/// outside the slots, the drop key.
pub open spec fn click_action(
    i: InventoryClickInput,
    buttons: Seq<WidgetState>,
    s: InventoryScreens,
    has_recipes: bool,
) -> InventoryClickAction {
    let cursor_empty = s.cursor_item.slot.spec_is_empty();
    let h = i.hovered_slot;
    if !(i.inventory_open || i.workbench_open || i.chest_open) {
        InventoryClickAction::Ignored
    } else if i.left_clicked && trash_hovered(buttons) {
        InventoryClickAction::TrashCursor
    } else if i.left_clicked && s.recipe_preview.open && preview_click_action(
        i,
        buttons,
        s.recipe_preview,
    ) is Some {
        preview_click_action(i, buttons, s.recipe_preview)->0
    } else if i.recipe_key_pressed {
        match i.hovered_item {
            Some(id) => if has_recipes {
                InventoryClickAction::PreviewOpenForItem(id)
            } else {
                InventoryClickAction::Ignored
            },
            None => InventoryClickAction::Ignored,
        }
    } else if i.shift_held && i.left_clicked && cursor_empty && (h matches Some(t) && is_shift_target(
        t,
    )) {
        InventoryClickAction::ShiftTransfer(h->0)
    } else if i.left_clicked && !i.spectator && h == Some(InventoryUiSlotTarget::HandCraftedResult) {
        InventoryClickAction::CraftHandCrafted
    } else if i.left_clicked && !i.spectator && h == Some(InventoryUiSlotTarget::WorkbenchResult) {
        match i.workbench_recipe {
            Some(true) => InventoryClickAction::CraftWorkTable,
            Some(false) => InventoryClickAction::StartWorkbenchCraft,
            None => InventoryClickAction::Ignored,
        }
    } else if i.middle_clicked && h is Some {
        InventoryClickAction::CursorMove(h->0, CursorMove::TakeHalf)
    } else if i.right_clicked && h is Some {
        if cursor_empty {
            InventoryClickAction::Ignored
        } else {
            InventoryClickAction::CursorMove(h->0, CursorMove::PlaceOne)
        }
    } else if i.left_clicked && h is Some {
        if cursor_empty {
            InventoryClickAction::CursorMove(h->0, CursorMove::TakeAll)
        } else {
            InventoryClickAction::CursorMove(h->0, CursorMove::PlaceAll)
        }
    } else if i.left_clicked && !cursor_empty {
        if drop_allowed(i) {
            InventoryClickAction::DropCursorStack(s.cursor_item.slot)
        } else {
            InventoryClickAction::Ignored
        }
    } else if i.drop_key_pressed {
        match h {
            Some(InventoryUiSlotTarget::Player(k)) => if k < s.inventory.slots@.len() && !i.spectator
                && !s.inventory.slots@[k as int].spec_is_empty() && i.player_present {
                InventoryClickAction::DropOneFromSlot(k, s.inventory.slots@[k as int].item_id)
            } else {
                InventoryClickAction::Ignored
            },
            _ => InventoryClickAction::Ignored,
        }
    } else {
        InventoryClickAction::Ignored
    }
}

/// What an action other than opening the preview does to the screens.
pub open spec fn click_effect(
    a: InventoryClickAction,
    i: InventoryClickInput,
    old_s: InventoryScreens,
    new_s: InventoryScreens,
    reg: ItemRegistry,
    inventory_stack_max: u16,
) -> bool {
    let g = screens_grids(old_s);
    let g2 = screens_grids(new_s);
    let c = old_s.cursor_item.slot;
    let c2 = new_s.cursor_item.slot;
    match a {
        InventoryClickAction::Ignored => new_s == old_s,
        InventoryClickAction::CraftHandCrafted => new_s == old_s,
        InventoryClickAction::CraftWorkTable => new_s == old_s,
        InventoryClickAction::StartWorkbenchCraft => new_s == old_s,
        InventoryClickAction::TrashCursor => {
            &&& c2 == if c.spec_is_empty() {
                c
            } else {
                empty_slot()
            }
            &&& g2 == g
            &&& new_s.recipe_preview == old_s.recipe_preview
        },
        InventoryClickAction::PreviewOpenForItem(_) => g2 == g && c2 == c,
        InventoryClickAction::ShiftTransfer(t) => {
            &&& g2 == shift_transfer(t, g, i.workbench_open, i.chest_open, reg, inventory_stack_max).1
            &&& c2 == c
            &&& new_s.recipe_preview == old_s.recipe_preview
        },
        InventoryClickAction::CursorMove(t, m) => {
            let o = cursor_move(g, c, t, m, reg, inventory_stack_max);
            &&& g2 == o.1
            &&& c2 == o.2
            &&& new_s.recipe_preview == old_s.recipe_preview
        },
        InventoryClickAction::DropCursorStack(_) => {
            &&& c2 == empty_slot()
            &&& g2 == g
            &&& new_s.recipe_preview == old_s.recipe_preview
        },
        InventoryClickAction::DropOneFromSlot(k, _) => {
            &&& g2 == GridsView { player: g.player.update(k as int, decremented(g.player[k as int])), ..g }
            &&& c2 == c
            &&& new_s.recipe_preview == old_s.recipe_preview
        },
        _ => preview_effect(a, old_s, new_s, reg, inventory_stack_max),
    }
}

/// Whether the action changed the work-table grid, so that a running
/// workbench build starts over.
pub open spec fn resets_craft_progress(
    a: InventoryClickAction,
    i: InventoryClickInput,
    s: InventoryScreens,
    reg: ItemRegistry,
    inventory_stack_max: u16,
) -> bool {
    let g = screens_grids(s);
    match a {
        InventoryClickAction::PreviewFillWorkTable => true,
        InventoryClickAction::CraftWorkTable => true,
        InventoryClickAction::ShiftTransfer(t) => shift_transfer(
            t,
            g,
            i.workbench_open,
            i.chest_open,
            reg,
            inventory_stack_max,
        ).0 && shift_touches_work_table(t, i.workbench_open, i.chest_open),
        InventoryClickAction::CursorMove(t, m) => cursor_move(
            g,
            s.cursor_item.slot,
            t,
            m,
            reg,
            inventory_stack_max,
        ).0 && t is WorkTable,
        _ => false,
    }
}

/// Handles one frame of mouse and key input on the open inventory screens:
/// decides the action (see `click_action`), applies it to the screens (see
/// `click_effect`), and says whether the workbench's build progress starts over.
pub fn handle_inventory_drag_and_drop(
    s: &mut InventoryScreens,
    input: InventoryClickInput,
    buttons: &Vec<WidgetState>,
    recipe_registry: Option<&RecipeRegistry>,
    item_registry: &ItemRegistry,
    inventory_stack_max: u16,
) -> (r: InventoryClickOutcome)
    requires
        item_registry.wf(),
        old(s).recipe_preview.wf(),
    ensures
        r.action == click_action(input, buttons@, *old(s), recipe_registry is Some),
        click_effect(r.action, input, *old(s), *final(s), *item_registry, inventory_stack_max),
        r.reset_craft_progress == resets_craft_progress(
            r.action,
            input,
            *old(s),
            *item_registry,
            inventory_stack_max,
        ),
        r.action matches InventoryClickAction::PreviewOpenForItem(id) ==> ({
            let rr = recipe_registry->0;
            let found = preview_variants(rr.recipes@, id, *item_registry).len() > 0;
            let p = final(s).recipe_preview;
            &&& found ==> p.open && views_of(p.variants@) == preview_variants(
                rr.recipes@,
                id,
                *item_registry,
            ) && p.selected_variant_index == 0 && p.tab_page == 0 && p.shows_selection()
            &&& !found ==> !p.open && p.variants@.len() == 0 && p.shows_nothing()
        }),
        final(s).recipe_preview.wf(),
{
    let ignored = InventoryClickOutcome { action: InventoryClickAction::Ignored, reset_craft_progress: false };
    if !(input.inventory_open || input.workbench_open || input.chest_open) {
        return ignored;
    }
    if input.left_clicked && (is_button_hovered(buttons, INVENTORY_TRASH_BUTTON_ID)
        || is_button_hovered(buttons, WORKBENCH_TRASH_BUTTON_ID) || is_button_hovered(
        buttons,
        CHEST_TRASH_BUTTON_ID,
    )) {
        if !s.cursor_item.slot.is_empty() {
            s.cursor_item.slot = InventorySlot::empty();
        }
        return InventoryClickOutcome {
            action: InventoryClickAction::TrashCursor,
            reset_craft_progress: false,
        };
    }
    if input.left_clicked && s.recipe_preview.open {
        if let Some(action) = preview_click(s, input, buttons, item_registry, inventory_stack_max) {
            let reset = match action {
                InventoryClickAction::PreviewFillWorkTable => true,
                _ => false,
            };
            return InventoryClickOutcome { action, reset_craft_progress: reset };
        }
    }
    if input.recipe_key_pressed {
        let Some(recipes) = recipe_registry else {
            return ignored;
        };
        let Some(item_id) = input.hovered_item else {
            return ignored;
        };
        let _ = open_recipe_preview_dialog_for_hovered_item(
            item_id,
            recipes,
            item_registry,
            &mut s.recipe_preview,
        );
        return InventoryClickOutcome {
            action: InventoryClickAction::PreviewOpenForItem(item_id),
            reset_craft_progress: false,
        };
    }
    let cursor_empty = s.cursor_item.slot.is_empty();
    if input.shift_held && input.left_clicked && cursor_empty {
        let shift_target = match input.hovered_slot {
            Some(InventoryUiSlotTarget::Player(_)) => true,
            Some(InventoryUiSlotTarget::Chest(_)) => true,
            Some(InventoryUiSlotTarget::WorkbenchStorage(_, _)) => true,
            Some(InventoryUiSlotTarget::HandCrafted(_)) => true,
            Some(InventoryUiSlotTarget::WorkTable(_)) => true,
            _ => false,
        };
        if shift_target {
            let t = input.hovered_slot.unwrap();
            let moved = shift_click(
                s,
                t,
                input.workbench_open,
                input.chest_open,
                item_registry,
                inventory_stack_max,
            );
            let touches = match t {
                InventoryUiSlotTarget::WorkTable(_) => true,
                InventoryUiSlotTarget::Player(_) => !input.chest_open && input.workbench_open,
                _ => false,
            };
            return InventoryClickOutcome {
                action: InventoryClickAction::ShiftTransfer(t),
                reset_craft_progress: moved && touches,
            };
        }
    }
    if input.left_clicked && !input.spectator {
        match input.hovered_slot {
            Some(InventoryUiSlotTarget::HandCraftedResult) => {
                return InventoryClickOutcome {
                    action: InventoryClickAction::CraftHandCrafted,
                    reset_craft_progress: false,
                };
            },
            Some(InventoryUiSlotTarget::WorkbenchResult) => {
                return match input.workbench_recipe {
                    Some(true) => InventoryClickOutcome {
                        action: InventoryClickAction::CraftWorkTable,
                        reset_craft_progress: true,
                    },
                    Some(false) => InventoryClickOutcome {
                        action: InventoryClickAction::StartWorkbenchCraft,
                        reset_craft_progress: false,
                    },
                    None => ignored,
                };
            },
            _ => {},
        }
    }
    if let Some(t) = input.hovered_slot {
        let m = if input.middle_clicked {
            Some(CursorMove::TakeHalf)
        } else if input.right_clicked {
            if cursor_empty {
                return ignored;
            }
            Some(CursorMove::PlaceOne)
        } else if input.left_clicked {
            if cursor_empty {
                Some(CursorMove::TakeAll)
            } else {
                Some(CursorMove::PlaceAll)
            }
        } else {
            None
        };
        if let Some(m) = m {
            let moved = cursor_click(s, t, m, item_registry, inventory_stack_max);
            let work_table = match t {
                InventoryUiSlotTarget::WorkTable(_) => true,
                _ => false,
            };
            return InventoryClickOutcome {
                action: InventoryClickAction::CursorMove(t, m),
                reset_craft_progress: moved && work_table,
            };
        }
    } else if input.left_clicked && !cursor_empty {
        if input.cursor_in_workbench || input.cursor_in_chest {
            return ignored;
        }
        if input.cursor_in_inventory && !input.cursor_in_drop_zone {
            return ignored;
        }
        if input.spectator || !input.player_present {
            return ignored;
        }
        let dropped = s.cursor_item.slot;
        s.cursor_item.slot = InventorySlot::empty();
        return InventoryClickOutcome {
            action: InventoryClickAction::DropCursorStack(dropped),
            reset_craft_progress: false,
        };
    }
    if input.drop_key_pressed {
        if let Some(InventoryUiSlotTarget::Player(k)) = input.hovered_slot {
            if k < s.inventory.slots.len() && !input.spectator && !s.inventory.slots[k].is_empty()
                && input.player_present {
                let dropped_item_id = s.inventory.slots[k].item_id;
                let mut slot = s.inventory.slots[k];
                decrement_slot_count(&mut slot);
                s.inventory.slots.set(k, slot);
                return InventoryClickOutcome {
                    action: InventoryClickAction::DropOneFromSlot(k, dropped_item_id),
                    reset_craft_progress: false,
                };
            }
        }
    }
    ignored
}

/// How many of item `id` the grids and the cursor hold together.
pub open spec fn screens_total(s: InventoryScreens, id: ItemId) -> nat {
    grids_total(screens_grids(s), id) + held(s.cursor_item.slot, id)
}

/// How many of item `id` an action takes out of the screens: the trashed or
/// dropped stack, or the one dropped item.
pub open spec fn removed_by(a: InventoryClickAction, s: InventoryScreens, id: ItemId) -> nat {
    match a {
        InventoryClickAction::TrashCursor => held(s.cursor_item.slot, id),
        InventoryClickAction::DropCursorStack(_) => held(s.cursor_item.slot, id),
        InventoryClickAction::DropOneFromSlot(_, item) => if item == id {
            1
        } else {
            0
        },
        _ => 0,
    }
}

/// The inventory screens never create or destroy items on their own: after
/// any frame's input, for every item, the grids and the cursor hold as many
/// as before, less what the trash button or a drop took out.
pub proof fn lemma_click_conserves_items(
    i: InventoryClickInput,
    buttons: Seq<WidgetState>,
    old_s: InventoryScreens,
    new_s: InventoryScreens,
    has_recipes: bool,
    reg: ItemRegistry,
    inventory_stack_max: u16,
    id: ItemId,
)
    requires
        click_effect(
            click_action(i, buttons, old_s, has_recipes),
            i,
            old_s,
            new_s,
            reg,
            inventory_stack_max,
        ),
    ensures
        screens_total(new_s, id) + removed_by(click_action(i, buttons, old_s, has_recipes), old_s, id)
            == screens_total(old_s, id),
{
    let a = click_action(i, buttons, old_s, has_recipes);
    let g = screens_grids(old_s);
    let c = old_s.cursor_item.slot;
    match a {
        InventoryClickAction::PreviewFillWorkTable => {
            lemma_fill_conserves_items(
                old_s.recipe_preview,
                g.work_table,
                g.player,
                reg,
                inventory_stack_max,
                WORK_TABLE_CRAFTING_INPUT_SLOTS as int,
                id,
            );
        },
        InventoryClickAction::PreviewFillHandCrafted => {
            lemma_fill_conserves_items(
                old_s.recipe_preview,
                g.hand_crafted,
                g.player,
                reg,
                inventory_stack_max,
                HAND_CRAFTED_INPUT_SLOTS as int,
                id,
            );
        },
        InventoryClickAction::ShiftTransfer(t) => {
            match t {
                InventoryUiSlotTarget::Player(k) => {
                    if i.chest_open {
                        lemma_transfer_conserves_items(g.player, k as int, g.chest, id);
                    } else if i.workbench_open {
                        lemma_transfer_conserves_items(g.player, k as int, g.work_table, id);
                    } else {
                        lemma_transfer_conserves_items(g.player, k as int, g.hand_crafted, id);
                    }
                },
                InventoryUiSlotTarget::Chest(k) => {
                    lemma_grid_slot_to_inventory_conserves(
                        g.chest,
                        k as int,
                        g.player,
                        reg,
                        inventory_stack_max,
                        id,
                    );
                },
                InventoryUiSlotTarget::WorkbenchStorage(WorkbenchStorageSide::Left, k) => {
                    lemma_grid_slot_to_inventory_conserves(
                        g.storage_left,
                        k as int,
                        g.player,
                        reg,
                        inventory_stack_max,
                        id,
                    );
                },
                InventoryUiSlotTarget::WorkbenchStorage(WorkbenchStorageSide::Right, k) => {
                    lemma_grid_slot_to_inventory_conserves(
                        g.storage_right,
                        k as int,
                        g.player,
                        reg,
                        inventory_stack_max,
                        id,
                    );
                },
                InventoryUiSlotTarget::HandCrafted(k) => {
                    lemma_grid_slot_to_inventory_conserves(
                        g.hand_crafted,
                        k as int,
                        g.player,
                        reg,
                        inventory_stack_max,
                        id,
                    );
                },
                InventoryUiSlotTarget::WorkTable(k) => {
                    lemma_grid_slot_to_inventory_conserves(
                        g.work_table,
                        k as int,
                        g.player,
                        reg,
                        inventory_stack_max,
                        id,
                    );
                },
                _ => {},
            }
        },
        InventoryClickAction::CursorMove(t, m) => {
            lemma_target_move_conserves_items(g, c, t, m, reg, inventory_stack_max, id);
        },
        InventoryClickAction::DropOneFromSlot(k, _) => {
            lemma_item_total_update(g.player, k as int, decremented(g.player[k as int]), id);
        },
        _ => {},
    }
}

} // verus!
