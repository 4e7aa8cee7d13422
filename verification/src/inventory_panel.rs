//! Opening and closing the player inventory panel. Closing it hands the
//! hand-crafting inputs and the cursor stack back to the inventory.
use vstd::prelude::*;
use crate::slots::InventorySlot;
use crate::inventory::{PlayerInventory, HandCraftedState};
use crate::stacking::{
    InventoryCursorItemState, flush_grid, return_slot, flush_hand_crafted_inputs_to_inventory,
    flush_cursor_item_to_inventory, lemma_flush_conserves_items, lemma_return_slot,
};
use crate::inventory::item_total;
use crate::slots::{ItemId, held};
use crate::recipe_variants::RecipePreviewDialogState;
use crate::registry::ItemRegistry;
use crate::ui_state::{UiInteractionState, CursorOptions, CursorGrabMode, Visibility, set_inventory_cursor};

verus! {

/// Whether the player inventory panel is open.
pub struct PlayerInventoryUiState {
    pub open: bool,
}

/// What a toggle request did.
#[derive(Clone, Copy, PartialEq, Eq, Debug, Structural)]
pub enum InventoryToggle {
    Unchanged,
    /// Only the recipe preview on top of the inventory was closed.
    PreviewClosed,
    Closed,
    Opened,
}

/// The hand-crafting grid, the cursor stack and the inventory after closing
/// the panel: with a registry, the grid and then the cursor stack go back
/// to the inventory; without one they stay where they are.
pub open spec fn closing_flush(
    hand: Seq<InventorySlot>,
    cursor: InventorySlot,
    inv: Seq<InventorySlot>,
    registry: Option<&ItemRegistry>,
    inventory_stack_max: u16,
) -> (Seq<InventorySlot>, InventorySlot, Seq<InventorySlot>) {
    match registry {
        Some(reg) => {
            let (h2, inv1) = flush_grid(hand, inv, *reg, inventory_stack_max);
            let (c2, inv2) = return_slot(cursor, inv1, *reg, inventory_stack_max);
            (h2, c2, inv2)
        },
        None => (hand, cursor, inv),
    }
}

/// Another panel that keeps the inventory key from opening the inventory.
pub open spec fn other_panel_open(ui: UiInteractionState) -> bool {
    ui.menu_open || ui.chat_open || ui.structure_menu_open || ui.workbench_menu_open || ui.chest_menu_open
}

/// What the inventory and close keys do: the close key first closes a recipe
/// preview, else the open inventory; the inventory key toggles the panel
/// unless another panel is open.
pub open spec fn toggle_decision(
    open_key_pressed: bool,
    close_key_pressed: bool,
    inventory_open: bool,
    preview_open: bool,
    ui: UiInteractionState,
) -> InventoryToggle {
    if inventory_open && close_key_pressed {
        if preview_open {
            InventoryToggle::PreviewClosed
        } else {
            InventoryToggle::Closed
        }
    } else if other_panel_open(ui) || !open_key_pressed {
        InventoryToggle::Unchanged
    } else if inventory_open {
        InventoryToggle::Closed
    } else {
        InventoryToggle::Opened
    }
}

fn close_inventory_panel(
    ui_interaction: &mut UiInteractionState,
    cursor: &mut CursorOptions,
    root_visibility: &mut Visibility,
    inventory_ui: &mut PlayerInventoryUiState,
    cursor_item: &mut InventoryCursorItemState,
    recipe_preview: &mut RecipePreviewDialogState,
    inventory: &mut PlayerInventory,
    hand_crafted: &mut HandCraftedState,
    item_registry: Option<&ItemRegistry>,
    inventory_stack_max: u16,
)
    ensures
        (final(hand_crafted).input_slots@, final(cursor_item).slot, final(inventory).slots@)
            == closing_flush(
            old(hand_crafted).input_slots@,
            old(cursor_item).slot,
            old(inventory).slots@,
            item_registry,
            inventory_stack_max,
        ),
        !final(inventory_ui).open,
        *final(recipe_preview) == (RecipePreviewDialogState { open: false, ..*old(recipe_preview) }),
        *final(ui_interaction) == (UiInteractionState { inventory_open: false, ..*old(ui_interaction) }),
        final(cursor).grab_mode == CursorGrabMode::Locked && !final(cursor).visible,
        *final(root_visibility) == Visibility::Hidden,
{
    if let Some(reg) = item_registry {
        flush_hand_crafted_inputs_to_inventory(hand_crafted, inventory, reg, inventory_stack_max);
        flush_cursor_item_to_inventory(cursor_item, inventory, reg, inventory_stack_max);
    }
    inventory_ui.open = false;
    recipe_preview.open = false;
    ui_interaction.inventory_open = false;
    set_inventory_cursor(false, cursor);
    *root_visibility = Visibility::Hidden;
}

/// Handles the inventory and close keys (see `toggle_decision`). Closing
/// hands the grid and cursor back (see `closing_flush`), closes the recipe
/// preview, locks and hides the mouse cursor and hides the panel; opening
/// frees the cursor and shows the panel.
pub fn toggle_player_inventory_ui(
    open_key_pressed: bool,
    close_key_pressed: bool,
    ui_interaction: &mut UiInteractionState,
    cursor: &mut CursorOptions,
    root_visibility: &mut Visibility,
    inventory_ui: &mut PlayerInventoryUiState,
    cursor_item: &mut InventoryCursorItemState,
    recipe_preview: &mut RecipePreviewDialogState,
    inventory: &mut PlayerInventory,
    hand_crafted: &mut HandCraftedState,
    item_registry: Option<&ItemRegistry>,
    inventory_stack_max: u16,
) -> (r: InventoryToggle)
    ensures
        r == toggle_decision(
            open_key_pressed,
            close_key_pressed,
            old(inventory_ui).open,
            old(recipe_preview).open,
            *old(ui_interaction),
        ),
        r == InventoryToggle::Unchanged ==> {
            &&& *final(ui_interaction) == *old(ui_interaction)
            &&& *final(cursor) == *old(cursor)
            &&& *final(root_visibility) == *old(root_visibility)
            &&& *final(inventory_ui) == *old(inventory_ui)
            &&& *final(cursor_item) == *old(cursor_item)
            &&& *final(recipe_preview) == *old(recipe_preview)
            &&& *final(inventory) == *old(inventory)
            &&& *final(hand_crafted) == *old(hand_crafted)
        },
        r == InventoryToggle::PreviewClosed ==> {
            &&& *final(recipe_preview) == (RecipePreviewDialogState { open: false, ..*old(recipe_preview) })
            &&& *final(ui_interaction) == *old(ui_interaction)
            &&& *final(cursor) == *old(cursor)
            &&& *final(root_visibility) == *old(root_visibility)
            &&& *final(inventory_ui) == *old(inventory_ui)
            &&& *final(cursor_item) == *old(cursor_item)
            &&& *final(inventory) == *old(inventory)
            &&& *final(hand_crafted) == *old(hand_crafted)
        },
        r == InventoryToggle::Closed ==> {
            &&& (final(hand_crafted).input_slots@, final(cursor_item).slot, final(inventory).slots@)
                == closing_flush(
                old(hand_crafted).input_slots@,
                old(cursor_item).slot,
                old(inventory).slots@,
                item_registry,
                inventory_stack_max,
            )
            &&& !final(inventory_ui).open
            &&& *final(recipe_preview) == (RecipePreviewDialogState { open: false, ..*old(recipe_preview) })
            &&& *final(ui_interaction) == (UiInteractionState {
                inventory_open: false,
                ..*old(ui_interaction)
            })
            &&& final(cursor).grab_mode == CursorGrabMode::Locked && !final(cursor).visible
            &&& *final(root_visibility) == Visibility::Hidden
        },
        r == InventoryToggle::Opened ==> {
            &&& final(inventory_ui).open
            &&& *final(ui_interaction) == (UiInteractionState {
                inventory_open: true,
                ..*old(ui_interaction)
            })
            &&& final(cursor).grab_mode == CursorGrabMode::Free && final(cursor).visible
            &&& *final(root_visibility) == Visibility::Inherited
            &&& *final(cursor_item) == *old(cursor_item)
            &&& *final(recipe_preview) == *old(recipe_preview)
            &&& *final(inventory) == *old(inventory)
            &&& *final(hand_crafted) == *old(hand_crafted)
        },
{
    if inventory_ui.open && close_key_pressed {
        if recipe_preview.open {
            recipe_preview.open = false;
            return InventoryToggle::PreviewClosed;
        }
        close_inventory_panel(
            ui_interaction,
            cursor,
            root_visibility,
            inventory_ui,
            cursor_item,
            recipe_preview,
            inventory,
            hand_crafted,
            item_registry,
            inventory_stack_max,
        );
        return InventoryToggle::Closed;
    }
    if ui_interaction.menu_open || ui_interaction.chat_open || ui_interaction.structure_menu_open
        || ui_interaction.workbench_menu_open || ui_interaction.chest_menu_open {
        return InventoryToggle::Unchanged;
    }
    if !open_key_pressed {
        return InventoryToggle::Unchanged;
    }
    if inventory_ui.open {
        close_inventory_panel(
            ui_interaction,
            cursor,
            root_visibility,
            inventory_ui,
            cursor_item,
            recipe_preview,
            inventory,
            hand_crafted,
            item_registry,
            inventory_stack_max,
        );
        return InventoryToggle::Closed;
    }
    inventory_ui.open = true;
    ui_interaction.inventory_open = true;
    set_inventory_cursor(true, cursor);
    *root_visibility = Visibility::Inherited;
    InventoryToggle::Opened
}

/// Closes the inventory panel if it is open (as the close key does once no
/// recipe preview is showing); returns whether it was open.
pub fn close_player_inventory_ui(
    ui_interaction: &mut UiInteractionState,
    cursor: &mut CursorOptions,
    root_visibility: &mut Visibility,
    inventory_ui: &mut PlayerInventoryUiState,
    cursor_item: &mut InventoryCursorItemState,
    recipe_preview: &mut RecipePreviewDialogState,
    inventory: &mut PlayerInventory,
    hand_crafted: &mut HandCraftedState,
    item_registry: Option<&ItemRegistry>,
    inventory_stack_max: u16,
) -> (r: bool)
    ensures
        r == old(inventory_ui).open,
        !r ==> {
            &&& *final(ui_interaction) == *old(ui_interaction)
            &&& *final(cursor) == *old(cursor)
            &&& *final(root_visibility) == *old(root_visibility)
            &&& *final(inventory_ui) == *old(inventory_ui)
            &&& *final(cursor_item) == *old(cursor_item)
            &&& *final(recipe_preview) == *old(recipe_preview)
            &&& *final(inventory) == *old(inventory)
            &&& *final(hand_crafted) == *old(hand_crafted)
        },
        r ==> {
            &&& (final(hand_crafted).input_slots@, final(cursor_item).slot, final(inventory).slots@)
                == closing_flush(
                old(hand_crafted).input_slots@,
                old(cursor_item).slot,
                old(inventory).slots@,
                item_registry,
                inventory_stack_max,
            )
            &&& !final(inventory_ui).open
            &&& *final(recipe_preview) == (RecipePreviewDialogState { open: false, ..*old(recipe_preview) })
            &&& *final(ui_interaction) == (UiInteractionState {
                inventory_open: false,
                ..*old(ui_interaction)
            })
            &&& final(cursor).grab_mode == CursorGrabMode::Locked && !final(cursor).visible
            &&& *final(root_visibility) == Visibility::Hidden
        },
{
    if !inventory_ui.open {
        return false;
    }
    close_inventory_panel(
        ui_interaction,
        cursor,
        root_visibility,
        inventory_ui,
        cursor_item,
        recipe_preview,
        inventory,
        hand_crafted,
        item_registry,
        inventory_stack_max,
    );
    true
}

/// Closing the inventory panel moves the hand-crafting inputs and the cursor
/// stack into the inventory and loses none of them: for every item, grid,
/// cursor and inventory together hold as much as before.
pub proof fn lemma_closing_conserves_items(
    hand: Seq<InventorySlot>,
    cursor: InventorySlot,
    inv: Seq<InventorySlot>,
    registry: Option<&ItemRegistry>,
    inventory_stack_max: u16,
    id: ItemId,
)
    ensures
        ({
            let (h2, c2, inv2) = closing_flush(hand, cursor, inv, registry, inventory_stack_max);
            item_total(h2, id) + held(c2, id) + item_total(inv2, id) == item_total(hand, id) + held(
                cursor,
                id,
            ) + item_total(inv, id)
        }),
{
    if let Some(reg) = registry {
        lemma_flush_conserves_items(hand, inv, *reg, inventory_stack_max, id);
        let (h2, inv1) = flush_grid(hand, inv, *reg, inventory_stack_max);
        lemma_return_slot(cursor, inv1, *reg, inventory_stack_max, id);
    }
}

} // verus!
