//! Opening and closing the workbench menu, and the decisions of its build
//! timer. Closing hands the work-table inputs, the tools and the cursor
//! stack back to the inventory.
//!
//! The build timer itself (elapsed and total seconds) is the caller's; the
//! functions here say when it starts over or runs on.
use vstd::prelude::*;
use crate::slots::{InventorySlot, ItemId, held};
use crate::inventory::item_total;
use crate::inventory::{PlayerInventory, WorkTableCraftingState};
use crate::stacking::{
    lemma_flush_conserves_items, lemma_return_slot,
    InventoryCursorItemState, WorkbenchToolSlotsState, flush_grid, return_slot,
    flush_work_table_inputs_to_inventory, flush_workbench_tools_to_inventory,
    flush_cursor_item_to_inventory,
};
use crate::recipe_variants::RecipePreviewDialogState;
use crate::registry::ItemRegistry;
use crate::ui_state::{UiInteractionState, Visibility};
use crate::text::text_equals;

verus! {

/// Whether the workbench menu is open.
pub struct WorkbenchRecipeMenuState {
    pub open: bool,
}

/// Whether the hammer's structure menu is open.
pub struct StructureBuildMenuState {
    pub open: bool,
}

/// The structure recipe chosen for placing, if any.
pub struct ActiveStructureRecipeState {
    pub selected_recipe_name: Option<String>,
}

/// How the structure being placed is turned, in quarter turns.
pub struct ActiveStructurePlacementState {
    pub rotation_quarters: u8,
}

/// A request to open the workbench is honoured unless a menu, the chat, the
/// inventory or a chest is open. Opening closes the structure menu, clears
/// the chosen structure recipe and its rotation, and closes the recipe
/// preview; the caller then restarts the build timer. Returns whether the
/// workbench opened.
pub fn handle_open_workbench_recipe_menu_request(
    requested: bool,
    ui_interaction: &UiInteractionState,
    workbench_menu: &mut WorkbenchRecipeMenuState,
    structure_menu: &mut StructureBuildMenuState,
    active_structure_recipe: &mut ActiveStructureRecipeState,
    active_structure_placement: &mut ActiveStructurePlacementState,
    recipe_preview: &mut RecipePreviewDialogState,
) -> (r: bool)
    ensures
        r == (requested && !(ui_interaction.menu_open || ui_interaction.chat_open
            || ui_interaction.inventory_open || ui_interaction.chest_menu_open)),
        r ==> {
            &&& final(workbench_menu).open
            &&& !final(structure_menu).open
            &&& final(active_structure_recipe).selected_recipe_name is None
            &&& final(active_structure_placement).rotation_quarters == 0
            &&& *final(recipe_preview) == (RecipePreviewDialogState { open: false, ..*old(recipe_preview) })
        },
        !r ==> {
            &&& final(workbench_menu).open == old(workbench_menu).open
            &&& final(structure_menu).open == old(structure_menu).open
            &&& final(active_structure_recipe).selected_recipe_name == old(
                active_structure_recipe,
            ).selected_recipe_name
            &&& final(active_structure_placement).rotation_quarters == old(
                active_structure_placement,
            ).rotation_quarters
            &&& *final(recipe_preview) == *old(recipe_preview)
        },
{
    if !requested {
        return false;
    }
    if ui_interaction.menu_open || ui_interaction.chat_open || ui_interaction.inventory_open
        || ui_interaction.chest_menu_open {
        return false;
    }
    structure_menu.open = false;
    active_structure_recipe.selected_recipe_name = None;
    active_structure_placement.rotation_quarters = 0;
    recipe_preview.open = false;
    workbench_menu.open = true;
    true
}

/// The work-table grid, the tools, the cursor stack and the inventory after
/// the workbench closes: with a registry, the grid, then the tools, then the
/// cursor stack go back to the inventory; without one they stay.
pub open spec fn workbench_closing_flush(
    work_table: Seq<InventorySlot>,
    tools: Seq<InventorySlot>,
    cursor: InventorySlot,
    inv: Seq<InventorySlot>,
    registry: Option<&ItemRegistry>,
    inventory_stack_max: u16,
) -> (Seq<InventorySlot>, Seq<InventorySlot>, InventorySlot, Seq<InventorySlot>) {
    match registry {
        Some(reg) => {
            let (w2, inv1) = flush_grid(work_table, inv, *reg, inventory_stack_max);
            let (t2, inv2) = flush_grid(tools, inv1, *reg, inventory_stack_max);
            let (c2, inv3) = return_slot(cursor, inv2, *reg, inventory_stack_max);
            (w2, t2, c2, inv3)
        },
        None => (work_table, tools, cursor, inv),
    }
}

fn flush_workbench(
    cursor_item: &mut InventoryCursorItemState,
    work_table: &mut WorkTableCraftingState,
    workbench_tools: &mut WorkbenchToolSlotsState,
    inventory: &mut PlayerInventory,
    item_registry: Option<&ItemRegistry>,
    inventory_stack_max: u16,
)
    ensures
        (final(work_table).input_slots@, final(workbench_tools).slots@, final(cursor_item).slot, final(inventory).slots@) == workbench_closing_flush(
            old(work_table).input_slots@,
            old(workbench_tools).slots@,
            old(cursor_item).slot,
            old(inventory).slots@,
            item_registry,
            inventory_stack_max,
        ),
{
    if let Some(reg) = item_registry {
        flush_work_table_inputs_to_inventory(work_table, inventory, reg, inventory_stack_max);
        flush_workbench_tools_to_inventory(workbench_tools, inventory, reg, inventory_stack_max);
        flush_cursor_item_to_inventory(cursor_item, inventory, reg, inventory_stack_max);
    }
}

/// What the close key did to the workbench menu.
#[derive(Clone, Copy, PartialEq, Eq, Debug, Structural)]
pub enum WorkbenchCloseKey {
    Unchanged,
    PreviewClosed,
    /// The menu closed; the caller stops the build timer.
    Closed,
}

/// The close key while the workbench is open: it first closes a recipe
/// preview, else the menu (handing everything back, see
/// `workbench_closing_flush`).
pub fn handle_workbench_recipe_menu_input(
    close_key_pressed: bool,
    workbench_menu: &mut WorkbenchRecipeMenuState,
    recipe_preview: &mut RecipePreviewDialogState,
    cursor_item: &mut InventoryCursorItemState,
    work_table: &mut WorkTableCraftingState,
    workbench_tools: &mut WorkbenchToolSlotsState,
    inventory: &mut PlayerInventory,
    item_registry: Option<&ItemRegistry>,
    inventory_stack_max: u16,
) -> (r: WorkbenchCloseKey)
    ensures
        r == if !old(workbench_menu).open || !close_key_pressed {
            WorkbenchCloseKey::Unchanged
        } else if old(recipe_preview).open {
            WorkbenchCloseKey::PreviewClosed
        } else {
            WorkbenchCloseKey::Closed
        },
        r != WorkbenchCloseKey::Closed ==> {
            &&& final(workbench_menu).open == old(workbench_menu).open
            &&& *final(cursor_item) == *old(cursor_item)
            &&& *final(work_table) == *old(work_table)
            &&& *final(workbench_tools) == *old(workbench_tools)
            &&& *final(inventory) == *old(inventory)
        },
        r == WorkbenchCloseKey::Unchanged ==> *final(recipe_preview) == *old(recipe_preview),
        r != WorkbenchCloseKey::Unchanged ==> *final(recipe_preview) == (RecipePreviewDialogState {
            open: false,
            ..*old(recipe_preview)
        }),
        r == WorkbenchCloseKey::Closed ==> {
            &&& !final(workbench_menu).open
            &&& (final(work_table).input_slots@, final(workbench_tools).slots@, final(cursor_item).slot, final(inventory).slots@) == workbench_closing_flush(
                old(work_table).input_slots@,
                old(workbench_tools).slots@,
                old(cursor_item).slot,
                old(inventory).slots@,
                item_registry,
                inventory_stack_max,
            )
        },
{
    if !workbench_menu.open || !close_key_pressed {
        return WorkbenchCloseKey::Unchanged;
    }
    if recipe_preview.open {
        recipe_preview.open = false;
        return WorkbenchCloseKey::PreviewClosed;
    }
    flush_workbench(
        cursor_item,
        work_table,
        workbench_tools,
        inventory,
        item_registry,
        inventory_stack_max,
    );
    recipe_preview.open = false;
    workbench_menu.open = false;
    WorkbenchCloseKey::Closed
}

/// Leaving the workbench: everything goes back (see
/// `workbench_closing_flush`), the menu and the recipe preview close and the
/// menu root hides; the caller stops the build timer.
pub fn close_workbench_recipe_menu_ui(
    ui_interaction: &mut UiInteractionState,
    workbench_menu: &mut WorkbenchRecipeMenuState,
    root_visibility: &mut Visibility,
    recipe_preview: &mut RecipePreviewDialogState,
    cursor_item: &mut InventoryCursorItemState,
    work_table: &mut WorkTableCraftingState,
    workbench_tools: &mut WorkbenchToolSlotsState,
    inventory: &mut PlayerInventory,
    item_registry: Option<&ItemRegistry>,
    inventory_stack_max: u16,
)
    ensures
        (final(work_table).input_slots@, final(workbench_tools).slots@, final(cursor_item).slot, final(inventory).slots@) == workbench_closing_flush(
            old(work_table).input_slots@,
            old(workbench_tools).slots@,
            old(cursor_item).slot,
            old(inventory).slots@,
            item_registry,
            inventory_stack_max,
        ),
        !final(workbench_menu).open,
        *final(ui_interaction) == (UiInteractionState { workbench_menu_open: false, ..*old(ui_interaction) }),
        *final(recipe_preview) == (RecipePreviewDialogState { open: false, ..*old(recipe_preview) }),
        *final(root_visibility) == Visibility::Hidden,
{
    flush_workbench(
        cursor_item,
        work_table,
        workbench_tools,
        inventory,
        item_registry,
        inventory_stack_max,
    );
    workbench_menu.open = false;
    ui_interaction.workbench_menu_open = false;
    recipe_preview.open = false;
    *root_visibility = Visibility::Hidden;
}

/// What the build timer does this frame.
#[derive(Clone, Copy, PartialEq, Eq, Debug, Structural)]
pub enum CraftTick {
    /// No build is running.
    Idle,
    /// The build is abandoned: the timer starts over.
    Reset,
    /// The build runs on; the caller adds the frame time and crafts once it
    /// is done.
    Advance,
}

/// The build timer's decision: a running build is abandoned when the menu
/// closed, when the grid no longer makes a recipe (`resolved_source_path`
/// is `None`, also where the registries are missing), or when it makes
/// another recipe than the one the build started with.
pub fn tick_workbench_craft_progress(
    active: bool,
    menu_open: bool,
    resolved_source_path: Option<&str>,
    current_source_path: &str,
) -> (r: CraftTick)
    ensures
        r == if !active {
            CraftTick::Idle
        } else if !menu_open {
            CraftTick::Reset
        } else {
            match resolved_source_path {
                None => CraftTick::Reset,
                Some(p) => if p@ == current_source_path@ {
                    CraftTick::Advance
                } else {
                    CraftTick::Reset
                },
            }
        },
{
    if !active {
        return CraftTick::Idle;
    }
    if !menu_open {
        return CraftTick::Reset;
    }
    match resolved_source_path {
        None => CraftTick::Reset,
        Some(p) => if text_equals(p, current_source_path) {
            CraftTick::Advance
        } else {
            CraftTick::Reset
        },
    }
}

/// Closing the workbench moves the work-table inputs, the tools and the
/// cursor stack into the inventory and loses none of them: for every item,
/// all four together hold as much as before.
pub proof fn lemma_workbench_closing_conserves_items(
    work_table: Seq<InventorySlot>,
    tools: Seq<InventorySlot>,
    cursor: InventorySlot,
    inv: Seq<InventorySlot>,
    registry: Option<&ItemRegistry>,
    inventory_stack_max: u16,
    id: ItemId,
)
    ensures
        ({
            let (w2, t2, c2, inv2) = workbench_closing_flush(
                work_table,
                tools,
                cursor,
                inv,
                registry,
                inventory_stack_max,
            );
            item_total(w2, id) + item_total(t2, id) + held(c2, id) + item_total(inv2, id) == item_total(
                work_table,
                id,
            ) + item_total(tools, id) + held(cursor, id) + item_total(inv, id)
        }),
{
    if let Some(reg) = registry {
        lemma_flush_conserves_items(work_table, inv, *reg, inventory_stack_max, id);
        let (w2, inv1) = flush_grid(work_table, inv, *reg, inventory_stack_max);
        lemma_flush_conserves_items(tools, inv1, *reg, inventory_stack_max, id);
        let (t2, inv2) = flush_grid(tools, inv1, *reg, inventory_stack_max);
        lemma_return_slot(cursor, inv2, *reg, inventory_stack_max, id);
    }
}

} // verus!
