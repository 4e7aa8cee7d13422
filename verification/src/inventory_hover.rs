//! Which inventory slot the mouse points at, from the CSS ids of the hovered
//! frames, and which item lies under the mouse.
use vstd::prelude::*;
use crate::slots::{ItemId, InventorySlot};
use crate::text::{is_prefix, text_equals, starts_with};
use crate::css_ids::{
    WidgetState, prefixed_slot_index, prefixed_number, opt_usize, parse_prefixed_slot_index,
    parse_card_index, parse_workbench_player_inventory_slot_index, parse_workbench_craft_slot_index,
    parse_workbench_tool_slot_index, parse_recipe_preview_input_index, parse_workbench_item_slot_index,
    parse_creative_slot_index, HAND_CRAFTED_RESULT_FRAME_ID, WORKBENCH_RESULT_FRAME_ID,
    WORKBENCH_PLAYER_INVENTORY_FRAME_PREFIX, WORKBENCH_CRAFT_FRAME_PREFIX, WORKBENCH_TOOL_FRAME_PREFIX,
    PLAYER_INVENTORY_FRAME_PREFIX, HAND_CRAFTED_FRAME_PREFIX, RECIPE_PREVIEW_INPUT_FRAME_PREFIX,
    WORKBENCH_ITEMS_SLOT_PREFIX, CREATIVE_PANEL_SLOT_PREFIX, HAND_CRAFTED_INPUT_SLOTS,
    WORK_TABLE_CRAFTING_INPUT_SLOTS, WORKBENCH_TOOL_SLOTS, RECIPE_PREVIEW_INPUT_SLOTS,
};
use crate::inventory::{PlayerInventory, HandCraftedState, WorkTableCraftingState, ChestInventoryUiState};
use crate::stacking::{WorkbenchStorageSide, WorkbenchToolSlotsState};
use crate::targets::InventoryUiSlotTarget;
use crate::recipe_variants::RecipePreviewDialogState;

verus! {

pub const CHEST_SLOT_FRAME_PREFIX: &'static str = "chest-slot-frame-";
pub const CHEST_PLAYER_INVENTORY_FRAME_PREFIX: &'static str = "chest-player-inventory-frame-";
pub const CHEST_ITEMS_SLOT_PREFIX: &'static str = "chest-items-slot-";
pub const WORKBENCH_STORAGE_LEFT_FRAME_PREFIX: &'static str = "workbench-storage-left-frame-";
pub const WORKBENCH_STORAGE_RIGHT_FRAME_PREFIX: &'static str = "workbench-storage-right-frame-";
pub const RECIPE_PREVIEW_RESULT_FRAME_ID: &'static str = "recipe-preview-result-frame";

/// The sizes of the grids whose slot ids the parsers check against.
pub struct InventoryLayout {
    pub player_inventory_slots: usize,
    pub chest_inventory_slots: usize,
    pub creative_panel_page_size: usize,
}

/// Slot frames of the chest grid.
pub fn parse_chest_slot_index(css_id: &str, chest_slots: usize) -> (r: Option<usize>)
    ensures
        opt_usize(r, prefixed_slot_index(css_id@, CHEST_SLOT_FRAME_PREFIX@, chest_slots as nat)),
{
    parse_prefixed_slot_index(css_id, CHEST_SLOT_FRAME_PREFIX, chest_slots)
}

/// Player-inventory slot frames of the chest screen.
pub fn parse_chest_player_inventory_slot_index(css_id: &str, player_slots: usize) -> (r: Option<usize>)
    ensures
        opt_usize(
            r,
            prefixed_slot_index(css_id@, CHEST_PLAYER_INVENTORY_FRAME_PREFIX@, player_slots as nat),
        ),
{
    parse_prefixed_slot_index(css_id, CHEST_PLAYER_INVENTORY_FRAME_PREFIX, player_slots)
}

/// Item slots of the chest screen's item panel.
pub fn parse_chest_item_slot_index(css_id: &str, page_size: usize) -> (r: Option<usize>)
    ensures
        opt_usize(r, prefixed_slot_index(css_id@, CHEST_ITEMS_SLOT_PREFIX@, page_size as nat)),
{
    parse_prefixed_slot_index(css_id, CHEST_ITEMS_SLOT_PREFIX, page_size)
}

pub open spec fn storage_slot(id: Seq<char>, chest_slots: nat) -> Option<(WorkbenchStorageSide, nat)> {
    match prefixed_slot_index(id, WORKBENCH_STORAGE_LEFT_FRAME_PREFIX@, chest_slots) {
        Some(i) => Some((WorkbenchStorageSide::Left, i)),
        None => match prefixed_slot_index(id, WORKBENCH_STORAGE_RIGHT_FRAME_PREFIX@, chest_slots) {
            Some(i) => Some((WorkbenchStorageSide::Right, i)),
            None => None,
        },
    }
}

/// Slot frames of the workbench's two storage columns.
pub fn parse_workbench_storage_slot_index(css_id: &str, chest_slots: usize) -> (r: Option<
    (WorkbenchStorageSide, usize),
>)
    ensures
        match storage_slot(css_id@, chest_slots as nat) {
            Some((side, i)) => r == Some((side, i as usize)),
            None => r is None,
        },
{
    match parse_prefixed_slot_index(css_id, WORKBENCH_STORAGE_LEFT_FRAME_PREFIX, chest_slots) {
        Some(i) => Some((WorkbenchStorageSide::Left, i)),
        None => match parse_prefixed_slot_index(
            css_id,
            WORKBENCH_STORAGE_RIGHT_FRAME_PREFIX,
            chest_slots,
        ) {
            Some(i) => Some((WorkbenchStorageSide::Right, i)),
            None => None,
        },
    }
}

pub open spec fn map_index(r: Option<nat>, f: spec_fn(usize) -> InventoryUiSlotTarget) -> Option<
    InventoryUiSlotTarget,
> {
    match r {
        Some(i) => Some(f(i as usize)),
        None => None,
    }
}

/// The slot a frame id names, if any.
pub open spec fn slot_target_of(id: Seq<char>, layout: InventoryLayout) -> Option<InventoryUiSlotTarget> {
    let player = layout.player_inventory_slots as nat;
    let chest = layout.chest_inventory_slots as nat;
    if id == HAND_CRAFTED_RESULT_FRAME_ID@ {
        Some(InventoryUiSlotTarget::HandCraftedResult)
    } else if id == WORKBENCH_RESULT_FRAME_ID@ {
        Some(InventoryUiSlotTarget::WorkbenchResult)
    } else if prefixed_slot_index(id, WORKBENCH_PLAYER_INVENTORY_FRAME_PREFIX@, player) is Some {
        map_index(
            prefixed_slot_index(id, WORKBENCH_PLAYER_INVENTORY_FRAME_PREFIX@, player),
            |i: usize| InventoryUiSlotTarget::Player(i),
        )
    } else if prefixed_slot_index(id, CHEST_PLAYER_INVENTORY_FRAME_PREFIX@, player) is Some {
        map_index(
            prefixed_slot_index(id, CHEST_PLAYER_INVENTORY_FRAME_PREFIX@, player),
            |i: usize| InventoryUiSlotTarget::Player(i),
        )
    } else if prefixed_slot_index(id, CHEST_SLOT_FRAME_PREFIX@, chest) is Some {
        map_index(
            prefixed_slot_index(id, CHEST_SLOT_FRAME_PREFIX@, chest),
            |i: usize| InventoryUiSlotTarget::Chest(i),
        )
    } else if storage_slot(id, chest) is Some {
        let (side, i) = storage_slot(id, chest)->0;
        Some(InventoryUiSlotTarget::WorkbenchStorage(side, i as usize))
    } else if prefixed_slot_index(id, WORKBENCH_CRAFT_FRAME_PREFIX@, WORK_TABLE_CRAFTING_INPUT_SLOTS as nat) is Some {
        map_index(
            prefixed_slot_index(id, WORKBENCH_CRAFT_FRAME_PREFIX@, WORK_TABLE_CRAFTING_INPUT_SLOTS as nat),
            |i: usize| InventoryUiSlotTarget::WorkTable(i),
        )
    } else if prefixed_slot_index(id, WORKBENCH_TOOL_FRAME_PREFIX@, WORKBENCH_TOOL_SLOTS as nat) is Some {
        map_index(
            prefixed_slot_index(id, WORKBENCH_TOOL_FRAME_PREFIX@, WORKBENCH_TOOL_SLOTS as nat),
            |i: usize| InventoryUiSlotTarget::WorkbenchTool(i),
        )
    } else if is_prefix(PLAYER_INVENTORY_FRAME_PREFIX@, id) {
        map_index(
            prefixed_slot_index(id, PLAYER_INVENTORY_FRAME_PREFIX@, player),
            |i: usize| InventoryUiSlotTarget::Player(i),
        )
    } else if is_prefix(HAND_CRAFTED_FRAME_PREFIX@, id) {
        map_index(
            prefixed_slot_index(id, HAND_CRAFTED_FRAME_PREFIX@, HAND_CRAFTED_INPUT_SLOTS as nat),
            |i: usize| InventoryUiSlotTarget::HandCrafted(i),
        )
    } else {
        None
    }
}

/// The slot the frame with id `css_id` stands for.
pub fn inventory_slot_target(css_id: &str, layout: &InventoryLayout) -> (r: Option<InventoryUiSlotTarget>)
    ensures
        r == slot_target_of(css_id@, *layout),
{
    if text_equals(css_id, HAND_CRAFTED_RESULT_FRAME_ID) {
        return Some(InventoryUiSlotTarget::HandCraftedResult);
    }
    if text_equals(css_id, WORKBENCH_RESULT_FRAME_ID) {
        return Some(InventoryUiSlotTarget::WorkbenchResult);
    }
    if let Some(i) = parse_workbench_player_inventory_slot_index(css_id, layout.player_inventory_slots) {
        return Some(InventoryUiSlotTarget::Player(i));
    }
    if let Some(i) = parse_chest_player_inventory_slot_index(css_id, layout.player_inventory_slots) {
        return Some(InventoryUiSlotTarget::Player(i));
    }
    if let Some(i) = parse_chest_slot_index(css_id, layout.chest_inventory_slots) {
        return Some(InventoryUiSlotTarget::Chest(i));
    }
    if let Some((side, i)) = parse_workbench_storage_slot_index(css_id, layout.chest_inventory_slots) {
        return Some(InventoryUiSlotTarget::WorkbenchStorage(side, i));
    }
    if let Some(i) = parse_workbench_craft_slot_index(css_id) {
        return Some(InventoryUiSlotTarget::WorkTable(i));
    }
    if let Some(i) = parse_workbench_tool_slot_index(css_id) {
        return Some(InventoryUiSlotTarget::WorkbenchTool(i));
    }
    if starts_with(css_id, PLAYER_INVENTORY_FRAME_PREFIX) {
        return match parse_prefixed_slot_index(
            css_id,
            PLAYER_INVENTORY_FRAME_PREFIX,
            layout.player_inventory_slots,
        ) {
            Some(i) => Some(InventoryUiSlotTarget::Player(i)),
            None => None,
        };
    }
    if starts_with(css_id, HAND_CRAFTED_FRAME_PREFIX) {
        return match parse_prefixed_slot_index(css_id, HAND_CRAFTED_FRAME_PREFIX, HAND_CRAFTED_INPUT_SLOTS) {
            Some(i) => Some(InventoryUiSlotTarget::HandCrafted(i)),
            None => None,
        };
    }
    None
}

/// Whether a frame id is one of the recipe preview's slots.
pub open spec fn is_preview_slot_id(id: Seq<char>) -> bool {
    prefixed_slot_index(id, RECIPE_PREVIEW_INPUT_FRAME_PREFIX@, RECIPE_PREVIEW_INPUT_SLOTS as nat) is Some
        || id == RECIPE_PREVIEW_RESULT_FRAME_ID@
}

/// The first hovered frame at or after `i` that names a slot, and that slot.
pub open spec fn first_hovered_target_from(w: Seq<WidgetState>, layout: InventoryLayout, i: int) -> Option<
    InventoryUiSlotTarget,
>
    decreases w.len() - i,
{
    if i < 0 || i >= w.len() {
        None
    } else if w[i].hovered && slot_target_of(w[i].css_id@, layout) is Some {
        slot_target_of(w[i].css_id@, layout)
    } else {
        first_hovered_target_from(w, layout, i + 1)
    }
}

/// The border tone of a frame: `None` for frames that are no slot, else
/// whether it is accented (the screen is open and the frame hovered).
pub open spec fn slot_border(w: WidgetState, layout: InventoryLayout, inventory_open: bool) -> Option<bool> {
    if slot_target_of(w.css_id@, layout) is None && !is_preview_slot_id(w.css_id@) {
        None
    } else {
        Some(inventory_open && w.hovered)
    }
}

/// Result of a scan over the inventory screens' frames.
pub struct InventoryHoverScan {
    pub hovered: Option<InventoryUiSlotTarget>,
    pub accents: Vec<Option<bool>>,
}

/// The slot under the mouse and the border tone of every slot frame.
pub fn sync_inventory_slot_hover_border(
    slot_frames: &Vec<WidgetState>,
    inventory_open: bool,
    layout: &InventoryLayout,
) -> (r: InventoryHoverScan)
    ensures
        r.hovered == first_hovered_target_from(slot_frames@, *layout, 0),
        r.accents@.len() == slot_frames@.len(),
        forall|k: int|
            0 <= k < slot_frames@.len() ==> #[trigger] r.accents@[k] == slot_border(
                slot_frames@[k],
                *layout,
                inventory_open,
            ),
{
    let mut hovered: Option<InventoryUiSlotTarget> = None;
    let mut accents: Vec<Option<bool>> = Vec::new();
    let mut i: usize = 0;
    while i < slot_frames.len()
        invariant
            i <= slot_frames@.len(),
            accents@.len() == i,
            forall|k: int|
                0 <= k < i ==> #[trigger] accents@[k] == slot_border(
                    slot_frames@[k],
                    *layout,
                    inventory_open,
                ),
            hovered is None ==> first_hovered_target_from(slot_frames@, *layout, 0)
                == first_hovered_target_from(slot_frames@, *layout, i as int),
            hovered is Some ==> hovered == first_hovered_target_from(slot_frames@, *layout, 0),
        decreases slot_frames.len() - i,
    {
        let w = &slot_frames[i];
        let target = inventory_slot_target(w.css_id.as_str(), layout);
        let preview_slot = parse_recipe_preview_input_index(w.css_id.as_str()).is_some()
            || text_equals(w.css_id.as_str(), RECIPE_PREVIEW_RESULT_FRAME_ID);
        if target.is_none() && !preview_slot {
            accents.push(None);
        } else {
            if hovered.is_none() && w.hovered && target.is_some() {
                hovered = target;
            }
            accents.push(Some(inventory_open && w.hovered));
        }
        i = i + 1;
    }
    InventoryHoverScan { hovered, accents }
}

/// The creative panel's items, and the page it shows.
pub struct CreativePanelState {
    pub items: Vec<ItemId>,
    pub page: usize,
}

/// The item in slot `index` of the shown page.
pub open spec fn page_item(panel: CreativePanelState, index: nat, page_size: nat) -> Option<ItemId> {
    let k = panel.page * page_size + index;
    if k < panel.items@.len() {
        Some(panel.items@[k as int])
    } else {
        None
    }
}

impl CreativePanelState {
    /// The item in slot `index` of the shown page, if there is one.
    pub fn item_at_page_slot(&self, index: usize, page_size: usize) -> (r: Option<ItemId>)
        ensures
            r == page_item(*self, index as nat, page_size as nat),
    {
        let n = self.items.len();
        match self.page.checked_mul(page_size) {
            None => None,
            Some(start) => match start.checked_add(index) {
                None => None,
                Some(k) => if k < n {
                    Some(self.items[k])
                } else {
                    None
                },
            },
        }
    }
}

/// The non-empty slot at `index` of a grid, if any.
pub open spec fn grid_item(s: Seq<InventorySlot>, index: int) -> Option<ItemId> {
    if 0 <= index < s.len() && !s[index].spec_is_empty() {
        Some(s[index].item_id)
    } else {
        None
    }
}

fn grid_item_exec(s: &Vec<InventorySlot>, index: usize) -> (r: Option<ItemId>)
    ensures
        r == grid_item(s@, index as int),
{
    if index < s.len() && !s[index].is_empty() {
        Some(s[index].item_id)
    } else {
        None
    }
}

pub open spec fn sat_dec(n: nat) -> int {
    if n == 0 {
        0
    } else {
        n - 1
    }
}

/// Everything the hovered-item lookup reads besides the frames.
pub struct HoverSources<'a> {
    pub inventory: &'a PlayerInventory,
    pub chest_inventory: &'a ChestInventoryUiState,
    pub hand_crafted: &'a HandCraftedState,
    pub work_table_crafting: &'a WorkTableCraftingState,
    pub workbench_tools: &'a WorkbenchToolSlotsState,
    pub creative_panel: &'a CreativePanelState,
    pub recipe_preview: &'a RecipePreviewDialogState,
    /// The result item of the recipe the hand-crafting grid holds, if any.
    pub hand_recipe_result: Option<ItemId>,
    /// The result item of the recipe the work-table grid holds, if any.
    pub workbench_recipe_result: Option<ItemId>,
    pub layout: &'a InventoryLayout,
}

/// The item a hovered frame with id `id` shows, checking the kinds of frame
/// in a fixed order.
pub open spec fn frame_item(id: Seq<char>, src: HoverSources) -> Option<ItemId> {
    let player = src.layout.player_inventory_slots as nat;
    let chest = src.layout.chest_inventory_slots as nat;
    let page = src.layout.creative_panel_page_size as nat;
    let inv = src.inventory.slots@;
    let from_player_frame = match prefixed_number(id, PLAYER_INVENTORY_FRAME_PREFIX@) {
        Some(n) => grid_item(inv, sat_dec(n)),
        None => None,
    };
    let from_workbench_player = match prefixed_slot_index(id, WORKBENCH_PLAYER_INVENTORY_FRAME_PREFIX@, player) {
        Some(i) => grid_item(inv, i as int),
        None => None,
    };
    let from_chest_player = match prefixed_slot_index(id, CHEST_PLAYER_INVENTORY_FRAME_PREFIX@, player) {
        Some(i) => grid_item(inv, i as int),
        None => None,
    };
    let from_chest = match prefixed_slot_index(id, CHEST_SLOT_FRAME_PREFIX@, chest) {
        Some(i) => grid_item(src.chest_inventory.slots@, i as int),
        None => None,
    };
    let from_hand = match prefixed_number(id, HAND_CRAFTED_FRAME_PREFIX@) {
        Some(n) => grid_item(src.hand_crafted.input_slots@, sat_dec(n)),
        None => None,
    };
    let from_work = match prefixed_slot_index(id, WORKBENCH_CRAFT_FRAME_PREFIX@, WORK_TABLE_CRAFTING_INPUT_SLOTS as nat) {
        Some(i) => grid_item(src.work_table_crafting.input_slots@, i as int),
        None => None,
    };
    let from_tool = match prefixed_slot_index(id, WORKBENCH_TOOL_FRAME_PREFIX@, WORKBENCH_TOOL_SLOTS as nat) {
        Some(i) => grid_item(src.workbench_tools.slots@, i as int),
        None => None,
    };
    let from_hand_result = if id == HAND_CRAFTED_RESULT_FRAME_ID@ {
        src.hand_recipe_result
    } else {
        None
    };
    let from_bench_result = if id == WORKBENCH_RESULT_FRAME_ID@ {
        src.workbench_recipe_result
    } else {
        None
    };
    let from_creative = match prefixed_slot_index(id, CREATIVE_PANEL_SLOT_PREFIX@, page) {
        Some(i) => page_item(*src.creative_panel, i, page),
        None => None,
    };
    let from_bench_items = match prefixed_slot_index(id, WORKBENCH_ITEMS_SLOT_PREFIX@, page) {
        Some(i) => page_item(*src.creative_panel, i, page),
        None => None,
    };
    let from_chest_items = match prefixed_slot_index(id, CHEST_ITEMS_SLOT_PREFIX@, page) {
        Some(i) => page_item(*src.creative_panel, i, page),
        None => None,
    };
    let p = src.recipe_preview;
    let from_preview_input = match prefixed_slot_index(id, RECIPE_PREVIEW_INPUT_FRAME_PREFIX@, RECIPE_PREVIEW_INPUT_SLOTS as nat) {
        Some(i) => if p.open && i < p.input_slot_count {
            grid_item(p.input_slots@, i as int)
        } else {
            None
        },
        None => None,
    };
    let from_preview_result = if p.open && id == RECIPE_PREVIEW_RESULT_FRAME_ID@
        && !p.result_slot.spec_is_empty() {
        Some(p.result_slot.item_id)
    } else {
        None
    };
    if from_player_frame is Some {
        from_player_frame
    } else if from_workbench_player is Some {
        from_workbench_player
    } else if from_chest_player is Some {
        from_chest_player
    } else if from_chest is Some {
        from_chest
    } else if from_hand is Some {
        from_hand
    } else if from_work is Some {
        from_work
    } else if from_tool is Some {
        from_tool
    } else if from_hand_result is Some {
        from_hand_result
    } else if from_bench_result is Some {
        from_bench_result
    } else if from_creative is Some {
        from_creative
    } else if from_bench_items is Some {
        from_bench_items
    } else if from_chest_items is Some {
        from_chest_items
    } else if from_preview_input is Some {
        from_preview_input
    } else {
        from_preview_result
    }
}

/// The item the first hovered frame at or after `i` that shows one shows.
pub open spec fn hovered_item_from(w: Seq<WidgetState>, src: HoverSources, i: int) -> Option<ItemId>
    decreases w.len() - i,
{
    if i < 0 || i >= w.len() {
        None
    } else if w[i].hovered && frame_item(w[i].css_id@, src) is Some {
        frame_item(w[i].css_id@, src)
    } else {
        hovered_item_from(w, src, i + 1)
    }
}

fn frame_item_exec(id: &str, src: &HoverSources) -> (r: Option<ItemId>)
    ensures
        r == frame_item(id@, *src),
{
    let layout = src.layout;
    if let Some(n) = parse_card_index(id, PLAYER_INVENTORY_FRAME_PREFIX) {
        let index = if n == 0 {
            0
        } else {
            n - 1
        };
        if let Some(item) = grid_item_exec(&src.inventory.slots, index) {
            return Some(item);
        }
    }
    if let Some(i) = parse_workbench_player_inventory_slot_index(id, layout.player_inventory_slots) {
        if let Some(item) = grid_item_exec(&src.inventory.slots, i) {
            return Some(item);
        }
    }
    if let Some(i) = parse_chest_player_inventory_slot_index(id, layout.player_inventory_slots) {
        if let Some(item) = grid_item_exec(&src.inventory.slots, i) {
            return Some(item);
        }
    }
    if let Some(i) = parse_chest_slot_index(id, layout.chest_inventory_slots) {
        if let Some(item) = grid_item_exec(&src.chest_inventory.slots, i) {
            return Some(item);
        }
    }
    if let Some(n) = parse_card_index(id, HAND_CRAFTED_FRAME_PREFIX) {
        let index = if n == 0 {
            0
        } else {
            n - 1
        };
        if let Some(item) = grid_item_exec(&src.hand_crafted.input_slots, index) {
            return Some(item);
        }
    }
    if let Some(i) = parse_workbench_craft_slot_index(id) {
        if let Some(item) = grid_item_exec(&src.work_table_crafting.input_slots, i) {
            return Some(item);
        }
    }
    if let Some(i) = parse_workbench_tool_slot_index(id) {
        if let Some(item) = grid_item_exec(&src.workbench_tools.slots, i) {
            return Some(item);
        }
    }
    if text_equals(id, HAND_CRAFTED_RESULT_FRAME_ID) {
        if let Some(item) = src.hand_recipe_result {
            return Some(item);
        }
    }
    if text_equals(id, WORKBENCH_RESULT_FRAME_ID) {
        if let Some(item) = src.workbench_recipe_result {
            return Some(item);
        }
    }
    if let Some(i) = parse_creative_slot_index(id, layout.creative_panel_page_size) {
        if let Some(item) = src.creative_panel.item_at_page_slot(i, layout.creative_panel_page_size) {
            return Some(item);
        }
    }
    if let Some(i) = parse_workbench_item_slot_index(id, layout.creative_panel_page_size) {
        if let Some(item) = src.creative_panel.item_at_page_slot(i, layout.creative_panel_page_size) {
            return Some(item);
        }
    }
    if let Some(i) = parse_chest_item_slot_index(id, layout.creative_panel_page_size) {
        if let Some(item) = src.creative_panel.item_at_page_slot(i, layout.creative_panel_page_size) {
            return Some(item);
        }
    }
    let p = src.recipe_preview;
    if p.open {
        if let Some(i) = parse_recipe_preview_input_index(id) {
            if i < p.input_slot_count {
                if let Some(item) = grid_item_exec(&p.input_slots, i) {
                    return Some(item);
                }
            }
        }
    }
    if p.open && text_equals(id, RECIPE_PREVIEW_RESULT_FRAME_ID) && !p.result_slot.is_empty() {
        return Some(p.result_slot.item_id);
    }
    None
}

/// The item under the mouse: the first hovered frame that shows an item.
pub fn hovered_item_id(slot_states: &Vec<WidgetState>, sources: &HoverSources) -> (r: Option<ItemId>)
    ensures
        r == hovered_item_from(slot_states@, *sources, 0),
{
    let mut i: usize = 0;
    while i < slot_states.len()
        invariant
            i <= slot_states@.len(),
            hovered_item_from(slot_states@, *sources, 0) == hovered_item_from(
                slot_states@,
                *sources,
                i as int,
            ),
        decreases slot_states.len() - i,
    {
        if slot_states[i].hovered {
            let item = frame_item_exec(slot_states[i].css_id.as_str(), sources);
            if item.is_some() {
                return item;
            }
        }
        i = i + 1;
    }
    None
}

} // verus!
