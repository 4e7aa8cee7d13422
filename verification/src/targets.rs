//! The slots the mouse can point at in the inventory screens, and the cursor
//! moves (take all, take half, place one, place all) applied to whichever
//! grid the pointed slot belongs to.
use vstd::prelude::*;
use crate::slots::{
    InventorySlot, ItemId, MoveOutcome, held, stack_cap, take_all_outcome, take_half_outcome,
    place_one_outcome, place_all_outcome, take_all_from_slot_to_cursor, take_half_from_slot_to_cursor,
    place_one_from_cursor, place_all_from_cursor, lemma_moves_conserve_items,
};
use crate::inventory::{
    PlayerInventory, HandCraftedState, WorkTableCraftingState, ChestInventoryUiState, item_total,
    lemma_item_total_update,
};
use crate::stacking::{WorkbenchStorageSide, WorkbenchToolSlotsState, InventoryCursorItemState};
use crate::registry::ItemRegistry;

verus! {

/// A slot of one of the inventory screens' grids, or one of the two result slots.
#[derive(Clone, Copy, PartialEq, Eq, Debug, Structural)]
pub enum InventoryUiSlotTarget {
    Player(usize),
    Chest(usize),
    WorkbenchStorage(WorkbenchStorageSide, usize),
    HandCrafted(usize),
    WorkTable(usize),
    WorkbenchTool(usize),
    HandCraftedResult,
    WorkbenchResult,
}

/// The four ways the cursor exchanges items with a slot.
#[derive(Clone, Copy, PartialEq, Eq, Debug, Structural)]
pub enum CursorMove {
    TakeAll,
    TakeHalf,
    PlaceOne,
    PlaceAll,
}

/// Every grid of the inventory screens.
pub struct GridsView {
    pub player: Seq<InventorySlot>,
    pub chest: Seq<InventorySlot>,
    pub storage_left: Seq<InventorySlot>,
    pub storage_right: Seq<InventorySlot>,
    pub hand_crafted: Seq<InventorySlot>,
    pub work_table: Seq<InventorySlot>,
    pub tools: Seq<InventorySlot>,
}

pub open spec fn grids(
    inventory: PlayerInventory,
    chest: ChestInventoryUiState,
    hand_crafted: HandCraftedState,
    work_table: WorkTableCraftingState,
    tools: WorkbenchToolSlotsState,
) -> GridsView {
    GridsView {
        player: inventory.slots@,
        chest: chest.slots@,
        storage_left: chest.workbench_left@,
        storage_right: chest.workbench_right@,
        hand_crafted: hand_crafted.input_slots@,
        work_table: work_table.input_slots@,
        tools: tools.slots@,
    }
}

/// The grid a target lies in (0 to 6, in the order of `GridsView`) and its
/// index there; the result slots lie in no grid.
pub open spec fn target_place(t: InventoryUiSlotTarget) -> Option<(int, usize)> {
    match t {
        InventoryUiSlotTarget::Player(i) => Some((0, i)),
        InventoryUiSlotTarget::Chest(i) => Some((1, i)),
        InventoryUiSlotTarget::WorkbenchStorage(WorkbenchStorageSide::Left, i) => Some((2, i)),
        InventoryUiSlotTarget::WorkbenchStorage(WorkbenchStorageSide::Right, i) => Some((3, i)),
        InventoryUiSlotTarget::HandCrafted(i) => Some((4, i)),
        InventoryUiSlotTarget::WorkTable(i) => Some((5, i)),
        InventoryUiSlotTarget::WorkbenchTool(i) => Some((6, i)),
        _ => None,
    }
}

pub open spec fn grid_at(g: GridsView, k: int) -> Seq<InventorySlot> {
    if k == 0 {
        g.player
    } else if k == 1 {
        g.chest
    } else if k == 2 {
        g.storage_left
    } else if k == 3 {
        g.storage_right
    } else if k == 4 {
        g.hand_crafted
    } else if k == 5 {
        g.work_table
    } else {
        g.tools
    }
}

pub open spec fn with_grid(g: GridsView, k: int, s: Seq<InventorySlot>) -> GridsView {
    if k == 0 {
        GridsView { player: s, ..g }
    } else if k == 1 {
        GridsView { chest: s, ..g }
    } else if k == 2 {
        GridsView { storage_left: s, ..g }
    } else if k == 3 {
        GridsView { storage_right: s, ..g }
    } else if k == 4 {
        GridsView { hand_crafted: s, ..g }
    } else if k == 5 {
        GridsView { work_table: s, ..g }
    } else {
        GridsView { tools: s, ..g }
    }
}

/// The outcome of a cursor move on one slot; the stack cap is that of the
/// slot's item for taking half, of the cursor's item for placing.
pub open spec fn move_outcome(
    m: CursorMove,
    slot: InventorySlot,
    cursor: InventorySlot,
    reg: ItemRegistry,
    inventory_stack_max: u16,
) -> MoveOutcome {
    match m {
        CursorMove::TakeAll => take_all_outcome(slot, cursor),
        CursorMove::TakeHalf => take_half_outcome(
            slot,
            cursor,
            stack_cap(reg.spec_stack_limit(slot.item_id), inventory_stack_max),
        ),
        CursorMove::PlaceOne => place_one_outcome(
            slot,
            cursor,
            stack_cap(reg.spec_stack_limit(cursor.item_id), inventory_stack_max),
        ),
        CursorMove::PlaceAll => place_all_outcome(
            slot,
            cursor,
            stack_cap(reg.spec_stack_limit(cursor.item_id), inventory_stack_max),
        ),
    }
}

/// A cursor move on the pointed slot: whether it happened, the grids after
/// it, the cursor after it. A result slot, or an index past the end of its
/// grid, refuses every move.
pub open spec fn target_move(
    g: GridsView,
    cursor: InventorySlot,
    t: InventoryUiSlotTarget,
    m: CursorMove,
    reg: ItemRegistry,
    inventory_stack_max: u16,
) -> (bool, GridsView, InventorySlot) {
    match target_place(t) {
        None => (false, g, cursor),
        Some((k, i)) => {
            let s = grid_at(g, k);
            if i >= s.len() {
                (false, g, cursor)
            } else {
                let o = move_outcome(m, s[i as int], cursor, reg, inventory_stack_max);
                (o.0, with_grid(g, k, s.update(i as int, o.1)), o.2)
            }
        },
    }
}

/// Taking the whole stack of the pointed slot onto the empty cursor (no
/// stack cap is involved); with a stack on the cursor nothing happens.
pub open spec fn take_all_at(g: GridsView, cursor: InventorySlot, t: InventoryUiSlotTarget) -> (
    bool,
    GridsView,
    InventorySlot,
) {
    if !cursor.spec_is_empty() {
        (false, g, cursor)
    } else {
        take_all_at_empty_cursor(g, cursor, t)
    }
}

pub open spec fn take_all_at_empty_cursor(g: GridsView, cursor: InventorySlot, t: InventoryUiSlotTarget) -> (
    bool,
    GridsView,
    InventorySlot,
) {
    match target_place(t) {
        None => (false, g, cursor),
        Some((k, i)) => {
            let s = grid_at(g, k);
            if i >= s.len() {
                (false, g, cursor)
            } else {
                let o = take_all_outcome(s[i as int], cursor);
                (o.0, with_grid(g, k, s.update(i as int, o.1)), o.2)
            }
        },
    }
}

/// How many of `id` all the grids hold together.
pub open spec fn grids_total(g: GridsView, id: ItemId) -> nat {
    item_total(g.player, id) + item_total(g.chest, id) + item_total(g.storage_left, id) + item_total(
        g.storage_right,
        id,
    ) + item_total(g.hand_crafted, id) + item_total(g.work_table, id) + item_total(g.tools, id)
}

proof fn lemma_move_outcome_conserves(
    m: CursorMove,
    slot: InventorySlot,
    cursor: InventorySlot,
    reg: ItemRegistry,
    inventory_stack_max: u16,
    id: ItemId,
)
    ensures
        ({
            let o = move_outcome(m, slot, cursor, reg, inventory_stack_max);
            held(o.1, id) + held(o.2, id) == held(slot, id) + held(cursor, id)
        }),
{
    match m {
        CursorMove::TakeHalf => lemma_moves_conserve_items(
            slot,
            cursor,
            stack_cap(reg.spec_stack_limit(slot.item_id), inventory_stack_max),
            id,
        ),
        _ => lemma_moves_conserve_items(
            slot,
            cursor,
            stack_cap(reg.spec_stack_limit(cursor.item_id), inventory_stack_max),
            id,
        ),
    }
}

proof fn lemma_with_grid_total(g: GridsView, k: int, s2: Seq<InventorySlot>, id: ItemId)
    requires
        0 <= k <= 6,
    ensures
        grids_total(with_grid(g, k, s2), id) + item_total(grid_at(g, k), id) == grids_total(g, id)
            + item_total(s2, id),
{
}

/// A cursor move creates and destroys nothing: for every item, the grids and
/// the cursor together hold as many as before.
pub proof fn lemma_target_move_conserves_items(
    g: GridsView,
    cursor: InventorySlot,
    t: InventoryUiSlotTarget,
    m: CursorMove,
    reg: ItemRegistry,
    inventory_stack_max: u16,
    id: ItemId,
)
    ensures
        ({
            let (_moved, g2, c2) = target_move(g, cursor, t, m, reg, inventory_stack_max);
            grids_total(g2, id) + held(c2, id) == grids_total(g, id) + held(cursor, id)
        }),
{
    match target_place(t) {
        None => {},
        Some((k, i)) => {
            let s = grid_at(g, k);
            if i < s.len() {
                let o = move_outcome(m, s[i as int], cursor, reg, inventory_stack_max);
                lemma_move_outcome_conserves(m, s[i as int], cursor, reg, inventory_stack_max, id);
                lemma_item_total_update(s, i as int, o.1, id);
                lemma_with_grid_total(g, k, s.update(i as int, o.1), id);
            }
        },
    }
}

fn move_in_grid(
    v: &mut Vec<InventorySlot>,
    i: usize,
    cursor: &mut InventorySlot,
    m: CursorMove,
    item_registry: &ItemRegistry,
    inventory_stack_max: u16,
) -> (r: bool)
    ensures
        (r, final(v)@, *final(cursor)) == if i < old(v)@.len() {
            let o = move_outcome(m, old(v)@[i as int], *old(cursor), *item_registry, inventory_stack_max);
            (o.0, old(v)@.update(i as int, o.1), o.2)
        } else {
            (false, old(v)@, *old(cursor))
        },
{
    if i >= v.len() {
        return false;
    }
    let mut s = v[i];
    let r = match m {
        CursorMove::TakeAll => take_all_from_slot_to_cursor(&mut s, cursor),
        CursorMove::TakeHalf => take_half_from_slot_to_cursor(
            &mut s,
            cursor,
            item_registry,
            inventory_stack_max,
        ),
        CursorMove::PlaceOne => place_one_from_cursor(&mut s, cursor, item_registry, inventory_stack_max),
        CursorMove::PlaceAll => place_all_from_cursor(&mut s, cursor, item_registry, inventory_stack_max),
    };
    v.set(i, s);
    r
}

fn move_at_target(
    slot_target: InventoryUiSlotTarget,
    m: CursorMove,
    cursor_item: &mut InventoryCursorItemState,
    inventory: &mut PlayerInventory,
    chest_inventory: &mut ChestInventoryUiState,
    hand_crafted: &mut HandCraftedState,
    work_table: &mut WorkTableCraftingState,
    workbench_tools: &mut WorkbenchToolSlotsState,
    item_registry: &ItemRegistry,
    inventory_stack_max: u16,
) -> (r: bool)
    ensures
        (r, grids(*final(inventory), *final(chest_inventory), *final(hand_crafted), *final(work_table), *final(workbench_tools)), final(cursor_item).slot)
            == target_move(
            grids(*old(inventory), *old(chest_inventory), *old(hand_crafted), *old(work_table), *old(workbench_tools)),
            old(cursor_item).slot,
            slot_target,
            m,
            *item_registry,
            inventory_stack_max,
        ),
{
    let ghost g0 = grids(*inventory, *chest_inventory, *hand_crafted, *work_table, *workbench_tools);
    let r = match slot_target {
        InventoryUiSlotTarget::Player(i) => move_in_grid(
            &mut inventory.slots,
            i,
            &mut cursor_item.slot,
            m,
            item_registry,
            inventory_stack_max,
        ),
        InventoryUiSlotTarget::Chest(i) => move_in_grid(
            &mut chest_inventory.slots,
            i,
            &mut cursor_item.slot,
            m,
            item_registry,
            inventory_stack_max,
        ),
        InventoryUiSlotTarget::WorkbenchStorage(WorkbenchStorageSide::Left, i) => move_in_grid(
            &mut chest_inventory.workbench_left,
            i,
            &mut cursor_item.slot,
            m,
            item_registry,
            inventory_stack_max,
        ),
        InventoryUiSlotTarget::WorkbenchStorage(WorkbenchStorageSide::Right, i) => move_in_grid(
            &mut chest_inventory.workbench_right,
            i,
            &mut cursor_item.slot,
            m,
            item_registry,
            inventory_stack_max,
        ),
        InventoryUiSlotTarget::HandCrafted(i) => move_in_grid(
            &mut hand_crafted.input_slots,
            i,
            &mut cursor_item.slot,
            m,
            item_registry,
            inventory_stack_max,
        ),
        InventoryUiSlotTarget::WorkTable(i) => move_in_grid(
            &mut work_table.input_slots,
            i,
            &mut cursor_item.slot,
            m,
            item_registry,
            inventory_stack_max,
        ),
        InventoryUiSlotTarget::WorkbenchTool(i) => move_in_grid(
            &mut workbench_tools.slots,
            i,
            &mut cursor_item.slot,
            m,
            item_registry,
            inventory_stack_max,
        ),
        _ => false,
    };
    r
}

/// Left click with an empty cursor: picks up the whole stack of the pointed slot.
pub fn take_all_from_target_to_cursor(
    slot_target: InventoryUiSlotTarget,
    cursor_item: &mut InventoryCursorItemState,
    inventory: &mut PlayerInventory,
    chest_inventory: &mut ChestInventoryUiState,
    hand_crafted: &mut HandCraftedState,
    work_table: &mut WorkTableCraftingState,
    workbench_tools: &mut WorkbenchToolSlotsState,
) -> (r: bool)
    ensures
        (r, grids(*final(inventory), *final(chest_inventory), *final(hand_crafted), *final(work_table), *final(workbench_tools)), final(cursor_item).slot)
            == take_all_at(
            grids(*old(inventory), *old(chest_inventory), *old(hand_crafted), *old(work_table), *old(workbench_tools)),
            old(cursor_item).slot,
            slot_target,
        ),
{
    if !cursor_item.slot.is_empty() {
        return false;
    }
    let registry = ItemRegistry { defs: Vec::new(), related_items: Vec::new() };
    let ghost g0 = grids(*inventory, *chest_inventory, *hand_crafted, *work_table, *workbench_tools);
    let ghost c0 = cursor_item.slot;
    assert(target_move(g0, c0, slot_target, CursorMove::TakeAll, registry, 0) == take_all_at(
        g0,
        c0,
        slot_target,
    ));
    move_at_target(
        slot_target,
        CursorMove::TakeAll,
        cursor_item,
        inventory,
        chest_inventory,
        hand_crafted,
        work_table,
        workbench_tools,
        &registry,
        0,
    )
}

/// Middle click: picks up half of the pointed slot's stack.
pub fn take_half_from_target_to_cursor(
    slot_target: InventoryUiSlotTarget,
    cursor_item: &mut InventoryCursorItemState,
    inventory: &mut PlayerInventory,
    chest_inventory: &mut ChestInventoryUiState,
    hand_crafted: &mut HandCraftedState,
    work_table: &mut WorkTableCraftingState,
    workbench_tools: &mut WorkbenchToolSlotsState,
    item_registry: &ItemRegistry,
    inventory_stack_max: u16,
) -> (r: bool)
    ensures
        (r, grids(*final(inventory), *final(chest_inventory), *final(hand_crafted), *final(work_table), *final(workbench_tools)), final(cursor_item).slot)
            == target_move(
            grids(*old(inventory), *old(chest_inventory), *old(hand_crafted), *old(work_table), *old(workbench_tools)),
            old(cursor_item).slot,
            slot_target,
            CursorMove::TakeHalf,
            *item_registry,
            inventory_stack_max,
        ),
{
    move_at_target(
        slot_target,
        CursorMove::TakeHalf,
        cursor_item,
        inventory,
        chest_inventory,
        hand_crafted,
        work_table,
        workbench_tools,
        item_registry,
        inventory_stack_max,
    )
}

/// Right click with a stack on the cursor: puts one item into the pointed slot.
pub fn place_one_from_cursor_on_target(
    slot_target: InventoryUiSlotTarget,
    cursor_item: &mut InventoryCursorItemState,
    inventory: &mut PlayerInventory,
    chest_inventory: &mut ChestInventoryUiState,
    hand_crafted: &mut HandCraftedState,
    work_table: &mut WorkTableCraftingState,
    workbench_tools: &mut WorkbenchToolSlotsState,
    item_registry: &ItemRegistry,
    inventory_stack_max: u16,
) -> (r: bool)
    ensures
        (r, grids(*final(inventory), *final(chest_inventory), *final(hand_crafted), *final(work_table), *final(workbench_tools)), final(cursor_item).slot)
            == target_move(
            grids(*old(inventory), *old(chest_inventory), *old(hand_crafted), *old(work_table), *old(workbench_tools)),
            old(cursor_item).slot,
            slot_target,
            CursorMove::PlaceOne,
            *item_registry,
            inventory_stack_max,
        ),
{
    move_at_target(
        slot_target,
        CursorMove::PlaceOne,
        cursor_item,
        inventory,
        chest_inventory,
        hand_crafted,
        work_table,
        workbench_tools,
        item_registry,
        inventory_stack_max,
    )
}

/// Left click with a stack on the cursor: puts as much as fits into the
/// pointed slot, or swaps with a slot holding another item.
pub fn place_all_from_cursor_on_target(
    slot_target: InventoryUiSlotTarget,
    cursor_item: &mut InventoryCursorItemState,
    inventory: &mut PlayerInventory,
    chest_inventory: &mut ChestInventoryUiState,
    hand_crafted: &mut HandCraftedState,
    work_table: &mut WorkTableCraftingState,
    workbench_tools: &mut WorkbenchToolSlotsState,
    item_registry: &ItemRegistry,
    inventory_stack_max: u16,
) -> (r: bool)
    ensures
        (r, grids(*final(inventory), *final(chest_inventory), *final(hand_crafted), *final(work_table), *final(workbench_tools)), final(cursor_item).slot)
            == target_move(
            grids(*old(inventory), *old(chest_inventory), *old(hand_crafted), *old(work_table), *old(workbench_tools)),
            old(cursor_item).slot,
            slot_target,
            CursorMove::PlaceAll,
            *item_registry,
            inventory_stack_max,
        ),
{
    move_at_target(
        slot_target,
        CursorMove::PlaceAll,
        cursor_item,
        inventory,
        chest_inventory,
        hand_crafted,
        work_table,
        workbench_tools,
        item_registry,
        inventory_stack_max,
    )
}

} // verus!
