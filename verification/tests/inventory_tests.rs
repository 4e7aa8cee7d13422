use oplexa_ui::inventory::{
    count_item_in_inventory, first_empty_index, take_items_from_inventory, transfer_player_slot_to_chest,
    transfer_player_slot_to_hand_crafted, transfer_player_slot_to_work_table, ChestInventoryUiState,
    HandCraftedState, PlayerInventory, WorkTableCraftingState,
};
use oplexa_ui::registry::{ItemDef, ItemRegistry};
use oplexa_ui::slots::{
    decrement_slot_count, effective_stack_max, place_all_from_cursor, place_one_from_cursor,
    take_all_from_slot_to_cursor, take_half_from_slot_to_cursor, InventorySlot,
};
use oplexa_ui::stacking::{
    flush_cursor_item_to_inventory, flush_hand_crafted_inputs_to_inventory,
    transfer_chest_slot_to_inventory, transfer_workbench_storage_slot_to_inventory,
    InventoryCursorItemState, WorkbenchStorageSide,
};

fn def(key: &str, name: &str, stack_limit: u16) -> ItemDef {
    ItemDef {
        key: key.to_string(),
        localized_name: name.to_string(),
        groups: Vec::new(),
        block: None,
        stack_limit,
    }
}

/// Item 1: stone (stacks of 64), item 2: stick (stacks of 16).
fn registry() -> ItemRegistry {
    ItemRegistry {
        defs: vec![def("", "", 0), def("stone", "oplexa:stone", 64), def("stick", "oplexa:stick", 16)],
        related_items: Vec::new(),
    }
}

fn slot(item_id: u16, count: u16) -> InventorySlot {
    InventorySlot { item_id, count }
}

fn empty() -> InventorySlot {
    InventorySlot { item_id: 0, count: 0 }
}

fn inventory(slots: Vec<InventorySlot>) -> PlayerInventory {
    PlayerInventory { slots }
}

fn total_of(slots: &[InventorySlot], id: u16) -> u32 {
    slots
        .iter()
        .filter(|s| s.item_id == id && s.count > 0)
        .map(|s| s.count as u32)
        .sum()
}

#[test]
fn effective_stack_max_takes_smaller_limit_and_at_least_one() {
    assert_eq!(effective_stack_max(64, 100), 64);
    assert_eq!(effective_stack_max(64, 32), 32);
    assert_eq!(effective_stack_max(0, 5), 1);
    assert_eq!(effective_stack_max(7, 0), 1);
}

#[test]
fn decrement_slot_count_empties_last_item() {
    let mut s = slot(1, 3);
    decrement_slot_count(&mut s);
    assert_eq!(s, slot(1, 2));
    let mut s = slot(1, 1);
    decrement_slot_count(&mut s);
    assert_eq!(s, empty());
}

#[test]
fn take_all_moves_whole_stack_onto_empty_cursor() {
    let mut s = slot(1, 7);
    let mut c = empty();
    assert!(take_all_from_slot_to_cursor(&mut s, &mut c));
    assert_eq!(s, empty());
    assert_eq!(c, slot(1, 7));
    // A full cursor refuses.
    let mut s = slot(2, 3);
    assert!(!take_all_from_slot_to_cursor(&mut s, &mut c));
    assert_eq!(s, slot(2, 3));
    assert_eq!(c, slot(1, 7));
}

#[test]
fn take_half_rounds_up_and_respects_cursor_room() {
    let reg = registry();
    let mut s = slot(1, 5);
    let mut c = empty();
    assert!(take_half_from_slot_to_cursor(&mut s, &mut c, &reg, 100));
    assert_eq!(s, slot(1, 2));
    assert_eq!(c, slot(1, 3));
    // Sticks stack to 16: a cursor holding 15 takes only one more.
    let mut s = slot(2, 10);
    let mut c = slot(2, 15);
    assert!(take_half_from_slot_to_cursor(&mut s, &mut c, &reg, 100));
    assert_eq!(s, slot(2, 9));
    assert_eq!(c, slot(2, 16));
    // Another item on the cursor: nothing happens.
    let mut s = slot(1, 4);
    let mut c = slot(2, 1);
    assert!(!take_half_from_slot_to_cursor(&mut s, &mut c, &reg, 100));
    assert_eq!(s, slot(1, 4));
}

#[test]
fn place_one_and_place_all() {
    let reg = registry();
    let mut s = empty();
    let mut c = slot(2, 3);
    assert!(place_one_from_cursor(&mut s, &mut c, &reg, 100));
    assert_eq!(s, slot(2, 1));
    assert_eq!(c, slot(2, 2));

    // Place all merges up to the stick stack of 16.
    let mut s = slot(2, 10);
    let mut c = slot(2, 9);
    assert!(place_all_from_cursor(&mut s, &mut c, &reg, 100));
    assert_eq!(s, slot(2, 16));
    assert_eq!(c, slot(2, 3));

    // Another item in the slot: swap.
    let mut s = slot(1, 5);
    let mut c = slot(2, 2);
    assert!(place_all_from_cursor(&mut s, &mut c, &reg, 100));
    assert_eq!(s, slot(2, 2));
    assert_eq!(c, slot(1, 5));

    // A full stack refuses one more.
    let mut s = slot(2, 16);
    let mut c = slot(2, 2);
    assert!(!place_one_from_cursor(&mut s, &mut c, &reg, 100));
    assert_eq!(s, slot(2, 16));
}

#[test]
fn add_item_merges_then_fills_empty_slots() {
    let reg = registry();
    let mut inv = inventory(vec![slot(2, 10), empty(), slot(1, 5), empty()]);
    let left = inv.add_item(2, 30, &reg, 100);
    assert_eq!(left, 0);
    assert_eq!(inv.slots, vec![slot(2, 16), slot(2, 16), slot(1, 5), slot(2, 8)]);
}

#[test]
fn add_item_returns_what_does_not_fit() {
    let reg = registry();
    let mut inv = inventory(vec![slot(2, 10), slot(1, 5)]);
    let left = inv.add_item(2, 20, &reg, 100);
    assert_eq!(left, 14);
    assert_eq!(inv.slots, vec![slot(2, 16), slot(1, 5)]);
    // Conservation: what went in plus what came back is what was offered.
    assert_eq!(total_of(&inv.slots, 2) + left as u32, 10 + 20);
}

#[test]
fn add_item_of_nothing_changes_nothing() {
    let reg = registry();
    let mut inv = inventory(vec![empty(), slot(1, 5)]);
    assert_eq!(inv.add_item(0, 4, &reg, 100), 4);
    assert_eq!(inv.add_item(1, 0, &reg, 100), 0);
    assert_eq!(inv.slots, vec![empty(), slot(1, 5)]);
}

#[test]
fn count_and_take_items() {
    let mut inv = inventory(vec![slot(1, 3), slot(2, 4), slot(1, 6)]);
    assert_eq!(count_item_in_inventory(&inv, 1), 9);
    assert_eq!(count_item_in_inventory(&inv, 0), 0);
    let taken = take_items_from_inventory(&mut inv, 1, 5);
    assert_eq!(taken, 5);
    assert_eq!(count_item_in_inventory(&inv, 1), 4);
    assert_eq!(count_item_in_inventory(&inv, 2), 4);
    // Asking for more than there is takes what there is.
    let taken = take_items_from_inventory(&mut inv, 1, 50);
    assert_eq!(taken, 4);
    assert_eq!(count_item_in_inventory(&inv, 1), 0);
}

#[test]
fn total_items_counts_every_stack() {
    let inv = inventory(vec![slot(1, 3), empty(), slot(2, 4), InventorySlot { item_id: 5, count: 0 }]);
    assert_eq!(inv.total_items(), 7);
}

#[test]
fn first_empty_index_finds_first_free_slot() {
    assert_eq!(first_empty_index(&vec![slot(1, 1), empty(), empty()]), Some(1));
    assert_eq!(first_empty_index(&vec![slot(1, 1)]), None);
}

#[test]
fn shift_click_player_slot_goes_to_first_empty_slot() {
    let mut inv = inventory(vec![slot(1, 3), slot(2, 4)]);
    let mut chest = ChestInventoryUiState {
        slots: vec![slot(2, 1), empty(), empty()],
        workbench_left: vec![empty()],
        workbench_right: vec![empty()],
    };
    assert!(transfer_player_slot_to_chest(1, &mut inv, &mut chest));
    assert_eq!(inv.slots, vec![slot(1, 3), empty()]);
    assert_eq!(chest.slots, vec![slot(2, 1), slot(2, 4), empty()]);
    // An empty source slot moves nothing.
    assert!(!transfer_player_slot_to_chest(1, &mut inv, &mut chest));

    let mut hand = HandCraftedState { input_slots: vec![slot(1, 1), slot(1, 1)] };
    assert!(!transfer_player_slot_to_hand_crafted(0, &mut inv, &mut hand));
    let mut table = WorkTableCraftingState { input_slots: vec![empty(); 8] };
    assert!(transfer_player_slot_to_work_table(0, &mut inv, &mut table));
    assert_eq!(table.input_slots[0], slot(1, 3));
    assert_eq!(inv.slots[0], empty());
}

#[test]
fn shift_click_chest_slot_goes_into_inventory() {
    let reg = registry();
    let mut inv = inventory(vec![slot(2, 12), empty()]);
    let mut chest = ChestInventoryUiState {
        slots: vec![slot(2, 10)],
        workbench_left: vec![slot(1, 2)],
        workbench_right: vec![empty()],
    };
    assert!(transfer_chest_slot_to_inventory(0, &mut chest, &mut inv, &reg, 100));
    assert_eq!(inv.slots, vec![slot(2, 16), slot(2, 6)]);
    assert_eq!(chest.slots, vec![empty()]);
    assert!(transfer_workbench_storage_slot_to_inventory(
        WorkbenchStorageSide::Left,
        0,
        &mut chest,
        &mut inv,
        &reg,
        100
    ) == false);
    assert_eq!(chest.workbench_left, vec![slot(1, 2)]);
}

#[test]
fn flushing_hands_back_what_fits() {
    let reg = registry();
    let mut inv = inventory(vec![slot(2, 14), empty()]);
    let mut hand = HandCraftedState { input_slots: vec![slot(2, 5), slot(1, 3)] };
    flush_hand_crafted_inputs_to_inventory(&mut hand, &mut inv, &reg, 100);
    assert_eq!(inv.slots, vec![slot(2, 16), slot(2, 3)]);
    // The stone finds no room and stays.
    assert_eq!(hand.input_slots, vec![empty(), slot(1, 3)]);

    let mut cursor = InventoryCursorItemState { slot: slot(2, 20) };
    flush_cursor_item_to_inventory(&mut cursor, &mut inv, &reg, 100);
    assert_eq!(inv.slots, vec![slot(2, 16), slot(2, 16)]);
    assert_eq!(cursor.slot, slot(2, 7));
}
