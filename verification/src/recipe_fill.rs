//! Filling a crafting grid from the recipe shown in the preview dialog: each
//! input the recipe asks for is taken from the inventory into the matching
//! grid slot, choosing among interchangeable items one the player has.
use vstd::prelude::*;
use crate::slots::{ItemId, InventorySlot, empty_slot, held, stack_cap};
use crate::inventory::{
    PlayerInventory, HandCraftedState, WorkTableCraftingState, item_total, sat16, take_items_seq,
    taken_count, lemma_take_items_totals, lemma_take_nothing, lemma_item_total_update,
    count_item_in_inventory, take_items_from_inventory,
};
use crate::registry::ItemRegistry;
use crate::css_ids::{HAND_CRAFTED_INPUT_SLOTS, WORK_TABLE_CRAFTING_INPUT_SLOTS};
use crate::recipe_variants::{RecipePreviewDialogState, recipe_preview_variant_at};

verus! {

/// The inventory after taking up to `amount` of `id`, and how many were taken.
pub open spec fn take_outcome(inv: Seq<InventorySlot>, id: ItemId, amount: nat) -> (Seq<InventorySlot>, nat) {
    if id == 0 || amount == 0 {
        (inv, 0)
    } else {
        (take_items_seq(inv, id, amount), taken_count(inv, id, amount))
    }
}

/// The first of the alternatives at or after `i` that the inventory holds.
pub open spec fn first_available(alts: Seq<ItemId>, inv: Seq<InventorySlot>, i: int) -> Option<ItemId>
    decreases alts.len() - i,
{
    if i < 0 || i >= alts.len() {
        None
    } else if alts[i] != 0 && item_total(inv, alts[i]) > 0 {
        Some(alts[i])
    } else {
        first_available(alts, inv, i + 1)
    }
}

/// The item a grid slot is filled with: the item already there if it is one
/// of the alternatives; else the first alternative the player has; else the
/// item the preview shows.
pub open spec fn fill_item(required: InventorySlot, alts: Seq<ItemId>, target: InventorySlot, inv: Seq<InventorySlot>) -> ItemId {
    if !target.spec_is_empty() && alts.contains(target.item_id) {
        target.item_id
    } else if alts.len() > 0 {
        match first_available(alts, inv, 0) {
            Some(a) => a,
            None => required.item_id,
        }
    } else {
        required.item_id
    }
}

pub open spec fn min16(a: u16, b: u16) -> u16 {
    if a < b {
        a
    } else {
        b
    }
}

/// One grid slot filled for one preview input: the slot and the inventory
/// after it. An empty slot takes up to the required count; a slot with the
/// same item is topped up to the required count, at most a full stack; a
/// slot with another item is left alone.
pub open spec fn fill_slot(
    required: InventorySlot,
    alts: Seq<ItemId>,
    target: InventorySlot,
    inv: Seq<InventorySlot>,
    reg: ItemRegistry,
    inventory_stack_max: u16,
) -> (InventorySlot, Seq<InventorySlot>) {
    if required.spec_is_empty() {
        (target, inv)
    } else {
        let id = fill_item(required, alts, target, inv);
        if target.spec_is_empty() {
            let (inv2, moved) = take_outcome(inv, id, required.count as nat);
            if moved > 0 {
                (InventorySlot { item_id: id, count: moved as u16 }, inv2)
            } else {
                (target, inv2)
            }
        } else if target.item_id != id {
            (target, inv)
        } else {
            let cap = stack_cap(reg.spec_stack_limit(id), inventory_stack_max);
            let desired = min16(required.count, cap);
            if target.count >= desired {
                (target, inv)
            } else {
                let (inv2, moved) = take_outcome(inv, id, (desired - target.count) as nat);
                (InventorySlot { item_id: target.item_id, count: (target.count + moved) as u16 }, inv2)
            }
        }
    }
}

/// The input the preview shows in slot `k`, or nothing.
pub open spec fn required_at(preview: RecipePreviewDialogState, k: int) -> InventorySlot {
    if 0 <= k < preview.input_slots@.len() {
        preview.input_slots@[k]
    } else {
        empty_slot()
    }
}

/// The alternatives of slot `k` in the selected variant, or none.
pub open spec fn alternatives_at(preview: RecipePreviewDialogState, k: int) -> Seq<ItemId> {
    if preview.selected_variant_index < preview.variants@.len() && 0 <= k
        < preview.variants@[preview.selected_variant_index as int]@.alternatives.len() {
        preview.variants@[preview.selected_variant_index as int]@.alternatives[k]
    } else {
        Seq::empty()
    }
}

/// The grid and inventory after filling grid slots `0..k` in turn.
pub open spec fn fill_grid_upto(
    preview: RecipePreviewDialogState,
    grid: Seq<InventorySlot>,
    inv: Seq<InventorySlot>,
    reg: ItemRegistry,
    inventory_stack_max: u16,
    k: int,
) -> (Seq<InventorySlot>, Seq<InventorySlot>)
    decreases k,
{
    if k <= 0 {
        (grid, inv)
    } else {
        let (g, v) = fill_grid_upto(preview, grid, inv, reg, inventory_stack_max, k - 1);
        if k - 1 >= g.len() {
            (g, v)
        } else {
            let (x, v2) = fill_slot(
                required_at(preview, k - 1),
                alternatives_at(preview, k - 1),
                g[k - 1],
                v,
                reg,
                inventory_stack_max,
            );
            (g.update(k - 1, x), v2)
        }
    }
}

proof fn lemma_take_outcome(inv: Seq<InventorySlot>, id: ItemId, amount: nat, other: ItemId)
    ensures
        ({
            let (t, moved) = take_outcome(inv, id, amount);
            &&& moved <= amount
            &&& moved <= item_total(inv, id)
            &&& id != 0 ==> item_total(t, id) + moved == item_total(inv, id)
            &&& other != id ==> item_total(t, other) == item_total(inv, other)
            &&& t.len() == inv.len()
        }),
{
    if id != 0 && amount != 0 {
        lemma_take_items_totals(inv, id, amount);
    }
}

/// Filling one slot moves items between inventory and slot and makes or loses none.
proof fn lemma_fill_slot(
    required: InventorySlot,
    alts: Seq<ItemId>,
    target: InventorySlot,
    inv: Seq<InventorySlot>,
    reg: ItemRegistry,
    inventory_stack_max: u16,
    other: ItemId,
)
    ensures
        ({
            let (x, t) = fill_slot(required, alts, target, inv, reg, inventory_stack_max);
            &&& held(x, other) + item_total(t, other) == held(target, other) + item_total(inv, other)
            &&& t.len() == inv.len()
        }),
{
    if !required.spec_is_empty() {
        let id = fill_item(required, alts, target, inv);
        if target.spec_is_empty() {
            lemma_take_outcome(inv, id, required.count as nat, other);
            let (inv2, moved) = take_outcome(inv, id, required.count as nat);
            if moved > 0 {
                assert(id != 0);
            }
        } else if target.item_id == id {
            let cap = stack_cap(reg.spec_stack_limit(id), inventory_stack_max);
            let desired = min16(required.count, cap);
            if target.count < desired {
                lemma_take_outcome(inv, id, (desired - target.count) as nat, other);
            }
        }
    }
}

/// Filling a grid from the preview moves items from the inventory into the
/// grid and makes or loses none: for every item, grid and inventory together
/// hold as much as before.
pub proof fn lemma_fill_conserves_items(
    preview: RecipePreviewDialogState,
    grid: Seq<InventorySlot>,
    inv: Seq<InventorySlot>,
    reg: ItemRegistry,
    inventory_stack_max: u16,
    k: int,
    id: ItemId,
)
    ensures
        ({
            let (g, v) = fill_grid_upto(preview, grid, inv, reg, inventory_stack_max, k);
            &&& item_total(g, id) + item_total(v, id) == item_total(grid, id) + item_total(inv, id)
            &&& g.len() == grid.len()
            &&& v.len() == inv.len()
        }),
    decreases k,
{
    if k > 0 {
        lemma_fill_conserves_items(preview, grid, inv, reg, inventory_stack_max, k - 1, id);
        let (g, v) = fill_grid_upto(preview, grid, inv, reg, inventory_stack_max, k - 1);
        if k - 1 < g.len() {
            let (x, v2) = fill_slot(
                required_at(preview, k - 1),
                alternatives_at(preview, k - 1),
                g[k - 1],
                v,
                reg,
                inventory_stack_max,
            );
            lemma_fill_slot(
                required_at(preview, k - 1),
                alternatives_at(preview, k - 1),
                g[k - 1],
                v,
                reg,
                inventory_stack_max,
                id,
            );
            lemma_item_total_update(g, k - 1, x, id);
        }
    }
}

fn take_exec(inventory: &mut PlayerInventory, id: ItemId, amount: u16) -> (r: u16)
    ensures
        (final(inventory).slots@, r as nat) == take_outcome(old(inventory).slots@, id, amount as nat),
        r <= amount,
{
    proof {
        if id != 0 && amount != 0 {
            lemma_take_items_totals(inventory.slots@, id, amount as nat);
        }
    }
    take_items_from_inventory(inventory, id, amount)
}

/// The item to fill with, computed as `fill_item` says.
fn choose_fill_item(
    required: InventorySlot,
    alternatives: &Vec<ItemId>,
    target: InventorySlot,
    inventory: &PlayerInventory,
) -> (r: ItemId)
    ensures
        r == fill_item(required, alternatives@, target, inventory.slots@),
{
    let mut contains = false;
    if !target.is_empty() {
        let mut i: usize = 0;
        while i < alternatives.len()
            invariant
                i <= alternatives@.len(),
                contains == alternatives@.subrange(0, i as int).contains(target.item_id),
            decreases alternatives.len() - i,
        {
            proof {
                let q = alternatives@.subrange(0, i + 1);
                assert(q =~= alternatives@.subrange(0, i as int).push(alternatives@[i as int]));
                if q.contains(target.item_id) && alternatives@[i as int] != target.item_id {
                    let m = choose|m: int| 0 <= m < q.len() && q[m] == target.item_id;
                    assert(alternatives@.subrange(0, i as int)[m] == target.item_id);
                }
                if alternatives@.subrange(0, i as int).contains(target.item_id) {
                    let m = choose|m: int| 0 <= m < i && alternatives@.subrange(0, i as int)[m] == target.item_id;
                    assert(q[m] == target.item_id);
                }
                if alternatives@[i as int] == target.item_id {
                    assert(q[i as int] == target.item_id);
                }
            }
            if alternatives[i] == target.item_id {
                contains = true;
            }
            i = i + 1;
        }
        assert(alternatives@.subrange(0, alternatives@.len() as int) =~= alternatives@);
    }
    assert(contains == (!target.spec_is_empty() && alternatives@.contains(target.item_id)));
    if contains {
        return target.item_id;
    }
    if alternatives.len() == 0 {
        return required.item_id;
    }
    let mut j: usize = 0;
    while j < alternatives.len()
        invariant
            !(!target.spec_is_empty() && alternatives@.contains(target.item_id)),
            alternatives@.len() > 0,
            j <= alternatives@.len(),
            first_available(alternatives@, inventory.slots@, 0) == first_available(
                alternatives@,
                inventory.slots@,
                j as int,
            ),
        decreases alternatives.len() - j,
    {
        let alt = alternatives[j];
        if count_item_in_inventory(inventory, alt) > 0 {
            return alt;
        }
        j = j + 1;
    }
    required.item_id
}

fn fill_slot_exec(
    required: InventorySlot,
    alternatives: &Vec<ItemId>,
    target: InventorySlot,
    inventory: &mut PlayerInventory,
    item_registry: &ItemRegistry,
    inventory_stack_max: u16,
) -> (r: InventorySlot)
    ensures
        (r, final(inventory).slots@) == fill_slot(
            required,
            alternatives@,
            target,
            old(inventory).slots@,
            *item_registry,
            inventory_stack_max,
        ),
{
    if required.is_empty() {
        return target;
    }
    let id = choose_fill_item(required, alternatives, target, inventory);
    if target.is_empty() {
        let moved = take_exec(inventory, id, required.count);
        if moved > 0 {
            return InventorySlot { item_id: id, count: moved };
        }
        return target;
    }
    if target.item_id != id {
        return target;
    }
    let stack_max = crate::slots::effective_stack_max(
        item_registry.stack_limit(id),
        inventory_stack_max,
    );
    let desired = if required.count < stack_max {
        required.count
    } else {
        stack_max
    };
    if target.count >= desired {
        return target;
    }
    let missing = desired - target.count;
    let moved = take_exec(inventory, id, missing);
    let total = target.count.saturating_add(moved);
    InventorySlot { item_id: target.item_id, count: if total < stack_max { total } else { stack_max } }
}

fn fill_grid_exec(
    recipe_preview: &RecipePreviewDialogState,
    inventory: &mut PlayerInventory,
    grid: &mut Vec<InventorySlot>,
    slots: usize,
    item_registry: &ItemRegistry,
    inventory_stack_max: u16,
)
    ensures
        (final(grid)@, final(inventory).slots@) == fill_grid_upto(
            *recipe_preview,
            old(grid)@,
            old(inventory).slots@,
            *item_registry,
            inventory_stack_max,
            slots as int,
        ),
{
    let mut slot_index: usize = 0;
    let empty: Vec<ItemId> = Vec::new();
    while slot_index < slots
        invariant
            slot_index <= slots,
            empty@.len() == 0,
            (grid@, inventory.slots@) == fill_grid_upto(
                *recipe_preview,
                old(grid)@,
                old(inventory).slots@,
                *item_registry,
                inventory_stack_max,
                slot_index as int,
            ),
        decreases slots - slot_index,
    {
        let required = if slot_index < recipe_preview.input_slots.len() {
            recipe_preview.input_slots[slot_index]
        } else {
            InventorySlot::empty()
        };
        if slot_index < grid.len() && !required.is_empty() {
            let alternatives: &Vec<ItemId> = match recipe_preview_variant_at(
                recipe_preview,
                recipe_preview.selected_variant_index,
            ) {
                Some(variant) => {
                    if slot_index < variant.input_slot_alternatives.len() {
                        &variant.input_slot_alternatives[slot_index]
                    } else {
                        &empty
                    }
                },
                None => &empty,
            };
            proof {
                assert(alternatives@ == alternatives_at(*recipe_preview, slot_index as int)) by {
                    if recipe_preview.selected_variant_index < recipe_preview.variants@.len() {
                        let v = recipe_preview.variants@[recipe_preview.selected_variant_index as int];
                        if slot_index < v.input_slot_alternatives@.len() {
                            assert(v@.alternatives[slot_index as int] == v.input_slot_alternatives@[slot_index as int]@);
                        }
                    } else {
                        assert(empty@ =~= Seq::<ItemId>::empty());
                    }
                    assert(empty@ =~= Seq::<ItemId>::empty());
                }
            }
            let target = grid[slot_index];
            let filled = fill_slot_exec(
                required,
                alternatives,
                target,
                inventory,
                item_registry,
                inventory_stack_max,
            );
            grid.set(slot_index, filled);
        }
        slot_index = slot_index + 1;
    }
}

/// Fills the work-table grid from the recipe shown in the preview.
pub fn fill_work_table_from_recipe_preview(
    recipe_preview: &RecipePreviewDialogState,
    inventory: &mut PlayerInventory,
    work_table_crafting: &mut WorkTableCraftingState,
    item_registry: &ItemRegistry,
    inventory_stack_max: u16,
)
    ensures
        (final(work_table_crafting).input_slots@, final(inventory).slots@) == fill_grid_upto(
            *recipe_preview,
            old(work_table_crafting).input_slots@,
            old(inventory).slots@,
            *item_registry,
            inventory_stack_max,
            WORK_TABLE_CRAFTING_INPUT_SLOTS as int,
        ),
{
    fill_grid_exec(
        recipe_preview,
        inventory,
        &mut work_table_crafting.input_slots,
        WORK_TABLE_CRAFTING_INPUT_SLOTS,
        item_registry,
        inventory_stack_max,
    )
}

/// Fills the hand-crafting grid from the recipe shown in the preview.
pub fn fill_hand_crafted_from_recipe_preview(
    recipe_preview: &RecipePreviewDialogState,
    inventory: &mut PlayerInventory,
    hand_crafted: &mut HandCraftedState,
    item_registry: &ItemRegistry,
    inventory_stack_max: u16,
)
    ensures
        (final(hand_crafted).input_slots@, final(inventory).slots@) == fill_grid_upto(
            *recipe_preview,
            old(hand_crafted).input_slots@,
            old(inventory).slots@,
            *item_registry,
            inventory_stack_max,
            HAND_CRAFTED_INPUT_SLOTS as int,
        ),
{
    fill_grid_exec(
        recipe_preview,
        inventory,
        &mut hand_crafted.input_slots,
        HAND_CRAFTED_INPUT_SLOTS,
        item_registry,
        inventory_stack_max,
    )
}

proof fn lemma_no_item_zero(inv: Seq<InventorySlot>)
    ensures
        item_total(inv, 0) == 0,
    decreases inv.len(),
{
    if inv.len() > 0 {
        lemma_no_item_zero(inv.drop_last());
    }
}

proof fn lemma_first_available_from(alts: Seq<ItemId>, inv: Seq<InventorySlot>, i: int)
    requires
        0 <= i,
    ensures
        first_available(alts, inv, i) matches Some(a) ==> exists|k: int|
            i <= k < alts.len() && alts[k] == a && item_total(inv, a) > 0 && forall|j: int|
                i <= j < k ==> item_total(inv, #[trigger] alts[j]) == 0,
        first_available(alts, inv, i) is None ==> forall|j: int|
            i <= j < alts.len() ==> item_total(inv, #[trigger] alts[j]) == 0,
    decreases alts.len() - i,
{
    lemma_no_item_zero(inv);
    if i < alts.len() {
        lemma_first_available_from(alts, inv, i + 1);
        if alts[i] != 0 && item_total(inv, alts[i]) > 0 {
        } else {
            assert(item_total(inv, alts[i]) == 0);
            if first_available(alts, inv, i + 1) is Some {
                let a = first_available(alts, inv, i + 1)->0;
                let k = choose|k: int|
                    i + 1 <= k < alts.len() && alts[k] == a && item_total(inv, a) > 0 && forall|j: int|
                        i + 1 <= j < k ==> item_total(inv, #[trigger] alts[j]) == 0;
                assert forall|j: int| i <= j < k implies item_total(inv, #[trigger] alts[j]) == 0 by {
                    if j > i {
                    }
                }
            }
        }
    }
}

/// Which item fills a grid slot: the slot's own item when it is one of the
/// alternatives; otherwise the first alternative, in list order, of which the
/// inventory holds any (every earlier alternative is absent from it); and
/// where the inventory holds none of them, the item the preview shows.
pub proof fn lemma_fill_item_choice(
    required: InventorySlot,
    alts: Seq<ItemId>,
    target: InventorySlot,
    inv: Seq<InventorySlot>,
)
    ensures
        !target.spec_is_empty() && alts.contains(target.item_id) ==> fill_item(required, alts, target, inv)
            == target.item_id,
        !(!target.spec_is_empty() && alts.contains(target.item_id)) && (exists|k: int|
            0 <= k < alts.len() && item_total(inv, #[trigger] alts[k]) > 0) ==> exists|k: int|
            0 <= k < alts.len() && fill_item(required, alts, target, inv) == alts[k] && item_total(
                inv,
                alts[k],
            ) > 0 && forall|j: int| 0 <= j < k ==> item_total(inv, #[trigger] alts[j]) == 0,
        !(!target.spec_is_empty() && alts.contains(target.item_id)) && (forall|k: int|
            0 <= k < alts.len() ==> item_total(inv, #[trigger] alts[k]) == 0) ==> fill_item(
            required,
            alts,
            target,
            inv,
        ) == required.item_id,
{
    lemma_first_available_from(alts, inv, 0);
    if !(!target.spec_is_empty() && alts.contains(target.item_id)) {
        if exists|k: int| 0 <= k < alts.len() && item_total(inv, #[trigger] alts[k]) > 0 {
            let k = choose|k: int| 0 <= k < alts.len() && item_total(inv, #[trigger] alts[k]) > 0;
            assert(first_available(alts, inv, 0) is Some);
        }
    }
}

} // verus!
