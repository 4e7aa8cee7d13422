//! Adding items to the player's inventory: first onto the stacks of the same
//! item that still have room, then into empty slots; and the shift-click and
//! flush moves that hand a grid's items back to the inventory that way.
use vstd::prelude::*;
use crate::slots::{ItemId, InventorySlot, empty_slot, held, stack_cap};
use crate::inventory::{
    PlayerInventory, HandCraftedState, WorkTableCraftingState, ChestInventoryUiState, item_total,
    lemma_item_total_cons, lemma_item_total_update,
};
use crate::registry::ItemRegistry;

verus! {

/// How many more of `id` slot `s` takes in the given pass: in the merge pass
/// a stack of `id` takes up to `cap`; in the fill pass an empty slot takes `cap`.
pub open spec fn slot_room(s: InventorySlot, id: ItemId, cap: nat, fill: bool) -> nat {
    if fill {
        if s.spec_is_empty() {
            cap
        } else {
            0
        }
    } else if !s.spec_is_empty() && s.item_id == id && (s.count as nat) < cap {
        (cap - s.count) as nat
    } else {
        0
    }
}

pub open spec fn min_nat(a: nat, b: nat) -> nat {
    if a < b {
        a
    } else {
        b
    }
}

/// Slot `s` after it was offered `rem` items of `id`, and how many are left.
pub open spec fn stack_step(s: InventorySlot, id: ItemId, rem: nat, cap: nat, fill: bool) -> (
    InventorySlot,
    nat,
) {
    let add = min_nat(rem, slot_room(s, id, cap, fill));
    if add == 0 {
        (s, rem)
    } else if fill {
        (InventorySlot { item_id: id, count: add as u16 }, (rem - add) as nat)
    } else {
        (InventorySlot { item_id: s.item_id, count: (s.count + add) as u16 }, (rem - add) as nat)
    }
}

/// One pass over the slots, front to back.
pub open spec fn stack_pass(s: Seq<InventorySlot>, id: ItemId, rem: nat, cap: nat, fill: bool) -> (
    Seq<InventorySlot>,
    nat,
)
    decreases s.len(),
{
    if s.len() == 0 {
        (s, rem)
    } else {
        let (x, r1) = stack_step(s[0], id, rem, cap, fill);
        let (t, r2) = stack_pass(s.drop_first(), id, r1, cap, fill);
        (seq![x] + t, r2)
    }
}

/// Total room for `id` in a pass.
pub open spec fn pass_room(s: Seq<InventorySlot>, id: ItemId, cap: nat, fill: bool) -> nat
    decreases s.len(),
{
    if s.len() == 0 {
        0
    } else {
        slot_room(s[0], id, cap, fill) + pass_room(s.drop_first(), id, cap, fill)
    }
}

/// The slots after adding `count` of `id` with per-slot cap `cap`, and the
/// leftover that did not fit. Nothing is added for the empty item id.
pub open spec fn add_items(s: Seq<InventorySlot>, id: ItemId, count: nat, cap: nat) -> (
    Seq<InventorySlot>,
    nat,
) {
    if id == 0 || count == 0 {
        (s, count)
    } else {
        let merged = stack_pass(s, id, count, cap, false);
        stack_pass(merged.0, id, merged.1, cap, true)
    }
}

/// All the room there is for `id`: space on its stacks and the empty slots.
pub open spec fn room_for(s: Seq<InventorySlot>, id: ItemId, cap: nat) -> nat {
    pass_room(s, id, cap, false) + pass_room(s, id, cap, true)
}

/// The per-slot cap the inventory uses for item `id`.
pub open spec fn item_cap(registry: ItemRegistry, id: ItemId, inventory_stack_max: u16) -> nat {
    stack_cap(registry.spec_stack_limit(id), inventory_stack_max) as nat
}

proof fn lemma_step(s: InventorySlot, id: ItemId, rem: nat, cap: nat, fill: bool, other: ItemId)
    requires
        id != 0,
        cap <= u16::MAX,
    ensures
        ({
            let (x, r) = stack_step(s, id, rem, cap, fill);
            &&& held(x, id) + r == held(s, id) + rem
            &&& other != id ==> held(x, other) == held(s, other)
            &&& r == rem - min_nat(rem, slot_room(s, id, cap, fill))
            &&& x.spec_is_empty() == (s.spec_is_empty() && r == rem)
            &&& !fill ==> x.spec_is_empty() == s.spec_is_empty()
            &&& fill ==> slot_room(x, id, cap, false) <= cap
            &&& r <= rem
            &&& r == rem ==> x == s
        }),
{
}

/// One pass keeps every item: what it placed plus what is left is what was offered.
proof fn lemma_pass(s: Seq<InventorySlot>, id: ItemId, rem: nat, cap: nat, fill: bool, other: ItemId)
    requires
        id != 0,
        cap <= u16::MAX,
    ensures
        ({
            let (t, r) = stack_pass(s, id, rem, cap, fill);
            &&& t.len() == s.len()
            &&& item_total(t, id) + r == item_total(s, id) + rem
            &&& other != id ==> item_total(t, other) == item_total(s, other)
            &&& r == rem - min_nat(rem, pass_room(s, id, cap, fill))
            &&& !fill ==> pass_room(t, id, cap, true) == pass_room(s, id, cap, true)
            &&& r <= rem
            &&& r == rem ==> t == s
        }),
    decreases s.len(),
{
    if s.len() > 0 {
        let (x, r1) = stack_step(s[0], id, rem, cap, fill);
        lemma_step(s[0], id, rem, cap, fill, other);
        lemma_pass(s.drop_first(), id, r1, cap, fill, other);
        let (t, r2) = stack_pass(s.drop_first(), id, r1, cap, fill);
        lemma_item_total_cons(x, t, id);
        lemma_item_total_cons(s[0], s.drop_first(), id);
        lemma_item_total_cons(x, t, other);
        lemma_item_total_cons(s[0], s.drop_first(), other);
        assert(seq![s[0]] + s.drop_first() =~= s);
        let tt = seq![x] + t;
        assert(tt[0] == x);
        assert(tt.drop_first() =~= t);
        if r2 == rem {
            assert(tt =~= s);
        }
    }
}

/// Adding keeps every item: the slots gain exactly what did not come back as
/// leftover, other items stay as they were, and the leftover is what exceeds
/// the room there was.
pub proof fn lemma_add_items(s: Seq<InventorySlot>, id: ItemId, count: nat, cap: nat, other: ItemId)
    requires
        id != 0,
        cap <= u16::MAX,
    ensures
        ({
            let (t, left) = add_items(s, id, count, cap);
            &&& t.len() == s.len()
            &&& item_total(t, id) + left == item_total(s, id) + count
            &&& other != id ==> item_total(t, other) == item_total(s, other)
            &&& left == count - min_nat(count, room_for(s, id, cap))
            &&& left <= count
            &&& left == count ==> t == s
        }),
{
    if count > 0 {
        let merged = stack_pass(s, id, count, cap, false);
        lemma_pass(s, id, count, cap, false, other);
        lemma_pass(merged.0, id, merged.1, cap, true, other);
    }
}

fn step_exec(s: InventorySlot, id: ItemId, rem: u16, cap: u16, fill: bool) -> (r: (InventorySlot, u16))
    ensures
        (r.0, r.1 as nat) == stack_step(s, id, rem as nat, cap as nat, fill),
{
    let room: u16 = if fill {
        if s.is_empty() {
            cap
        } else {
            0
        }
    } else if !s.is_empty() && s.item_id == id && s.count < cap {
        cap - s.count
    } else {
        0
    };
    let add: u16 = if rem < room {
        rem
    } else {
        room
    };
    if add == 0 {
        (s, rem)
    } else if fill {
        (InventorySlot { item_id: id, count: add }, rem - add)
    } else {
        (InventorySlot { item_id: s.item_id, count: s.count + add }, rem - add)
    }
}

fn pass_exec(slots: &mut Vec<InventorySlot>, id: ItemId, offered: u16, cap: u16, fill: bool) -> (r: u16)
    ensures
        (final(slots)@, r as nat) == stack_pass(old(slots)@, id, offered as nat, cap as nat, fill),
{
    let ghost s0 = slots@;
    let ghost n = s0.len() as int;
    let mut rem = offered;
    let mut i: usize = 0;
    proof {
        assert(s0.subrange(0, n) =~= s0);
        assert(slots@.subrange(0, 0) + stack_pass(s0, id, offered as nat, cap as nat, fill).0
            =~= stack_pass(s0, id, offered as nat, cap as nat, fill).0);
    }
    while i < slots.len()
        invariant
            s0 == old(slots)@,
            n == s0.len(),
            slots@.len() == n,
            i <= n,
            slots@.subrange(i as int, n) == s0.subrange(i as int, n),
            stack_pass(s0, id, offered as nat, cap as nat, fill) == (slots@.subrange(0, i as int)
                + stack_pass(s0.subrange(i as int, n), id, rem as nat, cap as nat, fill).0, stack_pass(
                s0.subrange(i as int, n),
                id,
                rem as nat,
                cap as nat,
                fill,
            ).1),
        decreases n - i,
    {
        let ghost before = slots@;
        let ghost suffix = s0.subrange(i as int, n);
        assert(suffix[0] == s0[i as int]);
        assert(suffix.drop_first() =~= s0.subrange(i + 1, n));
        let (x, r1) = step_exec(slots[i], id, rem, cap, fill);
        slots.set(i, x);
        rem = r1;
        proof {
            let (t, _r2) = stack_pass(s0.subrange(i + 1, n), id, rem as nat, cap as nat, fill);
            assert(slots@.subrange(0, i + 1) =~= before.subrange(0, i as int).push(x));
            assert(before.subrange(0, i as int) + (seq![x] + t) =~= slots@.subrange(0, i + 1) + t);
            assert(slots@.subrange(i + 1, n) =~= s0.subrange(i + 1, n));
        }
        i = i + 1;
    }
    proof {
        assert(slots@.subrange(0, n) =~= slots@);
        assert(s0.subrange(n, n) =~= Seq::<InventorySlot>::empty());
        assert(slots@ + Seq::<InventorySlot>::empty() =~= slots@);
    }
    rem
}

impl PlayerInventory {
    /// Adds `count` of item `item_id`: first onto stacks of that item with
    /// room, front to back, then into empty slots, front to back, never
    /// putting more than the item's cap in one slot. Returns the leftover
    /// that did not fit.
    pub fn add_item(
        &mut self,
        item_id: ItemId,
        count: u16,
        item_registry: &ItemRegistry,
        inventory_stack_max: u16,
    ) -> (leftover: u16)
        ensures
            (final(self).slots@, leftover as nat) == add_items(
                old(self).slots@,
                item_id,
                count as nat,
                item_cap(*item_registry, item_id, inventory_stack_max),
            ),
    {
        if item_id == 0 || count == 0 {
            return count;
        }
        let limit = item_registry.stack_limit(item_id);
        let cap = crate::slots::effective_stack_max(limit, inventory_stack_max);
        let rem = pass_exec(&mut self.slots, item_id, count, cap, false);
        pass_exec(&mut self.slots, item_id, rem, cap, true)
    }
}

/// Which of the workbench's two storage columns.
#[derive(Clone, Copy, PartialEq, Eq, Debug, Structural)]
pub enum WorkbenchStorageSide {
    Left,
    Right,
}

/// The slot after its stack was offered to the inventory and `left` came back.
pub open spec fn after_return(src: InventorySlot, left: nat) -> InventorySlot {
    if left == 0 {
        empty_slot()
    } else {
        InventorySlot { item_id: src.item_id, count: left as u16 }
    }
}

/// Outcome of a shift-click on grid slot `index`: whether anything moved, the
/// grid after it, the inventory after it. The stack goes into the inventory
/// as `add_item` places it; what does not fit stays in the grid slot.
pub open spec fn grid_slot_to_inventory(
    grid: Seq<InventorySlot>,
    index: int,
    inv: Seq<InventorySlot>,
    registry: ItemRegistry,
    inventory_stack_max: u16,
) -> (bool, Seq<InventorySlot>, Seq<InventorySlot>) {
    if index < 0 || index >= grid.len() || grid[index].spec_is_empty() {
        (false, grid, inv)
    } else {
        let src = grid[index];
        let (t, left) = add_items(
            inv,
            src.item_id,
            src.count as nat,
            item_cap(registry, src.item_id, inventory_stack_max),
        );
        if left == src.count {
            (false, grid, inv)
        } else {
            (true, grid.update(index, after_return(src, left)), t)
        }
    }
}

/// A shift-click from a grid into the inventory moves items and loses
/// none: for every item, the grid and the inventory together hold as many as
/// before.
pub proof fn lemma_grid_slot_to_inventory_conserves(
    grid: Seq<InventorySlot>,
    index: int,
    inv: Seq<InventorySlot>,
    registry: ItemRegistry,
    inventory_stack_max: u16,
    id: ItemId,
)
    ensures
        ({
            let o = grid_slot_to_inventory(grid, index, inv, registry, inventory_stack_max);
            &&& item_total(o.1, id) + item_total(o.2, id) == item_total(grid, id) + item_total(inv, id)
            &&& o.1.len() == grid.len()
            &&& o.2.len() == inv.len()
        }),
{
    if !(index < 0 || index >= grid.len() || grid[index].spec_is_empty()) {
        let src = grid[index];
        let cap = item_cap(registry, src.item_id, inventory_stack_max);
        lemma_add_items(inv, src.item_id, src.count as nat, cap, id);
        let (t, left) = add_items(inv, src.item_id, src.count as nat, cap);
        if left != src.count {
            lemma_item_total_update(grid, index, after_return(src, left), id);
        }
    }
}

fn grid_slot_to_inventory_exec(
    grid: &mut Vec<InventorySlot>,
    slot_index: usize,
    inventory: &mut PlayerInventory,
    item_registry: &ItemRegistry,
    inventory_stack_max: u16,
) -> (r: bool)
    ensures
        (r, final(grid)@, final(inventory).slots@) == grid_slot_to_inventory(
            old(grid)@,
            slot_index as int,
            old(inventory).slots@,
            *item_registry,
            inventory_stack_max,
        ),
{
    if slot_index >= grid.len() {
        return false;
    }
    let source_slot = grid[slot_index];
    if source_slot.is_empty() {
        return false;
    }
    let ghost cap = item_cap(*item_registry, source_slot.item_id, inventory_stack_max);
    proof {
        lemma_add_items(inventory.slots@, source_slot.item_id, source_slot.count as nat, cap, 0);
    }
    let leftover = inventory.add_item(
        source_slot.item_id,
        source_slot.count,
        item_registry,
        inventory_stack_max,
    );
    if leftover == source_slot.count {
        return false;
    }
    if leftover == 0 {
        grid.set(slot_index, InventorySlot::empty());
    } else {
        grid.set(slot_index, InventorySlot { item_id: source_slot.item_id, count: leftover });
    }
    true
}

/// Shift-click on a hand-crafting input slot: its stack goes back to the inventory.
pub fn transfer_hand_crafted_slot_to_inventory(
    slot_index: usize,
    hand_crafted: &mut HandCraftedState,
    inventory: &mut PlayerInventory,
    item_registry: &ItemRegistry,
    inventory_stack_max: u16,
) -> (r: bool)
    ensures
        (r, final(hand_crafted).input_slots@, final(inventory).slots@) == grid_slot_to_inventory(
            old(hand_crafted).input_slots@,
            slot_index as int,
            old(inventory).slots@,
            *item_registry,
            inventory_stack_max,
        ),
{
    grid_slot_to_inventory_exec(
        &mut hand_crafted.input_slots,
        slot_index,
        inventory,
        item_registry,
        inventory_stack_max,
    )
}

/// Shift-click on a work-table input slot: its stack goes back to the inventory.
pub fn transfer_work_table_slot_to_inventory(
    slot_index: usize,
    work_table: &mut WorkTableCraftingState,
    inventory: &mut PlayerInventory,
    item_registry: &ItemRegistry,
    inventory_stack_max: u16,
) -> (r: bool)
    ensures
        (r, final(work_table).input_slots@, final(inventory).slots@) == grid_slot_to_inventory(
            old(work_table).input_slots@,
            slot_index as int,
            old(inventory).slots@,
            *item_registry,
            inventory_stack_max,
        ),
{
    grid_slot_to_inventory_exec(
        &mut work_table.input_slots,
        slot_index,
        inventory,
        item_registry,
        inventory_stack_max,
    )
}

/// Shift-click on a chest slot: its stack goes into the inventory.
pub fn transfer_chest_slot_to_inventory(
    slot_index: usize,
    chest_inventory: &mut ChestInventoryUiState,
    inventory: &mut PlayerInventory,
    item_registry: &ItemRegistry,
    inventory_stack_max: u16,
) -> (r: bool)
    ensures
        (r, final(chest_inventory).slots@, final(inventory).slots@) == grid_slot_to_inventory(
            old(chest_inventory).slots@,
            slot_index as int,
            old(inventory).slots@,
            *item_registry,
            inventory_stack_max,
        ),
        final(chest_inventory).workbench_left@ == old(chest_inventory).workbench_left@,
        final(chest_inventory).workbench_right@ == old(chest_inventory).workbench_right@,
{
    grid_slot_to_inventory_exec(
        &mut chest_inventory.slots,
        slot_index,
        inventory,
        item_registry,
        inventory_stack_max,
    )
}

/// The storage column of the given side.
pub open spec fn side_slots(chest: ChestInventoryUiState, side: WorkbenchStorageSide) -> Seq<
    InventorySlot,
> {
    match side {
        WorkbenchStorageSide::Left => chest.workbench_left@,
        WorkbenchStorageSide::Right => chest.workbench_right@,
    }
}

/// Shift-click on a workbench storage slot: its stack goes into the
/// inventory; the other column and the chest grid stay as they were.
pub fn transfer_workbench_storage_slot_to_inventory(
    side: WorkbenchStorageSide,
    slot_index: usize,
    chest_inventory: &mut ChestInventoryUiState,
    inventory: &mut PlayerInventory,
    item_registry: &ItemRegistry,
    inventory_stack_max: u16,
) -> (r: bool)
    ensures
        (r, side_slots(*final(chest_inventory), side), final(inventory).slots@)
            == grid_slot_to_inventory(
            side_slots(*old(chest_inventory), side),
            slot_index as int,
            old(inventory).slots@,
            *item_registry,
            inventory_stack_max,
        ),
        final(chest_inventory).slots@ == old(chest_inventory).slots@,
        side == WorkbenchStorageSide::Left ==> final(chest_inventory).workbench_right@ == old(
            chest_inventory,
        ).workbench_right@,
        side == WorkbenchStorageSide::Right ==> final(chest_inventory).workbench_left@ == old(
            chest_inventory,
        ).workbench_left@,
{
    match side {
        WorkbenchStorageSide::Left => grid_slot_to_inventory_exec(
            &mut chest_inventory.workbench_left,
            slot_index,
            inventory,
            item_registry,
            inventory_stack_max,
        ),
        WorkbenchStorageSide::Right => grid_slot_to_inventory_exec(
            &mut chest_inventory.workbench_right,
            slot_index,
            inventory,
            item_registry,
            inventory_stack_max,
        ),
    }
}

/// One grid slot handed back: the slot after it and the inventory after it.
pub open spec fn return_slot(
    g: InventorySlot,
    inv: Seq<InventorySlot>,
    registry: ItemRegistry,
    inventory_stack_max: u16,
) -> (InventorySlot, Seq<InventorySlot>) {
    if g.spec_is_empty() {
        (g, inv)
    } else {
        let (t, left) = add_items(
            inv,
            g.item_id,
            g.count as nat,
            item_cap(registry, g.item_id, inventory_stack_max),
        );
        (after_return(g, left), t)
    }
}

/// Every slot of the grid handed back to the inventory, front to back: the
/// grid after it and the inventory after it.
pub open spec fn flush_grid(
    grid: Seq<InventorySlot>,
    inv: Seq<InventorySlot>,
    registry: ItemRegistry,
    inventory_stack_max: u16,
) -> (Seq<InventorySlot>, Seq<InventorySlot>)
    decreases grid.len(),
{
    if grid.len() == 0 {
        (grid, inv)
    } else {
        let (x, inv1) = return_slot(grid[0], inv, registry, inventory_stack_max);
        let (rest, inv2) = flush_grid(grid.drop_first(), inv1, registry, inventory_stack_max);
        (seq![x] + rest, inv2)
    }
}

/// Handing one stack back to the inventory loses nothing: what stays in
/// the slot and what the inventory gained make up the stack.
pub proof fn lemma_return_slot(
    g: InventorySlot,
    inv: Seq<InventorySlot>,
    registry: ItemRegistry,
    inventory_stack_max: u16,
    id: ItemId,
)
    ensures
        ({
            let (x, t) = return_slot(g, inv, registry, inventory_stack_max);
            &&& held(x, id) + item_total(t, id) == held(g, id) + item_total(inv, id)
            &&& t.len() == inv.len()
        }),
{
    if !g.spec_is_empty() {
        let cap = item_cap(registry, g.item_id, inventory_stack_max);
        lemma_add_items(inv, g.item_id, g.count as nat, cap, id);
    }
}

/// Handing a grid back to the inventory loses no item and makes none: for
/// every item, grid and inventory together hold as much as before.
pub proof fn lemma_flush_conserves_items(
    grid: Seq<InventorySlot>,
    inv: Seq<InventorySlot>,
    registry: ItemRegistry,
    inventory_stack_max: u16,
    id: ItemId,
)
    ensures
        ({
            let (g2, inv2) = flush_grid(grid, inv, registry, inventory_stack_max);
            &&& item_total(g2, id) + item_total(inv2, id) == item_total(grid, id) + item_total(inv, id)
            &&& g2.len() == grid.len()
            &&& inv2.len() == inv.len()
        }),
    decreases grid.len(),
{
    if grid.len() > 0 {
        let (x, inv1) = return_slot(grid[0], inv, registry, inventory_stack_max);
        lemma_return_slot(grid[0], inv, registry, inventory_stack_max, id);
        lemma_flush_conserves_items(grid.drop_first(), inv1, registry, inventory_stack_max, id);
        let (rest, inv2) = flush_grid(grid.drop_first(), inv1, registry, inventory_stack_max);
        lemma_item_total_cons(x, rest, id);
        lemma_item_total_cons(grid[0], grid.drop_first(), id);
        assert(seq![grid[0]] + grid.drop_first() =~= grid);
    }
}

fn flush_grid_exec(
    grid: &mut Vec<InventorySlot>,
    inventory: &mut PlayerInventory,
    item_registry: &ItemRegistry,
    inventory_stack_max: u16,
)
    ensures
        (final(grid)@, final(inventory).slots@) == flush_grid(
            old(grid)@,
            old(inventory).slots@,
            *item_registry,
            inventory_stack_max,
        ),
{
    let ghost g0 = grid@;
    let ghost inv0 = inventory.slots@;
    let ghost n = g0.len() as int;
    let ghost reg = *item_registry;
    let mut i: usize = 0;
    proof {
        assert(g0.subrange(0, n) =~= g0);
        assert(grid@.subrange(0, 0) + flush_grid(g0, inv0, reg, inventory_stack_max).0 =~= flush_grid(
            g0,
            inv0,
            reg,
            inventory_stack_max,
        ).0);
    }
    while i < grid.len()
        invariant
            g0 == old(grid)@,
            inv0 == old(inventory).slots@,
            reg == *item_registry,
            n == g0.len(),
            grid@.len() == n,
            i <= n,
            grid@.subrange(i as int, n) == g0.subrange(i as int, n),
            flush_grid(g0, inv0, reg, inventory_stack_max) == (grid@.subrange(0, i as int) + flush_grid(
                g0.subrange(i as int, n),
                inventory.slots@,
                reg,
                inventory_stack_max,
            ).0, flush_grid(g0.subrange(i as int, n), inventory.slots@, reg, inventory_stack_max).1),
        decreases n - i,
    {
        let ghost before = grid@;
        let ghost inv_before = inventory.slots@;
        let ghost suffix = g0.subrange(i as int, n);
        assert(suffix[0] == g0[i as int]);
        assert(suffix.drop_first() =~= g0.subrange(i + 1, n));
        let slot = grid[i];
        if !slot.is_empty() {
            let leftover = inventory.add_item(
                slot.item_id,
                slot.count,
                item_registry,
                inventory_stack_max,
            );
            if leftover == 0 {
                grid.set(i, InventorySlot::empty());
            } else {
                grid.set(i, InventorySlot { item_id: slot.item_id, count: leftover });
            }
        }
        proof {
            let (x, inv1) = return_slot(g0[i as int], inv_before, reg, inventory_stack_max);
            assert(grid@[i as int] == x);
            assert(inventory.slots@ == inv1);
            let (t, _inv2) = flush_grid(g0.subrange(i + 1, n), inv1, reg, inventory_stack_max);
            assert(grid@.subrange(0, i + 1) =~= before.subrange(0, i as int).push(x));
            assert(before.subrange(0, i as int) + (seq![x] + t) =~= grid@.subrange(0, i + 1) + t);
            assert(grid@.subrange(i + 1, n) =~= g0.subrange(i + 1, n));
        }
        i = i + 1;
    }
    proof {
        assert(grid@.subrange(0, n) =~= grid@);
        assert(g0.subrange(n, n) =~= Seq::<InventorySlot>::empty());
        assert(grid@ + Seq::<InventorySlot>::empty() =~= grid@);
    }
}

/// Closing the hand-crafting grid: every input stack goes back to the
/// inventory; what does not fit stays in its slot.
pub fn flush_hand_crafted_inputs_to_inventory(
    hand_crafted: &mut HandCraftedState,
    inventory: &mut PlayerInventory,
    item_registry: &ItemRegistry,
    inventory_stack_max: u16,
)
    ensures
        (final(hand_crafted).input_slots@, final(inventory).slots@) == flush_grid(
            old(hand_crafted).input_slots@,
            old(inventory).slots@,
            *item_registry,
            inventory_stack_max,
        ),
{
    flush_grid_exec(&mut hand_crafted.input_slots, inventory, item_registry, inventory_stack_max)
}

/// Closing the workbench: every work-table input stack goes back to the
/// inventory; what does not fit stays in its slot.
pub fn flush_work_table_inputs_to_inventory(
    work_table_crafting: &mut WorkTableCraftingState,
    inventory: &mut PlayerInventory,
    item_registry: &ItemRegistry,
    inventory_stack_max: u16,
)
    ensures
        (final(work_table_crafting).input_slots@, final(inventory).slots@) == flush_grid(
            old(work_table_crafting).input_slots@,
            old(inventory).slots@,
            *item_registry,
            inventory_stack_max,
        ),
{
    flush_grid_exec(
        &mut work_table_crafting.input_slots,
        inventory,
        item_registry,
        inventory_stack_max,
    )
}

/// The workbench's tool slots.
pub struct WorkbenchToolSlotsState {
    pub slots: Vec<InventorySlot>,
}

/// Closing the workbench: every tool goes back to the inventory; what does
/// not fit stays in its slot.
pub fn flush_workbench_tools_to_inventory(
    workbench_tools: &mut WorkbenchToolSlotsState,
    inventory: &mut PlayerInventory,
    item_registry: &ItemRegistry,
    inventory_stack_max: u16,
)
    ensures
        (final(workbench_tools).slots@, final(inventory).slots@) == flush_grid(
            old(workbench_tools).slots@,
            old(inventory).slots@,
            *item_registry,
            inventory_stack_max,
        ),
{
    flush_grid_exec(&mut workbench_tools.slots, inventory, item_registry, inventory_stack_max)
}

/// The item held on the mouse cursor.
pub struct InventoryCursorItemState {
    pub slot: InventorySlot,
}

/// Closing the inventory: the stack on the cursor goes back to the
/// inventory; what does not fit stays on the cursor.
pub fn flush_cursor_item_to_inventory(
    cursor_item: &mut InventoryCursorItemState,
    inventory: &mut PlayerInventory,
    item_registry: &ItemRegistry,
    inventory_stack_max: u16,
)
    ensures
        (final(cursor_item).slot, final(inventory).slots@) == return_slot(
            old(cursor_item).slot,
            old(inventory).slots@,
            *item_registry,
            inventory_stack_max,
        ),
{
    if cursor_item.slot.is_empty() {
        return;
    }
    let leftover = inventory.add_item(
        cursor_item.slot.item_id,
        cursor_item.slot.count,
        item_registry,
        inventory_stack_max,
    );
    if leftover == 0 {
        cursor_item.slot = InventorySlot::empty();
    } else {
        cursor_item.slot = InventorySlot { item_id: cursor_item.slot.item_id, count: leftover };
    }
}

} // verus!
