//! The player's inventory and the crafting/chest slot grids: counting and
//! taking items, and shift-click transfers between grids.
use vstd::prelude::*;
use crate::slots::{ItemId, InventorySlot, empty_slot, held};

verus! {

/// The player's inventory: a fixed row of slots (the first ones form the hotbar).
pub struct PlayerInventory {
    pub slots: Vec<InventorySlot>,
}

/// The hand-crafting input grid.
pub struct HandCraftedState {
    pub input_slots: Vec<InventorySlot>,
}

/// The work-table crafting input grid.
pub struct WorkTableCraftingState {
    pub input_slots: Vec<InventorySlot>,
}

/// The slots of the open chest, and the two storage columns of the workbench.
pub struct ChestInventoryUiState {
    pub slots: Vec<InventorySlot>,
    pub workbench_left: Vec<InventorySlot>,
    pub workbench_right: Vec<InventorySlot>,
}

/// How many of item `id` the slots hold in total.
pub open spec fn item_total(s: Seq<InventorySlot>, id: ItemId) -> nat
    decreases s.len(),
{
    if s.len() == 0 {
        0
    } else {
        item_total(s.drop_last(), id) + held(s.last(), id)
    }
}

/// The total of an item over a slot followed by more slots.
pub proof fn lemma_item_total_cons(x: InventorySlot, s: Seq<InventorySlot>, id: ItemId)
    ensures
        item_total(seq![x] + s, id) == held(x, id) + item_total(s, id),
    decreases s.len(),
{
    if s.len() == 0 {
        assert((seq![x] + s).drop_last() =~= Seq::<InventorySlot>::empty());
        assert((seq![x] + s).last() == x);
        assert(item_total(Seq::<InventorySlot>::empty(), id) == 0);
    } else {
        lemma_item_total_cons(x, s.drop_last(), id);
        assert((seq![x] + s).drop_last() =~= seq![x] + s.drop_last());
        assert((seq![x] + s).last() == s.last());
    }
}

/// Every slot holding item `id` lies in the given sequence's total.
pub proof fn lemma_item_total_prefix(s: Seq<InventorySlot>, i: int, id: ItemId)
    requires
        0 <= i < s.len(),
    ensures
        item_total(s.subrange(0, i + 1), id) == item_total(s.subrange(0, i), id) + held(s[i], id),
{
    assert(s.subrange(0, i + 1).drop_last() =~= s.subrange(0, i));
}

/// How many items the slots hold in all (empty slots count nothing).
pub open spec fn slots_total(s: Seq<InventorySlot>) -> nat
    decreases s.len(),
{
    if s.len() == 0 {
        0
    } else {
        slots_total(s.drop_last()) + if s.last().spec_is_empty() {
            0
        } else {
            s.last().count as nat
        }
    }
}

pub open spec fn sat64(n: nat) -> u64 {
    if n > u64::MAX {
        u64::MAX
    } else {
        n as u64
    }
}

impl PlayerInventory {
    /// The number of items in the inventory, saturating at `u64::MAX`.
    pub fn total_items(&self) -> (r: u64)
        ensures
            r == sat64(slots_total(self.slots@)),
    {
        let mut total: u64 = 0;
        let mut i: usize = 0;
        while i < self.slots.len()
            invariant
                i <= self.slots@.len(),
                total == sat64(slots_total(self.slots@.subrange(0, i as int))),
            decreases self.slots.len() - i,
        {
            let slot = self.slots[i];
            assert(self.slots@.subrange(0, i + 1).drop_last() =~= self.slots@.subrange(0, i as int));
            if !slot.is_empty() {
                total = total.saturating_add(slot.count as u64);
            }
            i = i + 1;
        }
        assert(self.slots@.subrange(0, i as int) =~= self.slots@);
        total
    }
}

/// How many of item `id` the inventory holds, saturating at `u16::MAX`.
pub open spec fn sat16(n: nat) -> u16 {
    if n > u16::MAX {
        u16::MAX
    } else {
        n as u16
    }
}

/// Total count of `item_id` in the inventory (0 for the empty item id),
/// saturating at `u16::MAX`.
pub fn count_item_in_inventory(inventory: &PlayerInventory, item_id: ItemId) -> (r: u16)
    ensures
        item_id == 0 ==> r == 0,
        item_id != 0 ==> r == sat16(item_total(inventory.slots@, item_id)),
{
    if item_id == 0 {
        return 0;
    }
    let mut count: u16 = 0;
    let mut i: usize = 0;
    while i < inventory.slots.len()
        invariant
            item_id != 0,
            i <= inventory.slots@.len(),
            count == sat16(item_total(inventory.slots@.subrange(0, i as int), item_id)),
        decreases inventory.slots.len() - i,
    {
        let slot = inventory.slots[i];
        proof {
            lemma_item_total_prefix(inventory.slots@, i as int, item_id);
        }
        if slot.item_id == item_id {
            count = count.saturating_add(slot.count);
        }
        i = i + 1;
    }
    assert(inventory.slots@.subrange(0, inventory.slots@.len() as int) =~= inventory.slots@);
    count
}

// ---------------------------------------------------------------------------
// Taking items
// ---------------------------------------------------------------------------

/// The slots after taking up to `amount` of item `id`, front to back.
pub open spec fn take_items_seq(s: Seq<InventorySlot>, id: ItemId, amount: nat) -> Seq<InventorySlot>
    decreases s.len(),
{
    if s.len() == 0 {
        s
    } else {
        let head = s[0];
        if amount == 0 || head.spec_is_empty() || head.item_id != id {
            seq![head] + take_items_seq(s.drop_first(), id, amount)
        } else {
            let take: nat = if (head.count as nat) < amount {
                head.count as nat
            } else {
                amount
            };
            let left = (head.count - take) as u16;
            let new_head = if left == 0 {
                empty_slot()
            } else {
                InventorySlot { count: left, ..head }
            };
            seq![new_head] + take_items_seq(s.drop_first(), id, (amount - take) as nat)
        }
    }
}

/// How many items `take_items_seq` takes.
pub open spec fn taken_count(s: Seq<InventorySlot>, id: ItemId, amount: nat) -> nat
    decreases s.len(),
{
    if s.len() == 0 {
        0
    } else {
        let head = s[0];
        if amount == 0 || head.spec_is_empty() || head.item_id != id {
            taken_count(s.drop_first(), id, amount)
        } else {
            let take: nat = if (head.count as nat) < amount {
                head.count as nat
            } else {
                amount
            };
            take + taken_count(s.drop_first(), id, (amount - take) as nat)
        }
    }
}

/// Taking no items changes nothing.
pub proof fn lemma_take_nothing(s: Seq<InventorySlot>, id: ItemId)
    ensures
        take_items_seq(s, id, 0) == s,
        taken_count(s, id, 0) == 0,
    decreases s.len(),
{
    if s.len() > 0 {
        lemma_take_nothing(s.drop_first(), id);
        assert(seq![s[0]] + s.drop_first() =~= s);
    }
}

/// Taking takes the smaller of `amount` and what is there, and leaves the rest;
/// other items are untouched.
pub proof fn lemma_take_items_totals(s: Seq<InventorySlot>, id: ItemId, amount: nat)
    requires
        id != 0,
    ensures
        taken_count(s, id, amount) == if amount < item_total(s, id) {
            amount
        } else {
            item_total(s, id)
        },
        item_total(take_items_seq(s, id, amount), id) + taken_count(s, id, amount) == item_total(
            s,
            id,
        ),
        forall|other: ItemId|
            other != id ==> item_total(#[trigger] take_items_seq(s, id, amount), other)
                == item_total(s, other),
        take_items_seq(s, id, amount).len() == s.len(),
    decreases s.len(),
{
    if s.len() > 0 {
        let head = s[0];
        let rest = s.drop_first();
        assert(seq![head] + rest =~= s);
        lemma_item_total_cons(head, rest, id);
        if amount == 0 || head.spec_is_empty() || head.item_id != id {
            lemma_take_items_totals(rest, id, amount);
            lemma_item_total_cons(head, take_items_seq(rest, id, amount), id);
            assert forall|other: ItemId|
                other != id implies item_total(#[trigger] take_items_seq(s, id, amount), other)
                == item_total(s, other) by {
                lemma_item_total_cons(head, take_items_seq(rest, id, amount), other);
                lemma_item_total_cons(head, rest, other);
            }
        } else {
            let take: nat = if (head.count as nat) < amount {
                head.count as nat
            } else {
                amount
            };
            let left = (head.count - take) as u16;
            let new_head = if left == 0 {
                empty_slot()
            } else {
                InventorySlot { count: left, ..head }
            };
            lemma_take_items_totals(rest, id, (amount - take) as nat);
            lemma_item_total_cons(new_head, take_items_seq(rest, id, (amount - take) as nat), id);
            assert forall|other: ItemId|
                other != id implies item_total(#[trigger] take_items_seq(s, id, amount), other)
                == item_total(s, other) by {
                lemma_item_total_cons(
                    new_head,
                    take_items_seq(rest, id, (amount - take) as nat),
                    other,
                );
                lemma_item_total_cons(head, rest, other);
            }
        }
    }
}

/// Removes up to `amount` of `item_id` from the inventory, front to back;
/// returns how many were removed.
pub fn take_items_from_inventory(inventory: &mut PlayerInventory, item_id: ItemId, amount: u16) -> (r:
    u16)
    ensures
        item_id == 0 || amount == 0 ==> r == 0 && final(inventory).slots@ == old(inventory).slots@,
        item_id != 0 && amount != 0 ==> final(inventory).slots@ == take_items_seq(
            old(inventory).slots@,
            item_id,
            amount as nat,
        ) && r as nat == taken_count(old(inventory).slots@, item_id, amount as nat),
{
    if item_id == 0 || amount == 0 {
        return 0;
    }
    let ghost s0 = inventory.slots@;
    let mut remaining: u16 = amount;
    let mut moved: u16 = 0;
    let mut i: usize = 0;
    assert(s0.subrange(0, s0.len() as int) =~= s0);
    assert(inventory.slots@.subrange(0, 0) + s0 =~= s0);
    while i < inventory.slots.len() && remaining > 0
        invariant
            inventory.slots@.len() == s0.len(),
            i <= s0.len(),
            item_id != 0,
            inventory.slots@.subrange(i as int, s0.len() as int) == s0.subrange(
                i as int,
                s0.len() as int,
            ),
            take_items_seq(s0, item_id, amount as nat) == inventory.slots@.subrange(0, i as int)
                + take_items_seq(s0.subrange(i as int, s0.len() as int), item_id, remaining as nat),
            taken_count(s0, item_id, amount as nat) == moved as nat + taken_count(
                s0.subrange(i as int, s0.len() as int),
                item_id,
                remaining as nat,
            ),
            moved as nat + remaining as nat == amount as nat,
        decreases inventory.slots.len() - i,
    {
        let ghost rest = s0.subrange(i as int, s0.len() as int);
        proof {
            assert(rest[0] == inventory.slots@[i as int]);
            assert(rest.drop_first() =~= s0.subrange(i + 1, s0.len() as int));
        }
        let slot = inventory.slots[i];
        if slot.is_empty() || slot.item_id != item_id {
            proof {
                assert(take_items_seq(rest, item_id, remaining as nat) == seq![slot]
                    + take_items_seq(rest.drop_first(), item_id, remaining as nat));
                assert(inventory.slots@.subrange(0, i as int) + (seq![slot] + take_items_seq(rest.drop_first(), item_id, remaining as nat))
                    =~= (inventory.slots@.subrange(0, i as int) + seq![slot]) + take_items_seq(rest.drop_first(), item_id, remaining as nat));
                assert(inventory.slots@.subrange(0, i + 1) =~= inventory.slots@.subrange(0, i as int)
                    + seq![slot]);
                assert(inventory.slots@.subrange(i + 1, s0.len() as int) =~= s0.subrange(
                    i + 1,
                    s0.len() as int,
                ));
            }
            i = i + 1;
            continue;
        }
        let take: u16 = if slot.count < remaining {
            slot.count
        } else {
            remaining
        };
        let new_count: u16 = slot.count - take;
        let new_slot = if new_count == 0 {
            InventorySlot::empty()
        } else {
            InventorySlot { item_id: slot.item_id, count: new_count }
        };
        let ghost prefix = inventory.slots@.subrange(0, i as int);
        let ghost old_remaining = remaining;
        inventory.slots.set(i, new_slot);
        moved = moved + take;
        remaining = remaining - take;
        proof {
            assert(take_items_seq(rest, item_id, old_remaining as nat) == seq![new_slot]
                + take_items_seq(rest.drop_first(), item_id, remaining as nat));
            assert(taken_count(rest, item_id, old_remaining as nat) == take as nat + taken_count(
                rest.drop_first(),
                item_id,
                remaining as nat,
            ));
            assert(inventory.slots@.subrange(0, i + 1) =~= prefix + seq![new_slot]);
            assert(inventory.slots@.subrange(i + 1, s0.len() as int) =~= s0.subrange(
                i + 1,
                s0.len() as int,
            ));
            assert(prefix + (seq![new_slot] + take_items_seq(rest.drop_first(), item_id, remaining as nat))
                =~= (prefix + seq![new_slot]) + take_items_seq(rest.drop_first(), item_id, remaining as nat));
        }
        i = i + 1;
    }
    proof {
        let rest = s0.subrange(i as int, s0.len() as int);
        if i == s0.len() {
            assert(rest =~= Seq::<InventorySlot>::empty());
            assert(inventory.slots@.subrange(0, i as int) =~= inventory.slots@);
        } else {
            lemma_take_nothing(rest, item_id);
            assert(inventory.slots@.subrange(0, i as int) + rest =~= inventory.slots@);
        }
    }
    moved
}

/// Taking items from the inventory and then counting them: the count drops by
/// exactly what was taken, which is the smaller of the request and the count.
pub proof fn lemma_take_then_count(s: Seq<InventorySlot>, id: ItemId, amount: nat)
    requires
        id != 0,
    ensures
        item_total(take_items_seq(s, id, amount), id) == item_total(s, id) - taken_count(
            s,
            id,
            amount,
        ),
        taken_count(s, id, amount) == if amount < item_total(s, id) {
            amount
        } else {
            item_total(s, id)
        },
{
    lemma_take_items_totals(s, id, amount);
}

// ---------------------------------------------------------------------------
// Shift-click transfers into a grid
// ---------------------------------------------------------------------------

/// Index of the first empty slot at or after `i`.
pub open spec fn first_empty_from(s: Seq<InventorySlot>, i: int) -> Option<int>
    decreases s.len() - i,
{
    if i < 0 || i >= s.len() {
        None
    } else if s[i].spec_is_empty() {
        Some(i)
    } else {
        first_empty_from(s, i + 1)
    }
}

/// The first empty slot found at or after `i` is empty and lies in the inventory.
pub proof fn lemma_first_empty_from(s: Seq<InventorySlot>, i: int)
    requires
        0 <= i,
    ensures
        first_empty_from(s, i) matches Some(j) ==> i <= j < s.len() && s[j].spec_is_empty(),
    decreases s.len() - i,
{
    if i < s.len() && !s[i].spec_is_empty() {
        lemma_first_empty_from(s, i + 1);
    }
}

/// `slots.iter().position(InventorySlot::is_empty)`.
pub fn first_empty_index(slots: &Vec<InventorySlot>) -> (r: Option<usize>)
    ensures
        match first_empty_from(slots@, 0) {
            Some(j) => r == Some(j as usize),
            None => r is None,
        },
{
    let mut i: usize = 0;
    while i < slots.len()
        invariant
            i <= slots@.len(),
            first_empty_from(slots@, 0) == first_empty_from(slots@, i as int),
        decreases slots.len() - i,
    {
        if slots[i].is_empty() {
            return Some(i);
        }
        i = i + 1;
    }
    None
}

/// Outcome of moving player slot `index` into the first empty slot of `dest`:
/// whether it happened, the player's slots after it, `dest` after it.
pub open spec fn move_to_first_empty(
    src: Seq<InventorySlot>,
    index: int,
    dest: Seq<InventorySlot>,
) -> (bool, Seq<InventorySlot>, Seq<InventorySlot>) {
    if index < 0 || index >= src.len() || src[index].spec_is_empty() {
        (false, src, dest)
    } else {
        match first_empty_from(dest, 0) {
            Some(j) => (true, src.update(index, empty_slot()), dest.update(j, src[index])),
            None => (false, src, dest),
        }
    }
}

fn move_player_slot_to_first_empty(
    slot_index: usize,
    inventory: &mut PlayerInventory,
    dest: &mut Vec<InventorySlot>,
) -> (r: bool)
    ensures
        (r, final(inventory).slots@, final(dest)@) == move_to_first_empty(
            old(inventory).slots@,
            slot_index as int,
            old(dest)@,
        ),
{
    if slot_index >= inventory.slots.len() {
        return false;
    }
    let source_slot = inventory.slots[slot_index];
    if source_slot.is_empty() {
        return false;
    }
    match first_empty_index(dest) {
        Some(free_index) => {
            proof {
                lemma_first_empty_from(dest@, 0);
                let fe = first_empty_from(dest@, 0);
                assert(fe is Some);
                let j = fe->0;
                assert(0 <= j < dest@.len());
                assert(j as usize == free_index);
            }
            dest.set(free_index, source_slot);
            inventory.slots.set(slot_index, InventorySlot::empty());
            true
        },
        None => false,
    }
}

/// Shift-click on a player slot with the hand-crafting grid open.
pub fn transfer_player_slot_to_hand_crafted(
    slot_index: usize,
    inventory: &mut PlayerInventory,
    hand_crafted: &mut HandCraftedState,
) -> (r: bool)
    ensures
        (r, final(inventory).slots@, final(hand_crafted).input_slots@) == move_to_first_empty(
            old(inventory).slots@,
            slot_index as int,
            old(hand_crafted).input_slots@,
        ),
{
    move_player_slot_to_first_empty(slot_index, inventory, &mut hand_crafted.input_slots)
}

/// Shift-click on a player slot with the workbench open.
pub fn transfer_player_slot_to_work_table(
    slot_index: usize,
    inventory: &mut PlayerInventory,
    work_table: &mut WorkTableCraftingState,
) -> (r: bool)
    ensures
        (r, final(inventory).slots@, final(work_table).input_slots@) == move_to_first_empty(
            old(inventory).slots@,
            slot_index as int,
            old(work_table).input_slots@,
        ),
{
    move_player_slot_to_first_empty(slot_index, inventory, &mut work_table.input_slots)
}

/// Shift-click on a player slot with a chest open.
pub fn transfer_player_slot_to_chest(
    slot_index: usize,
    inventory: &mut PlayerInventory,
    chest_inventory: &mut ChestInventoryUiState,
) -> (r: bool)
    ensures
        (r, final(inventory).slots@, final(chest_inventory).slots@) == move_to_first_empty(
            old(inventory).slots@,
            slot_index as int,
            old(chest_inventory).slots@,
        ),
        final(chest_inventory).workbench_left@ == old(chest_inventory).workbench_left@,
        final(chest_inventory).workbench_right@ == old(chest_inventory).workbench_right@,
{
    move_player_slot_to_first_empty(slot_index, inventory, &mut chest_inventory.slots)
}

/// A shift-click transfer moves the stack and loses nothing: for every item,
/// the two grids together hold as much as before.
pub proof fn lemma_transfer_conserves_items(
    src: Seq<InventorySlot>,
    index: int,
    dest: Seq<InventorySlot>,
    id: ItemId,
)
    ensures
        ({
            let o = move_to_first_empty(src, index, dest);
            item_total(o.1, id) + item_total(o.2, id) == item_total(src, id) + item_total(dest, id)
        }),
{
    let o = move_to_first_empty(src, index, dest);
    if o.0 {
        let j = first_empty_from(dest, 0)->0;
        lemma_first_empty_from(dest, 0);
        lemma_item_total_update(src, index, empty_slot(), id);
        lemma_item_total_update(dest, j, src[index], id);
    }
}

/// Replacing one slot changes the total by the difference of the two slots.
pub proof fn lemma_item_total_update(s: Seq<InventorySlot>, i: int, x: InventorySlot, id: ItemId)
    requires
        0 <= i < s.len(),
    ensures
        item_total(s.update(i, x), id) + held(s[i], id) == item_total(s, id) + held(x, id),
    decreases s.len(),
{
    let t = s.update(i, x);
    if i == s.len() - 1 {
        assert(t.drop_last() =~= s.drop_last());
    } else {
        assert(t.drop_last() =~= s.drop_last().update(i, x));
        lemma_item_total_update(s.drop_last(), i, x, id);
    }
}

} // verus!
