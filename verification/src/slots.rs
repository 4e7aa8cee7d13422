//! Inventory slots and the moves between a slot and the item held on the mouse
//! cursor: take all, take half, place one, place all.
//!
//! Each move is specified by a spec function giving the outcome (whether it
//! happened, the new slot, the new cursor) as a function of the old ones.
use vstd::prelude::*;
use crate::registry::ItemRegistry;

verus! {

pub type ItemId = u16;

/// One inventory slot: an item and how many of it. A slot whose item id or
/// count is zero holds nothing.
#[derive(Clone, Copy, PartialEq, Eq, Debug, Structural)]
pub struct InventorySlot {
    pub item_id: ItemId,
    pub count: u16,
}

/// The empty slot (`InventorySlot::default()`).
pub open spec fn empty_slot() -> InventorySlot {
    InventorySlot { item_id: 0, count: 0 }
}

impl InventorySlot {
    pub open spec fn spec_is_empty(&self) -> bool {
        self.item_id == 0 || self.count == 0
    }

    #[verifier::when_used_as_spec(spec_is_empty)]
    pub fn is_empty(&self) -> (r: bool)
        ensures
            r == self.spec_is_empty(),
    {
        self.item_id == 0 || self.count == 0
    }

    pub fn empty() -> (r: Self)
        ensures
            r == empty_slot(),
    {
        InventorySlot { item_id: 0, count: 0 }
    }
}

/// How many of item `id` the slot holds.
pub open spec fn held(s: InventorySlot, id: ItemId) -> nat {
    if !s.spec_is_empty() && s.item_id == id {
        s.count as nat
    } else {
        0
    }
}

/// The largest stack of an item that a slot takes: the registry's stack limit
/// for the item, capped by the inventory's stack limit, and at least one.
pub open spec fn stack_cap(registry_limit: u16, inventory_stack_max: u16) -> u16 {
    let m = if registry_limit < inventory_stack_max {
        registry_limit
    } else {
        inventory_stack_max
    };
    if m < 1 {
        1
    } else {
        m
    }
}

/// `stack_limit(item).min(inventory_stack_max).max(1)`.
pub fn effective_stack_max(registry_limit: u16, inventory_stack_max: u16) -> (r: u16)
    ensures
        r == stack_cap(registry_limit, inventory_stack_max),
        r >= 1,
{
    let m = if registry_limit < inventory_stack_max {
        registry_limit
    } else {
        inventory_stack_max
    };
    if m < 1 {
        1
    } else {
        m
    }
}

// ---------------------------------------------------------------------------
// Decrement
// ---------------------------------------------------------------------------

pub open spec fn decremented(s: InventorySlot) -> InventorySlot {
    if s.count <= 1 {
        empty_slot()
    } else {
        InventorySlot { count: (s.count - 1) as u16, ..s }
    }
}

/// Removes one item from the slot; the last one leaves it empty.
pub fn decrement_slot_count(slot: &mut InventorySlot)
    ensures
        *final(slot) == decremented(*old(slot)),
{
    if slot.count <= 1 {
        *slot = InventorySlot::empty();
    } else {
        slot.count = slot.count - 1;
    }
}

// ---------------------------------------------------------------------------
// Cursor moves
// ---------------------------------------------------------------------------

/// Outcome of a move: whether it happened, the slot after it, the cursor after it.
pub type MoveOutcome = (bool, InventorySlot, InventorySlot);

pub open spec fn take_all_outcome(slot: InventorySlot, cursor: InventorySlot) -> MoveOutcome {
    if slot.spec_is_empty() || !cursor.spec_is_empty() {
        (false, slot, cursor)
    } else {
        (true, empty_slot(), slot)
    }
}

/// Picks up the whole stack of `slot` onto the (empty) cursor.
pub fn take_all_from_slot_to_cursor(slot: &mut InventorySlot, cursor_slot: &mut InventorySlot) -> (r:
    bool)
    ensures
        (r, *final(slot), *final(cursor_slot)) == take_all_outcome(*old(slot), *old(cursor_slot)),
{
    if slot.is_empty() || !cursor_slot.is_empty() {
        return false;
    }
    *cursor_slot = *slot;
    *slot = InventorySlot::empty();
    true
}

pub open spec fn half_up(n: u16) -> u16 {
    ((n as nat + 1) / 2) as u16
}

pub open spec fn take_half_outcome(slot: InventorySlot, cursor: InventorySlot, stack_max: u16) -> MoveOutcome {
    if slot.spec_is_empty() {
        (false, slot, cursor)
    } else if !cursor.spec_is_empty() && cursor.item_id != slot.item_id {
        (false, slot, cursor)
    } else {
        let free: u16 = if cursor.spec_is_empty() {
            stack_max
        } else if cursor.count < stack_max {
            (stack_max - cursor.count) as u16
        } else {
            0
        };
        let want = half_up(slot.count);
        let take: u16 = if want < free {
            want
        } else {
            free
        };
        if free == 0 || take == 0 {
            (false, slot, cursor)
        } else {
            let new_cursor = if cursor.spec_is_empty() {
                InventorySlot { item_id: slot.item_id, count: take }
            } else {
                InventorySlot { count: (cursor.count + take) as u16, ..cursor }
            };
            let left = (slot.count - take) as u16;
            let new_slot = if left == 0 {
                empty_slot()
            } else {
                InventorySlot { count: left, ..slot }
            };
            (true, new_slot, new_cursor)
        }
    }
}

/// Picks up half of `slot` (rounded up) onto the cursor, as far as the cursor
/// stack (capped at the largest stack of the slot's item) has room.
pub fn take_half_from_slot_to_cursor(
    slot: &mut InventorySlot,
    cursor_slot: &mut InventorySlot,
    item_registry: &ItemRegistry,
    inventory_stack_max: u16,
) -> (r: bool)
    ensures
        (r, *final(slot), *final(cursor_slot)) == take_half_outcome(
            *old(slot),
            *old(cursor_slot),
            stack_cap(item_registry.spec_stack_limit(old(slot).item_id), inventory_stack_max),
        ),
{
    let stack_max = effective_stack_max(item_registry.stack_limit(slot.item_id), inventory_stack_max);
    if slot.is_empty() {
        return false;
    }
    if !cursor_slot.is_empty() && cursor_slot.item_id != slot.item_id {
        return false;
    }
    let free_capacity: u16 = if cursor_slot.is_empty() {
        stack_max
    } else {
        stack_max.saturating_sub(cursor_slot.count)
    };
    if free_capacity == 0 {
        return false;
    }
    let mut take_count: u16 = slot.count / 2 + slot.count % 2;
    assert(take_count == half_up(slot.count));
    if free_capacity < take_count {
        take_count = free_capacity;
    }
    if take_count == 0 {
        return false;
    }
    if cursor_slot.is_empty() {
        cursor_slot.item_id = slot.item_id;
        cursor_slot.count = 0;
    }
    cursor_slot.count = cursor_slot.count + take_count;
    slot.count = slot.count - take_count;
    if slot.count == 0 {
        *slot = InventorySlot::empty();
    }
    true
}

pub open spec fn place_one_outcome(slot: InventorySlot, cursor: InventorySlot, stack_max: u16) -> MoveOutcome {
    if cursor.spec_is_empty() {
        (false, slot, cursor)
    } else if slot.spec_is_empty() {
        (true, InventorySlot { item_id: cursor.item_id, count: 1 }, decremented(cursor))
    } else if slot.item_id != cursor.item_id || slot.count >= stack_max {
        (false, slot, cursor)
    } else {
        (true, InventorySlot { count: (slot.count + 1) as u16, ..slot }, decremented(cursor))
    }
}

/// Puts one item from the cursor into `slot` (empty, or holding the same item
/// below the largest stack of the cursor's item).
pub fn place_one_from_cursor(
    slot: &mut InventorySlot,
    cursor_slot: &mut InventorySlot,
    item_registry: &ItemRegistry,
    inventory_stack_max: u16,
) -> (r: bool)
    ensures
        (r, *final(slot), *final(cursor_slot)) == place_one_outcome(
            *old(slot),
            *old(cursor_slot),
            stack_cap(item_registry.spec_stack_limit(old(cursor_slot).item_id), inventory_stack_max),
        ),
{
    let stack_max = effective_stack_max(
        item_registry.stack_limit(cursor_slot.item_id),
        inventory_stack_max,
    );
    if cursor_slot.is_empty() {
        return false;
    }
    if slot.is_empty() {
        slot.item_id = cursor_slot.item_id;
        slot.count = 1;
        decrement_slot_count(cursor_slot);
        return true;
    }
    if slot.item_id != cursor_slot.item_id {
        return false;
    }
    if slot.count >= stack_max {
        return false;
    }
    slot.count = slot.count + 1;
    decrement_slot_count(cursor_slot);
    true
}

pub open spec fn min16(a: u16, b: u16) -> u16 {
    if a < b {
        a
    } else {
        b
    }
}

/// The cursor after `moved` of its items went into a slot.
pub open spec fn cursor_after_moving(cursor: InventorySlot, moved: u16) -> InventorySlot {
    if cursor.count - moved == 0 {
        empty_slot()
    } else {
        InventorySlot { count: (cursor.count - moved) as u16, ..cursor }
    }
}

pub open spec fn place_all_outcome(slot: InventorySlot, cursor: InventorySlot, stack_max: u16) -> MoveOutcome {
    if cursor.spec_is_empty() {
        (false, slot, cursor)
    } else if slot.spec_is_empty() {
        let mv = min16(cursor.count, stack_max);
        if mv == 0 {
            (false, slot, cursor)
        } else {
            (
                true,
                InventorySlot { item_id: cursor.item_id, count: mv },
                cursor_after_moving(cursor, mv),
            )
        }
    } else if slot.item_id != cursor.item_id {
        (true, cursor, slot)
    } else {
        let free: u16 = if slot.count < stack_max {
            (stack_max - slot.count) as u16
        } else {
            0
        };
        let mv = min16(cursor.count, free);
        if free == 0 || mv == 0 {
            (false, slot, cursor)
        } else {
            (
                true,
                InventorySlot { count: (slot.count + mv) as u16, ..slot },
                cursor_after_moving(cursor, mv),
            )
        }
    }
}

/// Puts as much of the cursor stack into `slot` as fits (at most the largest
/// stack of the cursor's item); a slot with another item is swapped with the
/// cursor.
pub fn place_all_from_cursor(
    slot: &mut InventorySlot,
    cursor_slot: &mut InventorySlot,
    item_registry: &ItemRegistry,
    inventory_stack_max: u16,
) -> (r: bool)
    ensures
        (r, *final(slot), *final(cursor_slot)) == place_all_outcome(
            *old(slot),
            *old(cursor_slot),
            stack_cap(item_registry.spec_stack_limit(old(cursor_slot).item_id), inventory_stack_max),
        ),
{
    let stack_max = effective_stack_max(
        item_registry.stack_limit(cursor_slot.item_id),
        inventory_stack_max,
    );
    if cursor_slot.is_empty() {
        return false;
    }
    if slot.is_empty() {
        let move_count: u16 = if cursor_slot.count < stack_max {
            cursor_slot.count
        } else {
            stack_max
        };
        if move_count == 0 {
            return false;
        }
        slot.item_id = cursor_slot.item_id;
        slot.count = move_count;
        cursor_slot.count = cursor_slot.count - move_count;
        if cursor_slot.count == 0 {
            *cursor_slot = InventorySlot::empty();
        }
        return true;
    }
    if slot.item_id != cursor_slot.item_id {
        let tmp = *slot;
        *slot = *cursor_slot;
        *cursor_slot = tmp;
        return true;
    }
    let free_capacity: u16 = stack_max.saturating_sub(slot.count);
    if free_capacity == 0 {
        return false;
    }
    let move_count: u16 = if cursor_slot.count < free_capacity {
        cursor_slot.count
    } else {
        free_capacity
    };
    if move_count == 0 {
        return false;
    }
    slot.count = slot.count + move_count;
    cursor_slot.count = cursor_slot.count - move_count;
    if cursor_slot.count == 0 {
        *cursor_slot = InventorySlot::empty();
    }
    true
}

// ---------------------------------------------------------------------------
// Laws of the cursor moves
// ---------------------------------------------------------------------------

/// No move creates or destroys items: for every item, slot and cursor together
/// hold as many of it after the move as before.
pub proof fn lemma_moves_conserve_items(
    slot: InventorySlot,
    cursor: InventorySlot,
    stack_max: u16,
    id: ItemId,
)
    ensures
        ({
            let o = take_all_outcome(slot, cursor);
            held(o.1, id) + held(o.2, id) == held(slot, id) + held(cursor, id)
        }),
        ({
            let o = take_half_outcome(slot, cursor, stack_max);
            held(o.1, id) + held(o.2, id) == held(slot, id) + held(cursor, id)
        }),
        ({
            let o = place_one_outcome(slot, cursor, stack_max);
            held(o.1, id) + held(o.2, id) == held(slot, id) + held(cursor, id)
        }),
        ({
            let o = place_all_outcome(slot, cursor, stack_max);
            held(o.1, id) + held(o.2, id) == held(slot, id) + held(cursor, id)
        }),
{
}

/// A move that does not happen leaves slot and cursor as they were.
pub proof fn lemma_refused_moves_change_nothing(slot: InventorySlot, cursor: InventorySlot, stack_max: u16)
    ensures
        !take_all_outcome(slot, cursor).0 ==> take_all_outcome(slot, cursor) == (false, slot, cursor),
        !take_half_outcome(slot, cursor, stack_max).0 ==> take_half_outcome(slot, cursor, stack_max)
            == (false, slot, cursor),
        !place_one_outcome(slot, cursor, stack_max).0 ==> place_one_outcome(slot, cursor, stack_max)
            == (false, slot, cursor),
        !place_all_outcome(slot, cursor, stack_max).0 ==> place_all_outcome(slot, cursor, stack_max)
            == (false, slot, cursor),
{
}

/// Picking up a whole stack and putting it all back restores slot and cursor,
/// when the stack is no larger than the stack cap.
pub proof fn lemma_take_all_then_place_all(slot: InventorySlot, stack_max: u16)
    requires
        !slot.spec_is_empty(),
        slot.count <= stack_max,
    ensures
        ({
            let t = take_all_outcome(slot, empty_slot());
            let p = place_all_outcome(t.1, t.2, stack_max);
            t.0 && p.0 && p.1 == slot && p.2 == empty_slot()
        }),
{
}

/// After a move the cursor stack, and a slot that received items, stay within
/// the stack cap when they were within it before.
pub proof fn lemma_moves_respect_stack_cap(slot: InventorySlot, cursor: InventorySlot, stack_max: u16)
    requires
        slot.count <= stack_max,
        cursor.count <= stack_max,
    ensures
        take_half_outcome(slot, cursor, stack_max).2.count <= stack_max,
        place_one_outcome(slot, cursor, stack_max).1.count <= stack_max,
        place_all_outcome(slot, cursor, stack_max).1.count <= stack_max,
{
}

} // verus!
