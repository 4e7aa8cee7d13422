//! Hotbar selection: mouse-wheel cycling, number keys, dropping the selected
//! item, and what the selection means for block placement.
use vstd::prelude::*;
use crate::slots::{ItemId, decremented, InventorySlot};
use crate::inventory::PlayerInventory;
use crate::registry::ItemRegistry;
use crate::text::{decimal_chars, decimal_string, text_equals, to_owned_string};
use crate::pause_menu::{UiStack, names, without, stack_view, retain_without, contains_name};

verus! {

/// One wheel step: up (towards lower slots, wrapping) or down.
pub open spec fn scroll_step(i: nat, up: bool, n: nat) -> nat
    recommends
        n > 0,
{
    if up {
        ((i + n - 1) % (n as int)) as nat
    } else {
        (((i + 1) as int) % (n as int)) as nat
    }
}

/// `k` wheel steps in one direction.
pub open spec fn scroll_steps(i: nat, k: nat, up: bool, n: nat) -> nat
    decreases k,
{
    if k == 0 {
        i
    } else {
        scroll_steps(scroll_step(i, up, n), (k - 1) as nat, up, n)
    }
}

/// The selected slot after the wheel moved `total_steps` (positive is up).
pub open spec fn scrolled_index(i: nat, total_steps: int, n: nat) -> nat {
    if total_steps > 0 {
        scroll_steps(i, total_steps as nat, true, n)
    } else {
        scroll_steps(i, (-total_steps) as nat, false, n)
    }
}

proof fn lemma_scroll_step_bound(i: nat, up: bool, n: nat)
    requires
        n > 0,
    ensures
        scroll_step(i, up, n) < n,
{
}

proof fn lemma_scroll_steps_last(i: nat, k: nat, up: bool, n: nat)
    requires
        n > 0,
        k > 0,
    ensures
        scroll_steps(i, k, up, n) == scroll_step(scroll_steps(i, (k - 1) as nat, up, n), up, n),
    decreases k,
{
    if k > 1 {
        lemma_scroll_steps_last(scroll_step(i, up, n), (k - 1) as nat, up, n);
        assert(scroll_steps(i, (k - 1) as nat, up, n) == scroll_steps(
            scroll_step(i, up, n),
            (k - 2) as nat,
            up,
            n,
        ));
    } else {
        assert(scroll_steps(scroll_step(i, up, n), 0, up, n) == scroll_step(i, up, n));
        assert(scroll_steps(i, 0, up, n) == i);
    }
}

proof fn lemma_scroll_steps_bound(i: nat, k: nat, up: bool, n: nat)
    requires
        n > 0,
        i < n,
    ensures
        scroll_steps(i, k, up, n) < n,
    decreases k,
{
    if k > 0 {
        lemma_scroll_step_bound(i, up, n);
        lemma_scroll_steps_bound(scroll_step(i, up, n), (k - 1) as nat, up, n);
    }
}

proof fn lemma_step_back(i: nat, up: bool, n: nat)
    requires
        n > 0,
        i < n,
    ensures
        scroll_step(scroll_step(i, up, n), !up, n) == i,
{
    if up {
        if i == 0 {
            assert((0 + n - 1) % (n as int) == n - 1) by (nonlinear_arith)
                requires
                    n > 0,
            ;
            assert((((n - 1) as nat + 1) as int) % (n as int) == 0) by (nonlinear_arith)
                requires
                    n > 0,
            ;
        } else {
            assert((i + n - 1) % (n as int) == i - 1) by (nonlinear_arith)
                requires
                    n > 0,
                    0 < i < n,
            ;
            assert((((i - 1) as nat + 1) as int) % (n as int) == i) by (nonlinear_arith)
                requires
                    0 < i < n,
            ;
        }
    } else {
        if i == n - 1 {
            assert(((i + 1) as int) % (n as int) == 0) by (nonlinear_arith)
                requires
                    i == n - 1,
                    n > 0,
            ;
            assert((0 + n - 1) % (n as int) == n - 1) by (nonlinear_arith)
                requires
                    n > 0,
            ;
        } else {
            assert(((i + 1) as int) % (n as int) == i + 1) by (nonlinear_arith)
                requires
                    i + 1 < n,
            ;
            assert(((i + 1) + n - 1) % (n as int) == i) by (nonlinear_arith)
                requires
                    i + 1 < n,
            ;
        }
    }
}

/// Scrolling `k` steps one way and `k` steps back returns to the slot one
/// started from.
pub proof fn lemma_scroll_round_trip(i: nat, k: nat, up: bool, n: nat)
    requires
        n > 0,
        i < n,
    ensures
        scroll_steps(scroll_steps(i, k, up, n), k, !up, n) == i,
        scroll_steps(i, k, up, n) < n,
    decreases k,
{
    lemma_scroll_steps_bound(i, k, up, n);
    if k > 0 {
        let j = scroll_steps(i, (k - 1) as nat, up, n);
        lemma_scroll_steps_last(i, k, up, n);
        lemma_scroll_steps_bound(i, (k - 1) as nat, up, n);
        lemma_step_back(j, up, n);
        lemma_scroll_round_trip(i, (k - 1) as nat, up, n);
    }
}

/// The selected hotbar slot after the wheel turned by `total_steps` (the sum of
/// the frame's wheel events, positive is up). Nothing changes while the chat is
/// open or while the hammer of a selected structure recipe is in hand.
pub fn cycle_hotbar_with_scroll(
    selected_index: usize,
    total_steps: i32,
    hotbar_slots: usize,
    chat_open: bool,
    hammer_in_use: bool,
) -> (r: usize)
    requires
        hotbar_slots > 0,
        hotbar_slots <= usize::MAX / 2,
        selected_index + hotbar_slots <= usize::MAX,
    ensures
        chat_open || hammer_in_use || total_steps == 0 ==> r == selected_index,
        !(chat_open || hammer_in_use || total_steps == 0) ==> r as nat == scrolled_index(
            selected_index as nat,
            total_steps as int,
            hotbar_slots as nat,
        ),
{
    if chat_open || hammer_in_use || total_steps == 0 {
        return selected_index;
    }
    let up = total_steps > 0;
    let steps: u32 = if up {
        total_steps as u32
    } else if total_steps == i32::MIN {
        2147483648u32
    } else {
        (-total_steps) as u32
    };
    assert(steps as int == if up {
        total_steps as int
    } else {
        -(total_steps as int)
    });
    let mut index: usize = selected_index;
    let mut done: u32 = 0;
    while done < steps
        invariant
            hotbar_slots > 0,
            selected_index + hotbar_slots <= usize::MAX,
            hotbar_slots <= usize::MAX / 2,
            done <= steps,
            index == selected_index || index < hotbar_slots,
            scroll_steps(selected_index as nat, steps as nat, up, hotbar_slots as nat)
                == scroll_steps(index as nat, (steps - done) as nat, up, hotbar_slots as nat),
        decreases steps - done,
    {
        let next: usize = if up {
            (index + hotbar_slots - 1) % hotbar_slots
        } else {
            (index + 1) % hotbar_slots
        };
        proof {
            lemma_scroll_step_bound(index as nat, up, hotbar_slots as nat);
        }
        assert(next as nat == scroll_step(index as nat, up, hotbar_slots as nat));
        index = next;
        done = done + 1;
    }
    index
}

/// The slot picked by the number keys: the first slot whose key was just
/// pressed (`pressed[i]` for slot `i`), unless game input is blocked.
pub open spec fn first_pressed_from(pressed: Seq<bool>, i: int) -> Option<int>
    decreases pressed.len() - i,
{
    if i < 0 || i >= pressed.len() {
        None
    } else if pressed[i] {
        Some(i)
    } else {
        first_pressed_from(pressed, i + 1)
    }
}

/// The selected hotbar slot after the number keys: `pressed` tells for each
/// hotbar slot whether its key was just pressed.
pub fn select_hotbar_with_number_keys(
    selected_index: usize,
    pressed: &Vec<bool>,
    blocks_game_input: bool,
) -> (r: usize)
    ensures
        blocks_game_input ==> r == selected_index,
        !blocks_game_input ==> match first_pressed_from(pressed@, 0) {
            Some(k) => r as int == k,
            None => r == selected_index,
        },
{
    if blocks_game_input {
        return selected_index;
    }
    let mut i: usize = 0;
    while i < pressed.len()
        invariant
            !blocks_game_input,
            i <= pressed@.len(),
            first_pressed_from(pressed@, 0) == first_pressed_from(pressed@, i as int),
        decreases pressed.len() - i,
    {
        if pressed[i] {
            return i;
        }
        i = i + 1;
    }
    selected_index
}

/// Whether the selected hotbar slot holds the hammer.
pub open spec fn hammer_selected(inv: Seq<InventorySlot>, selected_index: int, registry: ItemRegistry) -> bool {
    &&& 0 <= selected_index < inv.len()
    &&& !inv[selected_index].spec_is_empty()
    &&& registry.spec_has_def(inv[selected_index].item_id)
    &&& ({
        let d = registry.def_at(inv[selected_index].item_id);
        d.localized_name@ == "oplexa:hammer"@ || d.key@ == "hammer"@
    })
}

pub fn is_hammer_selected_for_hotbar(
    inventory: &PlayerInventory,
    selected_index: usize,
    item_registry: &ItemRegistry,
) -> (r: bool)
    ensures
        r == hammer_selected(inventory.slots@, selected_index as int, *item_registry),
{
    if selected_index >= inventory.slots.len() {
        return false;
    }
    let slot = inventory.slots[selected_index];
    if slot.is_empty() {
        return false;
    }
    if !item_registry.has_def(slot.item_id) {
        return false;
    }
    let def = &item_registry.defs[slot.item_id as usize];
    text_equals(def.localized_name.as_str(), "oplexa:hammer") || text_equals(def.key.as_str(), "hammer")
}

/// Drops one item of the selected hotbar slot when the drop key was pressed:
/// returns the dropped item (whose world spawn the caller performs). Nothing
/// happens while game input is blocked, in spectator mode, without a player,
/// or when the selected slot is outside the hotbar or empty.
pub fn drop_selected_hotbar_item(
    inventory: &mut PlayerInventory,
    selected_index: usize,
    hotbar_slots: usize,
    blocks_game_input: bool,
    spectator: bool,
    drop_key_pressed: bool,
    player_present: bool,
) -> (r: Option<ItemId>)
    ensures
        ({
            let s = old(inventory).slots@;
            let drops = !blocks_game_input && !spectator && drop_key_pressed && selected_index
                < hotbar_slots && selected_index < s.len() && !s[selected_index as int].spec_is_empty()
                && player_present;
            &&& drops ==> r == Some(s[selected_index as int].item_id) && final(inventory).slots@
                == s.update(selected_index as int, decremented(s[selected_index as int]))
            &&& !drops ==> r is None && final(inventory).slots@ == s
        }),
{
    if blocks_game_input || spectator || !drop_key_pressed {
        return None;
    }
    if selected_index >= hotbar_slots || selected_index >= inventory.slots.len() {
        return None;
    }
    let mut slot = inventory.slots[selected_index];
    if slot.is_empty() || !player_present {
        return None;
    }
    let dropped = slot.item_id;
    crate::slots::decrement_slot_count(&mut slot);
    inventory.slots.set(selected_index, slot);
    Some(dropped)
}

/// The block that the selected hotbar slot places (0, air, when none).
pub fn sync_hotbar_selected_block(
    inventory: &PlayerInventory,
    selected_index: usize,
    item_registry: &ItemRegistry,
) -> (r: u16)
    ensures
        ({
            let s = inventory.slots@;
            if 0 <= selected_index < s.len() && !s[selected_index as int].spec_is_empty()
                && item_registry.spec_has_def(s[selected_index as int].item_id)
                && item_registry.def_at(s[selected_index as int].item_id).block is Some {
                r == item_registry.def_at(s[selected_index as int].item_id).block->0
            } else {
                r == 0
            }
        }),
{
    if selected_index >= inventory.slots.len() {
        return 0;
    }
    let slot = inventory.slots[selected_index];
    if slot.is_empty() {
        return 0;
    }
    match item_registry.block_for_item(slot.item_id) {
        Some(block_id) => block_id,
        None => 0,
    }
}

/// What the hotbar tooltip does after a selection change.
#[derive(Clone, Copy, PartialEq, Eq, Debug, Structural)]
pub enum HotbarTooltipChange {
    /// The selection did not change.
    Unchanged,
    /// Show the name of this item (the caller restarts the tooltip's timer).
    Show(ItemId),
    /// The new slot holds nothing with a definition: hide the tooltip.
    Hide,
}

/// The hotbar tooltip names the item of a newly selected slot; it hides
/// when the slot is empty or its item has no definition. The last seen
/// selection follows the current one.
pub fn track_hotbar_selection_tooltip(
    inventory: &PlayerInventory,
    selected_index: usize,
    last_selected_index: &mut usize,
    item_registry: &ItemRegistry,
) -> (r: HotbarTooltipChange)
    ensures
        *final(last_selected_index) == selected_index,
        r == if selected_index == *old(last_selected_index) {
            HotbarTooltipChange::Unchanged
        } else if selected_index < inventory.slots@.len() && !inventory.slots@[selected_index as int].spec_is_empty()
            && item_registry.spec_has_def(inventory.slots@[selected_index as int].item_id) {
            HotbarTooltipChange::Show(inventory.slots@[selected_index as int].item_id)
        } else {
            HotbarTooltipChange::Hide
        },
{
    if selected_index == *last_selected_index {
        return HotbarTooltipChange::Unchanged;
    }
    *last_selected_index = selected_index;
    if selected_index < inventory.slots.len() {
        let slot = inventory.slots[selected_index];
        if !slot.is_empty() && item_registry.has_def(slot.item_id) {
            return HotbarTooltipChange::Show(slot.item_id);
        }
    }
    HotbarTooltipChange::Hide
}

pub const HUD_HOTBAR_UI_KEY: &'static str = "hud-hotbar";
pub const HUD_HOTBAR_UI_PATH: &'static str = "ui/html/hud_hotbar.html";

/// The stack after page `key` is appended: a page already there stays where
/// it is; otherwise it goes on top (an empty stack becomes `[key]`) and the
/// UI rebuilds.
pub open spec fn appended(current: Option<Seq<Seq<char>>>, update: bool, key: Seq<char>) -> (Option<
    Seq<Seq<char>>,
>, bool) {
    match current {
        None => (Some(seq![key]), true),
        Some(c) => if c.contains(key) {
            (Some(c), update)
        } else {
            (Some(c.push(key)), true)
        },
    }
}

/// Puts page `key` on top of the stack unless it is there already; a page
/// that is not registered changes nothing.
pub fn activate_ui_append(stack: &mut UiStack, registered: bool, key: &str)
    ensures
        !registered ==> stack_view(*final(stack)) == stack_view(*old(stack)) && final(stack).ui_update
            == old(stack).ui_update,
        registered ==> (stack_view(*final(stack)), final(stack).ui_update) == appended(
            stack_view(*old(stack)),
            old(stack).ui_update,
            key@,
        ),
{
    if !registered {
        return;
    }
    let mut taken: Option<Vec<String>> = None;
    std::mem::swap(&mut taken, &mut stack.current);
    match taken {
        Some(mut current) => {
            if !contains_name(&current, key) {
                let ghost before = names(current@);
                current.push(to_owned_string(key));
                assert(names(current@) =~= before.push(key@));
                stack.ui_update = true;
            }
            stack.current = Some(current);
        },
        None => {
            let mut v: Vec<String> = Vec::new();
            v.push(to_owned_string(key));
            assert(names(v@) =~= seq![key@]);
            stack.current = Some(v);
            stack.ui_update = true;
        },
    }
}

/// Shows the hotbar page (registered beforehand if it was not).
pub fn show_hud_hotbar_ui(stack: &mut UiStack)
    ensures
        (stack_view(*final(stack)), final(stack).ui_update) == appended(
            stack_view(*old(stack)),
            old(stack).ui_update,
            HUD_HOTBAR_UI_KEY@,
        ),
{
    activate_ui_append(stack, true, HUD_HOTBAR_UI_KEY);
}

/// The stack after the hotbar page is hidden: the page leaves it, a stack
/// left empty becomes none, and the UI rebuilds whenever there was a stack.
pub open spec fn hotbar_hidden(current: Option<Seq<Seq<char>>>, update: bool) -> (Option<Seq<Seq<char>>>, bool) {
    match current {
        None => (None, update),
        Some(c) => {
            let kept = without(c, HUD_HOTBAR_UI_KEY@);
            if kept.len() == 0 {
                (None, true)
            } else {
                (Some(kept), true)
            }
        },
    }
}

/// Takes the hotbar page off the stack.
pub fn hide_hud_hotbar_ui(stack: &mut UiStack)
    ensures
        (stack_view(*final(stack)), final(stack).ui_update) == hotbar_hidden(
            stack_view(*old(stack)),
            old(stack).ui_update,
        ),
{
    let mut taken: Option<Vec<String>> = None;
    std::mem::swap(&mut taken, &mut stack.current);
    match taken {
        Some(current) => {
            let kept = retain_without(&current, HUD_HOTBAR_UI_KEY);
            stack.ui_update = true;
            if kept.len() == 0 {
                stack.current = None;
            } else {
                stack.current = Some(kept);
            }
        },
        None => {},
    }
}

/// The count text of hotbar slot number `slot_number` (1-based; 0 also
/// names the first slot): empty for an empty slot, `None` past the
/// inventory.
pub fn hotbar_count_text(inventory: &PlayerInventory, slot_number: usize) -> (r: Option<String>)
    ensures
        ({
            let i = if slot_number == 0 {
                0
            } else {
                slot_number - 1
            };
            if i < inventory.slots@.len() {
                r matches Some(t) && t@ == if inventory.slots@[i].spec_is_empty() {
                    Seq::<char>::empty()
                } else {
                    decimal_chars(inventory.slots@[i].count as nat)
                }
            } else {
                r is None
            }
        }),
{
    let i = if slot_number == 0 {
        0
    } else {
        slot_number - 1
    };
    if i >= inventory.slots.len() {
        return None;
    }
    let slot = inventory.slots[i];
    if slot.is_empty() {
        Some(String::new())
    } else {
        Some(decimal_string(slot.count as u64))
    }
}

/// The selection marker of hotbar slot number `slot_number`: `>` on the
/// selected slot, nothing elsewhere.
pub fn hotbar_selected_marker(slot_number: usize, selected_index: usize) -> (r: &'static str)
    ensures
        r@ == if (if slot_number == 0 {
            0
        } else {
            slot_number - 1
        }) == selected_index {
            ">"@
        } else {
            ""@
        },
{
    let i = if slot_number == 0 {
        0
    } else {
        slot_number - 1
    };
    if i == selected_index {
        ">"
    } else {
        ""
    }
}

} // verus!
