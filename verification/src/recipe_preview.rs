//! The recipe model the preview dialog reads, and the item lookups it makes:
//! which items belong to a group, which item a group requirement shows, what
//! a recipe yields for the selected item.
use vstd::prelude::*;
use crate::slots::{ItemId, InventorySlot};
use crate::registry::ItemRegistry;
use crate::text::{rfind_seq, rfind_text, is_digit, text_equals};

verus! {

/// The recipe-type key of hand-crafting recipes.
pub const HAND_CRAFTED_TYPE_LOCALIZED: &'static str = "oplexa:hand_crafted";

/// The recipe-type key of work-table recipes.
pub const WORK_TABLE_CRAFTING_TYPE_LOCALIZED: &'static str = "oplexa:work_table";

/// The crafting format whose ingredients may go in any slot.
pub const CRAFTING_SHAPELESS_RECIPE_KIND: &'static str = "crafting_shapeless";

/// The marker between a block's key and the number of a flow variant.
pub const FLOW_VARIANT_MARKER: &'static str = "_flow_";

/// Which grid a recipe is crafted in.
#[derive(Clone, Copy, PartialEq, Eq, Debug, Structural)]
pub enum RecipePreviewCraftingType {
    HandCrafted,
    WorkTable,
}

/// What a recipe yields.
pub enum RecipeResultTemplate {
    /// A fixed item.
    Static { item_id: ItemId, count: u16 },
    /// An item of `group`, chosen by what lies in input slot `slot_index`.
    ByGroupFromSlot { slot_index: usize, group: String, count: u16 },
}

/// One requirement of a recipe's crafting data: an item by name, or any item
/// of a group, and how many.
pub struct CraftEntry {
    pub item: String,
    pub group: String,
    pub count: u16,
}

impl CraftEntry {
    /// A copy of the entry.
    pub fn duplicate(&self) -> (r: CraftEntry)
        ensures
            r == *self,
    {
        CraftEntry { item: self.item.clone(), group: self.group.clone(), count: self.count }
    }
}

/// The crafting data of one recipe variant: requirements keyed by slot number
/// (`craft`, in the order the keys were read), or a plain list of ingredients.
pub struct CraftData {
    pub craft: Vec<(String, CraftEntry)>,
    pub ingredients: Vec<CraftEntry>,
}

/// One way to craft a recipe: the recipe-type key, the crafting format, and
/// the crafting data, or `None` where the data could not be read.
pub struct RecipeCraftingEntry {
    pub recipe_type: String,
    pub format: String,
    pub data: Option<CraftData>,
}

pub struct RecipeDefinition {
    pub result: RecipeResultTemplate,
    pub crafting: Vec<RecipeCraftingEntry>,
}

pub struct RecipeRegistry {
    pub recipes: Vec<RecipeDefinition>,
}

/// The count a requirement has when its data names none.
pub fn recipe_preview_default_required_count() -> (r: u16)
    ensures
        r == 1,
{
    1
}

/// Whether the key names a numbered flow variant of a block (`water_flow_3`):
/// after the last `_flow_` come one or more ASCII digits and nothing else.
pub open spec fn is_flow_variant_key(key: Seq<char>) -> bool {
    match rfind_seq(key, FLOW_VARIANT_MARKER@) {
        Some(k) => {
            let suffix = key.subrange(k + FLOW_VARIANT_MARKER@.len(), key.len() as int);
            suffix.len() > 0 && forall|i: int| 0 <= i < suffix.len() ==> is_digit(#[trigger] suffix[i])
        },
        None => false,
    }
}

/// Flow variants of blocks are hidden from the creative panel.
pub fn is_creative_hidden_flow_variant_item(key: &str) -> (r: bool)
    ensures
        r == is_flow_variant_key(key@),
{
    let marker = FLOW_VARIANT_MARKER;
    match rfind_text(key, marker) {
        None => false,
        Some(k) => {
            let n = key.unicode_len();
            let start = k + marker.unicode_len();
            let suffix = key.substring_char(start, n);
            let ghost spec_suffix = key@.subrange(
                k + FLOW_VARIANT_MARKER@.len(),
                key@.len() as int,
            );
            assert(suffix@ == spec_suffix);
            let m = suffix.unicode_len();
            assert(rfind_seq(key@, FLOW_VARIANT_MARKER@) == Some(k as int));
            if m == 0 {
                return false;
            }
            let mut i: usize = 0;
            while i < m
                invariant
                    rfind_seq(key@, FLOW_VARIANT_MARKER@) == Some(k as int),
                    spec_suffix == key@.subrange(
                        k + FLOW_VARIANT_MARKER@.len(),
                        key@.len() as int,
                    ),
                    suffix@ == spec_suffix,
                    m == suffix@.len(),
                    i <= m,
                    forall|j: int| 0 <= j < i ==> is_digit(#[trigger] suffix@[j]),
                decreases m - i,
            {
                let c = suffix.get_char(i);
                if !('0' <= c && c <= '9') {
                    assert(!is_digit(spec_suffix[i as int]));
                    return false;
                }
                assert(is_digit(c));
                i = i + 1;
            }
            true
        },
    }
}

/// One empty list of alternatives per preview input slot.
pub fn empty_preview_slot_alternatives() -> (r: Vec<Vec<ItemId>>)
    ensures
        r@.len() == crate::css_ids::RECIPE_PREVIEW_INPUT_SLOTS,
        forall|i: int| 0 <= i < r@.len() ==> (#[trigger] r@[i])@ == Seq::<ItemId>::empty(),
{
    let mut r: Vec<Vec<ItemId>> = Vec::new();
    let mut i: usize = 0;
    while i < crate::css_ids::RECIPE_PREVIEW_INPUT_SLOTS
        invariant
            i <= crate::css_ids::RECIPE_PREVIEW_INPUT_SLOTS,
            r@.len() == i,
            forall|j: int| 0 <= j < r@.len() ==> (#[trigger] r@[j])@ == Seq::<ItemId>::empty(),
        decreases crate::css_ids::RECIPE_PREVIEW_INPUT_SLOTS - i,
    {
        let e: Vec<ItemId> = Vec::new();
        assert(e@ =~= Seq::<ItemId>::empty());
        r.push(e);
        i = i + 1;
    }
    r
}

/// The items of `group` among ids `1..n`, in ascending order.
pub open spec fn group_members_below(reg: ItemRegistry, group: Seq<char>, n: int) -> Seq<ItemId>
    decreases n,
{
    if n <= 1 {
        Seq::empty()
    } else {
        let prev = group_members_below(reg, group, n - 1);
        if reg.spec_has_group((n - 1) as ItemId, group) {
            prev.push((n - 1) as ItemId)
        } else {
            prev
        }
    }
}

/// The items of `group`, in ascending order of id.
pub open spec fn group_members(reg: ItemRegistry, group: Seq<char>) -> Seq<ItemId> {
    group_members_below(reg, group, reg.defs@.len() as int)
}

/// Every item of the group, in ascending order of id.
pub fn preview_items_in_group(item_registry: &ItemRegistry, group: &str) -> (r: Vec<ItemId>)
    requires
        item_registry.wf(),
    ensures
        r@ == group_members(*item_registry, group@),
{
    let mut items: Vec<ItemId> = Vec::new();
    let n = item_registry.defs.len();
    if n == 0 {
        return items;
    }
    let mut index: usize = 1;
    while index < n
        invariant
            n == item_registry.defs@.len(),
            n <= u16::MAX as nat + 1,
            1 <= index <= n,
            items@ == group_members_below(*item_registry, group@, index as int),
        decreases n - index,
    {
        let item_id = index as ItemId;
        if item_registry.has_group(item_id, group) {
            items.push(item_id);
        }
        index = index + 1;
    }
    items
}

/// The first item of `group` at or after id `i`.
pub open spec fn first_in_group_from(reg: ItemRegistry, group: Seq<char>, i: int) -> Option<ItemId>
    decreases reg.defs@.len() - i,
{
    if i < 1 || i >= reg.defs@.len() {
        None
    } else if reg.spec_has_group(i as ItemId, group) {
        Some(i as ItemId)
    } else {
        first_in_group_from(reg, group, i + 1)
    }
}

/// The item of `group` with the smallest id.
pub fn first_item_in_group(item_registry: &ItemRegistry, group: &str) -> (r: Option<ItemId>)
    requires
        item_registry.wf(),
    ensures
        r == first_in_group_from(*item_registry, group@, 1),
{
    let n = item_registry.defs.len();
    let mut index: usize = 1;
    while index < n
        invariant
            n == item_registry.defs@.len(),
            n <= u16::MAX as nat + 1,
            1 <= index,
            first_in_group_from(*item_registry, group@, 1) == first_in_group_from(
                *item_registry,
                group@,
                index as int,
            ),
        decreases n - index,
    {
        let item_id = index as ItemId;
        if item_registry.has_group(item_id, group) {
            return Some(item_id);
        }
        index = index + 1;
    }
    None
}

/// Whether two items, both defined, have a group in common.
pub open spec fn share_group(reg: ItemRegistry, left: ItemId, right: ItemId) -> bool {
    &&& reg.spec_has_def(left)
    &&& reg.spec_has_def(right)
    &&& exists|i: int, j: int|
        0 <= i < reg.def_at(left).groups@.len() && 0 <= j < reg.def_at(right).groups@.len()
            && #[trigger] reg.def_at(left).groups@[i]@ == #[trigger] reg.def_at(right).groups@[j]@
}

/// Whether two defined items have a group in common.
pub fn items_share_any_group(item_registry: &ItemRegistry, left: ItemId, right: ItemId) -> (r: bool)
    ensures
        r == share_group(*item_registry, left, right),
{
    if !item_registry.has_def(left) || !item_registry.has_def(right) {
        return false;
    }
    let lg = &item_registry.defs[left as usize].groups;
    let rg = &item_registry.defs[right as usize].groups;
    let mut i: usize = 0;
    while i < lg.len()
        invariant
            item_registry.spec_has_def(left),
            item_registry.spec_has_def(right),
            lg == &item_registry.def_at(left).groups,
            rg == &item_registry.def_at(right).groups,
            i <= lg@.len(),
            forall|a: int, b: int|
                0 <= a < i && 0 <= b < rg@.len() ==> #[trigger] lg@[a]@ != #[trigger] rg@[b]@,
        decreases lg.len() - i,
    {
        let mut j: usize = 0;
        while j < rg.len()
            invariant
                item_registry.spec_has_def(left),
                item_registry.spec_has_def(right),
                lg == &item_registry.def_at(left).groups,
                rg == &item_registry.def_at(right).groups,
                i < lg@.len(),
                j <= rg@.len(),
                forall|b: int| 0 <= b < j ==> lg@[i as int]@ != #[trigger] rg@[b]@,
            decreases rg.len() - j,
        {
            if text_equals(lg[i].as_str(), rg[j].as_str()) {
                assert(item_registry.def_at(left).groups@[i as int]@
                    == item_registry.def_at(right).groups@[j as int]@);
                return true;
            }
            j = j + 1;
        }
        i = i + 1;
    }
    false
}

pub open spec fn at_least_one(n: u16) -> u16 {
    if n < 1 {
        1
    } else {
        n
    }
}

/// The result slot a recipe shows for the selected item, if the recipe makes it.
pub open spec fn result_slot_for(recipe: RecipeDefinition, selected: ItemId, reg: ItemRegistry) -> Option<
    InventorySlot,
> {
    match recipe.result {
        RecipeResultTemplate::Static { item_id, count } => {
            if item_id != selected {
                None
            } else {
                Some(InventorySlot { item_id: selected, count: at_least_one(count) })
            }
        },
        RecipeResultTemplate::ByGroupFromSlot { group, count, .. } => {
            if !reg.spec_has_group(selected, group@) {
                None
            } else {
                Some(InventorySlot { item_id: selected, count: at_least_one(count) })
            }
        },
    }
}

/// What the recipe yields when it is to make `selected_item_id`: a fixed
/// result must be that item; a group result must have it in its group. The
/// count is at least one.
pub fn recipe_preview_result_slot_for_item(
    recipe: &RecipeDefinition,
    selected_item_id: ItemId,
    item_registry: &ItemRegistry,
) -> (r: Option<InventorySlot>)
    ensures
        r == result_slot_for(*recipe, selected_item_id, *item_registry),
{
    match &recipe.result {
        RecipeResultTemplate::Static { item_id, count } => {
            if *item_id != selected_item_id {
                return None;
            }
            Some(InventorySlot { item_id: selected_item_id, count: if *count < 1 { 1 } else { *count } })
        },
        RecipeResultTemplate::ByGroupFromSlot { group, count, .. } => {
            if !item_registry.has_group(selected_item_id, group.as_str()) {
                return None;
            }
            Some(InventorySlot { item_id: selected_item_id, count: if *count < 1 { 1 } else { *count } })
        },
    }
}

/// The item a group requirement shows in the preview.
pub open spec fn group_requirement_item(
    recipe: RecipeDefinition,
    selected: ItemId,
    slot: usize,
    group: Seq<char>,
    reg: ItemRegistry,
) -> Option<ItemId> {
    let from_result_slot = match recipe.result {
        RecipeResultTemplate::ByGroupFromSlot { slot_index, group: result_group, .. } => slot_index
            == slot && reg.spec_has_group(selected, result_group@),
        _ => false,
    };
    if from_result_slot {
        reg.spec_related_item_in_group(selected, group)
    } else if reg.spec_has_group(selected, group) {
        Some(selected)
    } else {
        first_in_group_from(reg, group, 1)
    }
}

/// The item shown for a requirement of any item of `requirement_group`: where
/// the result is chosen by this very slot, the item of the group related to
/// the selected result; else the selected item itself if it is in the group;
/// else the first item of the group.
pub fn resolve_preview_group_requirement_item_id(
    recipe: &RecipeDefinition,
    selected_result_item_id: ItemId,
    requirement_slot_index: usize,
    requirement_group: &str,
    item_registry: &ItemRegistry,
) -> (r: Option<ItemId>)
    requires
        item_registry.wf(),
    ensures
        r == group_requirement_item(
            *recipe,
            selected_result_item_id,
            requirement_slot_index,
            requirement_group@,
            *item_registry,
        ),
{
    let from_result_slot = match &recipe.result {
        RecipeResultTemplate::ByGroupFromSlot { slot_index, group, .. } => *slot_index
            == requirement_slot_index && item_registry.has_group(
            selected_result_item_id,
            group.as_str(),
        ),
        _ => false,
    };
    if from_result_slot {
        return item_registry.related_item_in_group(selected_result_item_id, requirement_group);
    }
    if item_registry.has_group(selected_result_item_id, requirement_group) {
        return Some(selected_result_item_id);
    }
    first_item_in_group(item_registry, requirement_group)
}

/// The grid and its number of input slots for a recipe-type key.
pub open spec fn capacity_and_type(recipe_type: Seq<char>) -> Option<(RecipePreviewCraftingType, usize)> {
    if recipe_type == HAND_CRAFTED_TYPE_LOCALIZED@ {
        Some((RecipePreviewCraftingType::HandCrafted, crate::css_ids::HAND_CRAFTED_INPUT_SLOTS))
    } else if recipe_type == WORK_TABLE_CRAFTING_TYPE_LOCALIZED@ {
        Some((RecipePreviewCraftingType::WorkTable, crate::css_ids::WORK_TABLE_CRAFTING_INPUT_SLOTS))
    } else {
        None
    }
}

/// The grid a recipe type is crafted in, and its number of input slots.
pub fn recipe_preview_input_capacity_and_type(recipe_type_localized: &str) -> (r: Option<
    (RecipePreviewCraftingType, usize),
>)
    ensures
        r == capacity_and_type(recipe_type_localized@),
{
    if text_equals(recipe_type_localized, HAND_CRAFTED_TYPE_LOCALIZED) {
        return Some((RecipePreviewCraftingType::HandCrafted, crate::css_ids::HAND_CRAFTED_INPUT_SLOTS));
    }
    if text_equals(recipe_type_localized, WORK_TABLE_CRAFTING_TYPE_LOCALIZED) {
        return Some(
            (RecipePreviewCraftingType::WorkTable, crate::css_ids::WORK_TABLE_CRAFTING_INPUT_SLOTS),
        );
    }
    None
}

} // verus!
