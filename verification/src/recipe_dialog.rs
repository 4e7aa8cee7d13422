//! Opening the recipe preview for an item: every recipe that makes the item,
//! in every grid it can be crafted in, becomes a variant (merged with an
//! earlier one where the two differ only in items of one group).
use vstd::prelude::*;
use crate::slots::{ItemId, InventorySlot, empty_slot};
use crate::registry::ItemRegistry;
use crate::text::{trim, trim_seq, equals_ignore_ascii_case, eq_ignore_ascii_case};
use crate::css_ids::RECIPE_PREVIEW_INPUT_SLOTS;
use crate::recipe_preview::{
    RecipeDefinition, RecipeCraftingEntry, RecipeRegistry, RecipePreviewCraftingType, CraftEntry,
    CRAFTING_SHAPELESS_RECIPE_KIND, capacity_and_type, group_members, group_requirement_item,
    result_slot_for, at_least_one, recipe_preview_input_capacity_and_type,
    preview_items_in_group, resolve_preview_group_requirement_item_id,
    recipe_preview_result_slot_for_item, empty_preview_slot_alternatives,
};
use crate::recipe_inputs::{preview_requirements, collect_preview_requirements};
use crate::recipe_variants::{
    RecipePreviewVariant, VariantView, RecipePreviewDialogState, alternatives_view, views_of, all_wf,
    pushed_or_merged, push_or_merge_recipe_preview_variant, apply_recipe_preview_state,
    clear_recipe_preview_state,
};

verus! {

/// The inputs one crafting entry of a recipe shows.
pub struct ParsedRecipePreviewInputs {
    pub crafting_type: RecipePreviewCraftingType,
    pub slot_count: usize,
    pub input_slots: Vec<InventorySlot>,
    pub input_slot_alternatives: Vec<Vec<ItemId>>,
}

/// The item a requirement shows, and the alternatives after it: a requirement
/// naming an item shows that item; one naming a group shows the group item
/// the preview picks and lists the whole group as alternatives; one naming
/// neither shows nothing.
pub open spec fn requirement_outcome(
    req: CraftEntry,
    slot: usize,
    alts: Seq<Seq<ItemId>>,
    recipe: RecipeDefinition,
    selected: ItemId,
    reg: ItemRegistry,
) -> (Option<ItemId>, Seq<Seq<ItemId>>) {
    if trim_seq(req.item@).len() > 0 {
        (reg.spec_id_opt(req.item@), alts)
    } else if trim_seq(req.group@).len() > 0 {
        (
            group_requirement_item(recipe, selected, slot, req.group@, reg),
            alts.update(slot as int, group_members(reg, req.group@)),
        )
    } else {
        (None, alts)
    }
}

/// The preview slots and alternatives after placing the requirements in
/// turn; `None` as soon as one shows no item.
pub open spec fn place_requirements(
    reqs: Seq<(usize, CraftEntry)>,
    slots: Seq<InventorySlot>,
    alts: Seq<Seq<ItemId>>,
    recipe: RecipeDefinition,
    selected: ItemId,
    reg: ItemRegistry,
) -> Option<(Seq<InventorySlot>, Seq<Seq<ItemId>>)>
    decreases reqs.len(),
{
    if reqs.len() == 0 {
        Some((slots, alts))
    } else {
        let (slot, req) = reqs[0];
        let (id, alts1) = requirement_outcome(req, slot, alts, recipe, selected, reg);
        match id {
            None => None,
            Some(id) => place_requirements(
                reqs.drop_first(),
                slots.update(slot as int, InventorySlot { item_id: id, count: at_least_one(req.count) }),
                alts1,
                recipe,
                selected,
                reg,
            ),
        }
    }
}

pub open spec fn is_shapeless_format(format: Seq<char>) -> bool {
    eq_ignore_ascii_case(trim_seq(format), CRAFTING_SHAPELESS_RECIPE_KIND@)
}

/// The inputs a crafting entry shows when previewing `selected`: its grid,
/// the grid's slot count, the slots and their alternatives; `None` where the
/// grid is unknown, the data unreadable or unusable, or a requirement shows
/// no item.
pub open spec fn parsed_inputs(
    recipe: RecipeDefinition,
    crafting: RecipeCraftingEntry,
    selected: ItemId,
    reg: ItemRegistry,
) -> Option<(RecipePreviewCraftingType, usize, Seq<InventorySlot>, Seq<Seq<ItemId>>)> {
    match capacity_and_type(crafting.recipe_type@) {
        None => None,
        Some((t, slot_count)) => match crafting.data {
            None => None,
            Some(data) => match preview_requirements(
                data,
                is_shapeless_format(crafting.format@),
                slot_count,
            ) {
                None => None,
                Some(reqs) => if reqs.len() == 0 {
                    None
                } else {
                    match place_requirements(
                        reqs,
                        Seq::new(RECIPE_PREVIEW_INPUT_SLOTS as nat, |_i: int| empty_slot()),
                        Seq::new(RECIPE_PREVIEW_INPUT_SLOTS as nat, |_i: int| Seq::<ItemId>::empty()),
                        recipe,
                        selected,
                        reg,
                    ) {
                        None => None,
                        Some((slots, alts)) => Some((t, slot_count, slots, alts)),
                    }
                },
            },
        },
    }
}

/// The inputs the crafting entry `crafting` of `recipe` shows when the preview
/// is for `selected_result_item_id`.
pub fn parse_recipe_preview_inputs(
    recipe: &RecipeDefinition,
    crafting: &RecipeCraftingEntry,
    selected_result_item_id: ItemId,
    item_registry: &ItemRegistry,
) -> (r: Option<ParsedRecipePreviewInputs>)
    requires
        item_registry.wf(),
    ensures
        match parsed_inputs(*recipe, *crafting, selected_result_item_id, *item_registry) {
            None => r is None,
            Some((t, n, slots, alts)) => r matches Some(p) && p.crafting_type == t && p.slot_count == n
                && p.input_slots@ == slots && alternatives_view(p.input_slot_alternatives@) == alts,
        },
        r matches Some(p) ==> p.input_slots@.len() == RECIPE_PREVIEW_INPUT_SLOTS
            && p.input_slot_alternatives@.len() == RECIPE_PREVIEW_INPUT_SLOTS,
{
    let (crafting_type, slot_count) = match recipe_preview_input_capacity_and_type(
        crafting.recipe_type.as_str(),
    ) {
        Some(x) => x,
        None => {
            return None;
        },
    };
    let data = match &crafting.data {
        Some(d) => d,
        None => {
            return None;
        },
    };
    let is_shapeless = equals_ignore_ascii_case(
        trim(crafting.format.as_str()),
        CRAFTING_SHAPELESS_RECIPE_KIND,
    );
    let requirements = match collect_preview_requirements(data, is_shapeless, slot_count) {
        Some(v) => v,
        None => {
            return None;
        },
    };
    if requirements.len() == 0 {
        return None;
    }
    let mut input_slots: Vec<InventorySlot> = Vec::new();
    let mut k: usize = 0;
    while k < RECIPE_PREVIEW_INPUT_SLOTS
        invariant
            k <= RECIPE_PREVIEW_INPUT_SLOTS,
            input_slots@ == Seq::new(k as nat, |_i: int| empty_slot()),
        decreases RECIPE_PREVIEW_INPUT_SLOTS - k,
    {
        input_slots.push(InventorySlot::empty());
        assert(input_slots@ =~= Seq::new((k + 1) as nat, |_i: int| empty_slot()));
        k = k + 1;
    }
    let mut alternatives = empty_preview_slot_alternatives();
    assert(alternatives_view(alternatives@) =~= Seq::new(
        RECIPE_PREVIEW_INPUT_SLOTS as nat,
        |_i: int| Seq::<ItemId>::empty(),
    ));
    let ghost reqs = requirements@;
    let ghost outcome = place_requirements(
        reqs,
        input_slots@,
        alternatives_view(alternatives@),
        *recipe,
        selected_result_item_id,
        *item_registry,
    );
    proof {
        assert(parsed_inputs(*recipe, *crafting, selected_result_item_id, *item_registry) == match outcome {
            None => None,
            Some((slots, alts)) => Some((crafting_type, slot_count, slots, alts)),
        });
        assert(slot_count <= RECIPE_PREVIEW_INPUT_SLOTS) by {
            assert(crate::css_ids::HAND_CRAFTED_INPUT_SLOTS <= RECIPE_PREVIEW_INPUT_SLOTS);
            assert(crate::css_ids::WORK_TABLE_CRAFTING_INPUT_SLOTS <= RECIPE_PREVIEW_INPUT_SLOTS);
        }
    }
    let mut i: usize = 0;
    assert(reqs.subrange(0, reqs.len() as int) =~= reqs);
    while i < requirements.len()
        invariant
            item_registry.wf(),
            reqs == requirements@,
            slot_count <= RECIPE_PREVIEW_INPUT_SLOTS,
            forall|m: int| 0 <= m < reqs.len() ==> (#[trigger] reqs[m]).0 < slot_count,
            i <= reqs.len(),
            input_slots@.len() == RECIPE_PREVIEW_INPUT_SLOTS,
            alternatives@.len() == RECIPE_PREVIEW_INPUT_SLOTS,
            parsed_inputs(*recipe, *crafting, selected_result_item_id, *item_registry) == match outcome {
                None => None,
                Some((slots, alts)) => Some((crafting_type, slot_count, slots, alts)),
            },
            outcome == place_requirements(
                reqs.subrange(i as int, reqs.len() as int),
                input_slots@,
                alternatives_view(alternatives@),
                *recipe,
                selected_result_item_id,
                *item_registry,
            ),
        decreases reqs.len() - i,
    {
        let slot_index = requirements[i].0;
        let requirement = &requirements[i].1;
        let ghost rest = reqs.subrange(i as int, reqs.len() as int);
        assert(rest[0] == reqs[i as int]);
        assert(rest.drop_first() =~= reqs.subrange(i + 1, reqs.len() as int));
        assert(slot_index < slot_count);
        let ghost alts_before = alternatives_view(alternatives@);
        let item_id: Option<ItemId> = if trim(requirement.item.as_str()).unicode_len() > 0 {
            item_registry.id_opt(requirement.item.as_str())
        } else if trim(requirement.group.as_str()).unicode_len() > 0 {
            let members = preview_items_in_group(item_registry, requirement.group.as_str());
            alternatives.set(slot_index, members);
            assert(alternatives_view(alternatives@) =~= alts_before.update(
                slot_index as int,
                group_members(*item_registry, requirement.group@),
            ));
            resolve_preview_group_requirement_item_id(
                recipe,
                selected_result_item_id,
                slot_index,
                requirement.group.as_str(),
                item_registry,
            )
        } else {
            None
        };
        assert(requirement_outcome(
            reqs[i as int].1,
            slot_index,
            alts_before,
            *recipe,
            selected_result_item_id,
            *item_registry,
        ) == (item_id, alternatives_view(alternatives@)));
        let id = match item_id {
            Some(id) => id,
            None => {
                assert(outcome is None);
                return None;
            },
        };
        let count: u16 = if requirement.count < 1 {
            1
        } else {
            requirement.count
        };
        input_slots.set(slot_index, InventorySlot { item_id: id, count });
        i = i + 1;
    }
    proof {
        assert(reqs.subrange(reqs.len() as int, reqs.len() as int) =~= Seq::<(usize, CraftEntry)>::empty());
    }
    Some(
        ParsedRecipePreviewInputs {
            crafting_type,
            slot_count,
            input_slots,
            input_slot_alternatives: alternatives,
        },
    )
}

/// The variant a parsed crafting entry makes with the given result.
pub open spec fn variant_of(
    p: (RecipePreviewCraftingType, usize, Seq<InventorySlot>, Seq<Seq<ItemId>>),
    result: InventorySlot,
) -> VariantView {
    VariantView {
        crafting_type: p.0,
        input_slot_count: p.1,
        input_slots: p.2,
        alternatives: p.3,
        result_slot: result,
    }
}

/// The variants after the first `m` crafting entries of `recipe` were offered.
pub open spec fn offer_crafting(
    vs: Seq<VariantView>,
    recipe: RecipeDefinition,
    item: ItemId,
    reg: ItemRegistry,
    m: int,
) -> Seq<VariantView>
    decreases m,
{
    if m <= 0 || m > recipe.crafting@.len() {
        vs
    } else {
        let prev = offer_crafting(vs, recipe, item, reg, m - 1);
        match result_slot_for(recipe, item, reg) {
            None => prev,
            Some(result) => match parsed_inputs(recipe, recipe.crafting@[m - 1], item, reg) {
                None => prev,
                Some(p) => pushed_or_merged(prev, variant_of(p, result), reg),
            },
        }
    }
}

/// The variants from the first `n` recipes.
pub open spec fn variants_upto(recipes: Seq<RecipeDefinition>, item: ItemId, reg: ItemRegistry, n: int) -> Seq<
    VariantView,
>
    decreases n,
{
    if n <= 0 || n > recipes.len() {
        Seq::empty()
    } else {
        let recipe = recipes[n - 1];
        offer_crafting(
            variants_upto(recipes, item, reg, n - 1),
            recipe,
            item,
            reg,
            recipe.crafting@.len() as int,
        )
    }
}

/// Every variant of every recipe that makes `item`.
pub open spec fn preview_variants(recipes: Seq<RecipeDefinition>, item: ItemId, reg: ItemRegistry) -> Seq<
    VariantView,
> {
    variants_upto(recipes, item, reg, recipes.len() as int)
}

/// Opens the preview dialog on every way to craft `item_id`; with none,
/// closes it and returns false.
pub fn open_recipe_preview_dialog_for_item(
    item_id: ItemId,
    recipe_registry: &RecipeRegistry,
    item_registry: &ItemRegistry,
    recipe_preview: &mut RecipePreviewDialogState,
) -> (r: bool)
    requires
        item_registry.wf(),
        old(recipe_preview).wf(),
    ensures
        r == (preview_variants(recipe_registry.recipes@, item_id, *item_registry).len() > 0),
        r ==> final(recipe_preview).open && views_of(final(recipe_preview).variants@) == preview_variants(
            recipe_registry.recipes@,
            item_id,
            *item_registry,
        ) && final(recipe_preview).selected_variant_index == 0 && final(recipe_preview).tab_page == 0
            && final(recipe_preview).shows_selection(),
        !r ==> !final(recipe_preview).open && final(recipe_preview).variants@.len() == 0
            && final(recipe_preview).shows_nothing(),
        final(recipe_preview).wf(),
{
    let ghost recipes = recipe_registry.recipes@;
    let ghost reg = *item_registry;
    let mut variants: Vec<RecipePreviewVariant> = Vec::new();
    let mut i: usize = 0;
    proof {
        assert(views_of(variants@) =~= Seq::<VariantView>::empty());
    }
    while i < recipe_registry.recipes.len()
        invariant
            recipes == recipe_registry.recipes@,
            reg == *item_registry,
            item_registry.wf(),
            i <= recipes.len(),
            views_of(variants@) == variants_upto(recipes, item_id, reg, i as int),
            all_wf(views_of(variants@)),
        decreases recipes.len() - i,
    {
        let recipe = &recipe_registry.recipes[i];
        let ghost before = views_of(variants@);
        let result = recipe_preview_result_slot_for_item(recipe, item_id, item_registry);
        let mut j: usize = 0;
        while j < recipe.crafting.len()
            invariant
                recipes == recipe_registry.recipes@,
                reg == *item_registry,
                item_registry.wf(),
                i < recipes.len(),
                *recipe == recipes[i as int],
                result == result_slot_for(*recipe, item_id, reg),
                j <= recipe.crafting@.len(),
                views_of(variants@) == offer_crafting(before, *recipe, item_id, reg, j as int),
                all_wf(views_of(variants@)),
            decreases recipe.crafting@.len() - j,
        {
            if let Some(result_slot) = result {
                match parse_recipe_preview_inputs(recipe, &recipe.crafting[j], item_id, item_registry) {
                    Some(parsed) => {
                        let candidate = RecipePreviewVariant {
                            crafting_type: parsed.crafting_type,
                            input_slot_count: parsed.slot_count,
                            input_slots: parsed.input_slots,
                            input_slot_alternatives: parsed.input_slot_alternatives,
                            result_slot,
                        };
                        push_or_merge_recipe_preview_variant(&mut variants, candidate, item_registry);
                    },
                    None => {},
                }
            }
            j = j + 1;
        }
        i = i + 1;
    }
    if variants.len() > 0 {
        apply_recipe_preview_state(recipe_preview, variants);
        return true;
    }
    clear_recipe_preview_state(recipe_preview);
    false
}

/// Opens the preview dialog for the item under the mouse.
pub fn open_recipe_preview_dialog_for_hovered_item(
    hovered_item_id: ItemId,
    recipe_registry: &RecipeRegistry,
    item_registry: &ItemRegistry,
    recipe_preview: &mut RecipePreviewDialogState,
) -> (r: bool)
    requires
        item_registry.wf(),
        old(recipe_preview).wf(),
    ensures
        r == (preview_variants(recipe_registry.recipes@, hovered_item_id, *item_registry).len() > 0),
        r ==> final(recipe_preview).open && views_of(final(recipe_preview).variants@) == preview_variants(
            recipe_registry.recipes@,
            hovered_item_id,
            *item_registry,
        ) && final(recipe_preview).selected_variant_index == 0 && final(recipe_preview).tab_page == 0
            && final(recipe_preview).shows_selection(),
        !r ==> !final(recipe_preview).open && final(recipe_preview).variants@.len() == 0
            && final(recipe_preview).shows_nothing(),
        final(recipe_preview).wf(),
{
    open_recipe_preview_dialog_for_item(hovered_item_id, recipe_registry, item_registry, recipe_preview)
}

} // verus!
