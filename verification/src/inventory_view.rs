//! What the inventory screens show: the layering of the inventory root, the
//! recipe preview's tabs, fill button, input slots and badges.
use vstd::prelude::*;
use crate::slots::{InventorySlot, ItemId, empty_slot};
use crate::css_ids::{RECIPE_PREVIEW_TABS_PER_PAGE, RECIPE_PREVIEW_INPUT_SLOTS};
use crate::recipe_preview::RecipePreviewCraftingType;
use crate::registry::ItemRegistry;
use crate::css_ids::{WidgetState, hovered_recipe_preview_tab_slot_index, first_hovered_slot_from, RECIPE_PREVIEW_TAB_PREFIX, lemma_first_hovered_below};
use crate::recipe_variants::{
    RecipePreviewDialogState, tab_pages, recipe_preview_tab_page_count, recipe_preview_tab_icon_path,
};

verus! {

/// Z-index of the inventory root: raised while a workbench or chest shows
/// without the inventory panel, so the cursor stack, tooltip and recipe
/// preview stay above that overlay.
pub fn inventory_root_z_index(inventory_open: bool, workbench_open: bool, chest_open: bool) -> (r: i32)
    ensures
        r == if !inventory_open && (workbench_open || chest_open) {
            60i32
        } else {
            51i32
        },
{
    if inventory_open {
        51
    } else if workbench_open || chest_open {
        60
    } else {
        51
    }
}

/// The recipe preview shows while it is open over one of the screens.
pub fn recipe_preview_root_visible(
    inventory_open: bool,
    workbench_open: bool,
    chest_open: bool,
    preview_open: bool,
) -> (r: bool)
    ensures
        r == ((inventory_open || workbench_open || chest_open) && preview_open),
{
    (inventory_open || workbench_open || chest_open) && preview_open
}

/// Whether the previous-page and next-page tab buttons show.
pub struct RecipePreviewNav {
    pub has_prev: bool,
    pub has_next: bool,
}

/// The page buttons show while the dialog is open, has more than one page,
/// and there is a page before (after) the current one.
pub fn recipe_preview_tab_nav(p: &RecipePreviewDialogState) -> (r: RecipePreviewNav)
    ensures
        r.has_prev == (p.open && tab_pages(p.variants@.len()) > 1 && p.tab_page > 0),
        r.has_next == (p.open && tab_pages(p.variants@.len()) > 1 && p.tab_page + 1 < tab_pages(
            p.variants@.len(),
        )),
{
    let page_count = recipe_preview_tab_page_count(p);
    let has_prev = p.open && page_count > 1 && p.tab_page > 0;
    let has_next = p.open && page_count > 1 && p.tab_page < page_count - 1;
    RecipePreviewNav { has_prev, has_next }
}

/// The variant tab slot `t` of the current page stands for, if there is one.
pub open spec fn tab_variant(p: RecipePreviewDialogState, t: int) -> Option<int> {
    let v = p.tab_page * RECIPE_PREVIEW_TABS_PER_PAGE + t;
    if v < p.variants@.len() {
        Some(v)
    } else {
        None
    }
}

/// The icon of a grid's tab.
pub open spec fn tab_icon_path(crafting_type: RecipePreviewCraftingType) -> Seq<char> {
    match crafting_type {
        RecipePreviewCraftingType::HandCrafted => "assets/textures/icons/hand_crafted_icon.png"@,
        RecipePreviewCraftingType::WorkTable => "assets/textures/icons/workbench_icon.png"@,
    }
}

/// How a variant tab shows.
pub struct RecipePreviewTabView {
    pub shown: bool,
    /// The tab of the selected variant is drawn in the accent tone.
    pub accent: bool,
    pub icon_path: Option<&'static str>,
}

/// The tab in slot `tab_slot_index` of the current page: shown (with its
/// grid's icon) while the dialog is open and the slot stands for a variant.
pub fn recipe_preview_tab_view(p: &RecipePreviewDialogState, tab_slot_index: usize) -> (r:
    RecipePreviewTabView)
    ensures
        match tab_variant(*p, tab_slot_index as int) {
            Some(v) => {
                &&& r.shown == p.open
                &&& r.accent == (v == p.selected_variant_index)
                &&& (p.open ==> (r.icon_path matches Some(path) && path@ == tab_icon_path(
                    p.variants@[v].crafting_type,
                )))
                &&& (!p.open ==> r.icon_path is None)
            },
            None => !r.shown && !r.accent && r.icon_path is None,
        },
{
    let hidden = RecipePreviewTabView { shown: false, accent: false, icon_path: None };
    let variant_count = p.variants.len();
    let base = match p.tab_page.checked_mul(RECIPE_PREVIEW_TABS_PER_PAGE) {
        Some(b) => b,
        None => return hidden,
    };
    let variant_index = match base.checked_add(tab_slot_index) {
        Some(v) => v,
        None => return hidden,
    };
    if variant_index >= variant_count {
        return hidden;
    }
    let icon_path = if p.open {
        Some(recipe_preview_tab_icon_path(p.variants[variant_index].crafting_type))
    } else {
        None
    };
    RecipePreviewTabView {
        shown: p.open,
        accent: variant_index == p.selected_variant_index,
        icon_path,
    }
}

/// The fill button shows while the dialog is open, the recipe can be filled
/// in (the workbench is open, or it is a hand-crafting recipe) and the
/// inventory or workbench panel is open.
pub fn recipe_preview_fill_visible(
    p: &RecipePreviewDialogState,
    workbench_open: bool,
    inventory_open: bool,
) -> (r: bool)
    ensures
        r == (p.open && (workbench_open || p.crafting_type == Some(RecipePreviewCraftingType::HandCrafted))
            && (workbench_open || inventory_open)),
{
    let hand_crafted = match p.crafting_type {
        Some(RecipePreviewCraftingType::HandCrafted) => true,
        _ => false,
    };
    p.open && (workbench_open || hand_crafted) && (workbench_open || inventory_open)
}

/// Where a preview input slot sits in its grid (1-based column and row); a
/// slot of the middle work-table column is pushed down to centre it.
#[derive(Clone, Copy, PartialEq, Eq, Debug, Structural)]
pub struct GridCell {
    pub column: u8,
    pub row: u8,
    pub centered: bool,
}

pub open spec fn input_cell(crafting_type: Option<RecipePreviewCraftingType>, i: int) -> GridCell {
    if crafting_type == Some(RecipePreviewCraftingType::WorkTable) {
        if i == 0 {
            GridCell { column: 1, row: 1, centered: false }
        } else if i == 1 {
            GridCell { column: 1, row: 2, centered: false }
        } else if i == 2 {
            GridCell { column: 1, row: 3, centered: false }
        } else if i == 3 {
            GridCell { column: 2, row: 1, centered: true }
        } else if i == 4 {
            GridCell { column: 2, row: 2, centered: true }
        } else if i == 5 {
            GridCell { column: 3, row: 1, centered: false }
        } else if i == 6 {
            GridCell { column: 3, row: 2, centered: false }
        } else if i == 7 {
            GridCell { column: 3, row: 3, centered: false }
        } else {
            GridCell { column: 1, row: 1, centered: false }
        }
    } else if i == 1 {
        GridCell { column: 2, row: 1, centered: false }
    } else {
        GridCell { column: 1, row: 1, centered: false }
    }
}

/// The grid cell of input slot `slot_index` (see `input_cell`): the
/// work table's three columns of three, two and three slots, or the two
/// hand-crafting slots side by side.
pub fn recipe_preview_input_cell(crafting_type: Option<RecipePreviewCraftingType>, slot_index: usize) -> (r:
    GridCell)
    ensures
        r == input_cell(crafting_type, slot_index as int),
{
    let work_table = match crafting_type {
        Some(RecipePreviewCraftingType::WorkTable) => true,
        _ => false,
    };
    if work_table {
        match slot_index {
            0 => GridCell { column: 1, row: 1, centered: false },
            1 => GridCell { column: 1, row: 2, centered: false },
            2 => GridCell { column: 1, row: 3, centered: false },
            3 => GridCell { column: 2, row: 1, centered: true },
            4 => GridCell { column: 2, row: 2, centered: true },
            5 => GridCell { column: 3, row: 1, centered: false },
            6 => GridCell { column: 3, row: 2, centered: false },
            7 => GridCell { column: 3, row: 3, centered: false },
            _ => GridCell { column: 1, row: 1, centered: false },
        }
    } else if slot_index == 1 {
        GridCell { column: 2, row: 1, centered: false }
    } else {
        GridCell { column: 1, row: 1, centered: false }
    }
}

/// How a preview input slot shows.
pub struct PreviewInputSlotView {
    pub visible: bool,
    /// The slot shown, with the alternative of the current cycle step.
    pub slot: InventorySlot,
    pub cell: GridCell,
}

/// The slot shown in preview input slot `i` at cycle step `step`: the
/// preview's slot (empty past the end); while it is visible and the
/// selected variant lists alternatives for it, its item is alternative
/// `step % count`.
pub open spec fn shown_input_slot(p: RecipePreviewDialogState, i: int, step: nat) -> InventorySlot {
    let slot = if 0 <= i < p.input_slots@.len() {
        p.input_slots@[i]
    } else {
        empty_slot()
    };
    let visible = p.open && i < p.input_slot_count;
    if visible && p.selected_variant_index < p.variants@.len() {
        let alts = p.variants@[p.selected_variant_index as int].input_slot_alternatives@;
        if 0 <= i < alts.len() && alts[i]@.len() > 0 {
            InventorySlot { item_id: alts[i]@[(step % alts[i]@.len()) as int], ..slot }
        } else {
            slot
        }
    } else {
        slot
    }
}

/// Input slot `slot_index` of the preview at cycle step `cycle_step` (the
/// alternatives turn every two seconds): visible while the dialog is open
/// and the slot is within the recipe's slot count.
pub fn recipe_preview_input_slot_view(
    p: &RecipePreviewDialogState,
    slot_index: usize,
    cycle_step: usize,
) -> (r: PreviewInputSlotView)
    ensures
        r.visible == (p.open && slot_index < p.input_slot_count),
        r.slot == shown_input_slot(*p, slot_index as int, cycle_step as nat),
        r.cell == input_cell(p.crafting_type, slot_index as int),
{
    let mut slot = if slot_index < p.input_slots.len() {
        p.input_slots[slot_index]
    } else {
        InventorySlot::empty()
    };
    let visible = p.open && slot_index < p.input_slot_count;
    if visible && p.selected_variant_index < p.variants.len() {
        let variant = &p.variants[p.selected_variant_index];
        if slot_index < variant.input_slot_alternatives.len() {
            let alternatives = &variant.input_slot_alternatives[slot_index];
            if alternatives.len() > 0 {
                let k = cycle_step % alternatives.len();
                slot = InventorySlot { item_id: alternatives[k], ..slot };
            }
        }
    }
    PreviewInputSlotView {
        visible,
        slot,
        cell: recipe_preview_input_cell(p.crafting_type, slot_index),
    }
}

/// The count and emptiness the badge of preview input slot number
/// `slot_number` (1-based) shows, if the slot exists: it counts as empty
/// while the dialog is closed or the slot lies outside the recipe.
pub fn recipe_preview_input_badge(p: &RecipePreviewDialogState, slot_number: usize) -> (r: Option<
    (u16, bool),
>)
    ensures
        ({
            let i = if slot_number == 0 {
                0
            } else {
                slot_number - 1
            };
            if i < p.input_slots@.len() {
                let slot = p.input_slots@[i];
                r == Some(
                    (
                        slot.count,
                        slot.spec_is_empty() || !p.open || slot_number == 0 || slot_number
                            > p.input_slot_count,
                    ),
                )
            } else {
                r is None
            }
        }),
{
    let i = if slot_number == 0 {
        0
    } else {
        slot_number - 1
    };
    if i >= p.input_slots.len() {
        return None;
    }
    let slot = p.input_slots[i];
    let hidden_by_layout = slot_number == 0 || slot_number > p.input_slot_count;
    Some((slot.count, slot.is_empty() || !p.open || hidden_by_layout))
}

/// The count and emptiness the preview's result badge shows.
pub fn recipe_preview_result_badge(p: &RecipePreviewDialogState) -> (r: (u16, bool))
    ensures
        r == (p.result_slot.count, p.result_slot.spec_is_empty() || !p.open),
{
    (p.result_slot.count, p.result_slot.is_empty() || !p.open)
}

/// The slot at 1-based `slot_number` of a grid (`saturating_sub(1)`: 0 and
/// 1 both name the first slot), if there is one.
pub fn grid_slot_by_number(slots: &Vec<InventorySlot>, slot_number: usize) -> (r: Option<InventorySlot>)
    ensures
        ({
            let i = if slot_number == 0 {
                0
            } else {
                slot_number - 1
            };
            if i < slots@.len() {
                r == Some(slots@[i])
            } else {
                r is None
            }
        }),
{
    let i = if slot_number == 0 {
        0
    } else {
        slot_number - 1
    };
    if i < slots.len() {
        Some(slots[i])
    } else {
        None
    }
}

/// What the inventory tooltip shows.
#[derive(Clone, Copy, PartialEq, Eq, Debug, Structural)]
pub enum TooltipContent {
    Hidden,
    /// The hovered item's names.
    Item(ItemId),
    /// The label of the hovered recipe-preview tab's variant.
    Tab(usize),
}

/// The inventory tooltip: shown while one of the screens is open and the
/// mouse is in the window; it names the hovered item (hidden where the item
/// has no definition), or else the variant of the hovered preview tab while
/// the preview is open.
pub fn inventory_tooltip_content(
    any_panel_open: bool,
    cursor_in_window: bool,
    hovered_item: Option<ItemId>,
    item_registry: &ItemRegistry,
    p: &RecipePreviewDialogState,
    buttons: &Vec<WidgetState>,
) -> (r: TooltipContent)
    ensures
        r == if !any_panel_open || !cursor_in_window {
            TooltipContent::Hidden
        } else {
            match hovered_item {
                Some(id) => if item_registry.spec_has_def(id) {
                    TooltipContent::Item(id)
                } else {
                    TooltipContent::Hidden
                },
                None => if !p.open {
                    TooltipContent::Hidden
                } else {
                    match first_hovered_slot_from(
                        buttons@,
                        RECIPE_PREVIEW_TAB_PREFIX@,
                        RECIPE_PREVIEW_TABS_PER_PAGE as nat,
                        0,
                    ) {
                        Some(t) => match tab_variant(*p, t as int) {
                            Some(v) => TooltipContent::Tab(v as usize),
                            None => TooltipContent::Hidden,
                        },
                        None => TooltipContent::Hidden,
                    }
                },
            }
        },
{
    if !any_panel_open || !cursor_in_window {
        return TooltipContent::Hidden;
    }
    match hovered_item {
        Some(id) => {
            if item_registry.has_def(id) {
                TooltipContent::Item(id)
            } else {
                TooltipContent::Hidden
            }
        },
        None => {
            if !p.open {
                return TooltipContent::Hidden;
            }
            proof {
                lemma_first_hovered_below(
                    buttons@,
                    RECIPE_PREVIEW_TAB_PREFIX@,
                    RECIPE_PREVIEW_TABS_PER_PAGE as nat,
                    0,
                );
            }
            let variant_count = p.variants.len();
            match hovered_recipe_preview_tab_slot_index(buttons) {
                Some(t) => {
                    let base = match p.tab_page.checked_mul(RECIPE_PREVIEW_TABS_PER_PAGE) {
                        Some(b) => b,
                        None => return TooltipContent::Hidden,
                    };
                    let v = match base.checked_add(t) {
                        Some(v) => v,
                        None => return TooltipContent::Hidden,
                    };
                    if v < variant_count {
                        TooltipContent::Tab(v)
                    } else {
                        TooltipContent::Hidden
                    }
                },
                None => TooltipContent::Hidden,
            }
        },
    }
}

/// The item a workbench grid slot (craft, tool or inventory slot `index`)
/// shows an icon for: while the menu is open, the slot's item unless it is
/// empty (or past the grid).
pub fn workbench_slot_icon_item(menu_open: bool, slots: &Vec<InventorySlot>, index: usize) -> (r: Option<
    ItemId,
>)
    ensures
        r == if menu_open && index < slots@.len() && !slots@[index as int].spec_is_empty() {
            Some(slots@[index as int].item_id)
        } else {
            None::<ItemId>
        },
{
    if menu_open && index < slots.len() && !slots[index].is_empty() {
        Some(slots[index].item_id)
    } else {
        None
    }
}

/// The count and emptiness the badge of workbench grid slot `index` shows,
/// if the slot exists: it counts as empty while the menu is closed.
pub fn workbench_slot_badge(menu_open: bool, slots: &Vec<InventorySlot>, index: usize) -> (r: Option<
    (u16, bool),
>)
    ensures
        r == if index < slots@.len() {
            Some((slots@[index as int].count, slots@[index as int].spec_is_empty() || !menu_open))
        } else {
            None::<(u16, bool)>
        },
{
    if index < slots.len() {
        Some((slots[index].count, slots[index].is_empty() || !menu_open))
    } else {
        None
    }
}

/// The count and emptiness of a result badge: the count of the result the
/// grid makes (hidden while its panel is closed), or nothing.
pub fn result_badge(panel_open: bool, result: Option<InventorySlot>) -> (r: (u16, bool))
    ensures
        r == match result {
            Some(s) => (s.count, !panel_open),
            None => (0u16, true),
        },
{
    match result {
        Some(s) => (s.count, !panel_open),
        None => (0, true),
    }
}

/// The stack the cursor shows while one of the screens is open and the
/// cursor holds items; its badge shows the stack's count.
pub fn inventory_cursor_item_view(
    inventory_open: bool,
    workbench_open: bool,
    chest_open: bool,
    cursor: InventorySlot,
) -> (r: Option<InventorySlot>)
    ensures
        r == if (inventory_open || workbench_open || chest_open) && !cursor.spec_is_empty() {
            Some(cursor)
        } else {
            None::<InventorySlot>
        },
{
    if (inventory_open || workbench_open || chest_open) && !cursor.is_empty() {
        Some(cursor)
    } else {
        None
    }
}

/// The translation key of the recipe preview's mode line: the grid the
/// previewed recipe is made in.
pub fn recipe_preview_mode_key(crafting_type: Option<RecipePreviewCraftingType>) -> (r: &'static str)
    ensures
        r@ == match crafting_type {
            Some(RecipePreviewCraftingType::HandCrafted) => "KEY_UI_HAND_CRAFTED"@,
            Some(RecipePreviewCraftingType::WorkTable) => "KEY_UI_WORKBENCH"@,
            None => "KEY_UI_RECIPE"@,
        },
{
    match crafting_type {
        Some(RecipePreviewCraftingType::HandCrafted) => "KEY_UI_HAND_CRAFTED",
        Some(RecipePreviewCraftingType::WorkTable) => "KEY_UI_WORKBENCH",
        None => "KEY_UI_RECIPE",
    }
}

} // verus!
