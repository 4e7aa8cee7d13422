//! The item browser shown in the inventory (creative panel) and in the
//! workbench: which items it lists, its pages, and what a click on an item
//! does in each game mode.
use vstd::prelude::*;
use crate::slots::ItemId;
use crate::registry::ItemRegistry;
use crate::text::{push_decimal, decimal_chars, push_char, text_equals};
use crate::recipe_preview::{RecipeRegistry, is_flow_variant_key, is_creative_hidden_flow_variant_item};
use crate::recipe_variants::{RecipePreviewDialogState, views_of};
use crate::recipe_dialog::{open_recipe_preview_dialog_for_hovered_item, preview_variants};
use crate::inventory_hover::{CreativePanelState, page_item};
use crate::css_ids::WidgetState;

verus! {

pub const CREATIVE_PANEL_PREV_ID: &'static str = "creative-panel-prev";
pub const CREATIVE_PANEL_NEXT_ID: &'static str = "creative-panel-next";
pub const WORKBENCH_ITEMS_PREV_ID: &'static str = "workbench-items-prev";
pub const WORKBENCH_ITEMS_NEXT_ID: &'static str = "workbench-items-next";

#[derive(Clone, Copy, PartialEq, Eq, Debug, Structural)]
pub enum GameMode {
    Survival,
    Creative,
    Spectator,
}

/// Whether item `id` is listed: it has a definition and is not the flow
/// variant of a block.
pub open spec fn creative_listed(defs: Seq<crate::registry::ItemDef>, id: int) -> bool {
    &&& 1 <= id < defs.len()
    &&& !(defs[id].block is Some && is_flow_variant_key(defs[id].key@))
}

/// The listed item ids below `n` (item ids fit in `u16`), in order.
pub open spec fn creative_items_upto(defs: Seq<crate::registry::ItemDef>, n: int) -> Seq<ItemId>
    decreases n,
{
    if n <= 1 {
        Seq::empty()
    } else {
        let t = creative_items_upto(defs, n - 1);
        if creative_listed(defs, n - 1) {
            t.push((n - 1) as ItemId)
        } else {
            t
        }
    }
}

/// The items the panel lists for a registry.
pub open spec fn creative_items(reg: ItemRegistry) -> Seq<ItemId> {
    let n = if reg.defs@.len() < 65536 {
        reg.defs@.len() as int
    } else {
        65536
    };
    creative_items_upto(reg.defs@, n)
}

/// The page after turning back: the one before, if there is one.
pub open spec fn page_after_prev(page: nat) -> nat {
    if page > 0 {
        (page - 1) as nat
    } else {
        page
    }
}

/// The page after turning on: the next one, if there is one.
pub open spec fn page_after_next(page: nat, item_count: nat, page_size: nat) -> nat {
    if page + 1 < pages_for(item_count, page_size) {
        page + 1
    } else {
        page
    }
}

/// How many pages `n` items fill, `page_size` to a page (at least one).
pub open spec fn pages_for(n: nat, page_size: nat) -> nat {
    if page_size == 0 || n == 0 {
        1
    } else if n % page_size == 0 {
        n / page_size
    } else {
        n / page_size + 1
    }
}

/// Whether the panel shows its first page, or a page past it.
pub open spec fn page_in_range(panel: CreativePanelState, page_size: nat) -> bool {
    panel.page < pages_for(panel.items@.len(), page_size)
}

fn listed_items(reg: &ItemRegistry) -> (r: Vec<ItemId>)
    ensures
        r@ == creative_items(*reg),
{
    let n = reg.defs.len();
    let limit: usize = if n < 65536 {
        n
    } else {
        65536
    };
    let mut out: Vec<ItemId> = Vec::new();
    let mut raw: usize = 1;
    if limit <= 1 {
        return out;
    }
    while raw < limit
        invariant
            1 <= raw <= limit,
            limit <= 65536,
            limit <= reg.defs@.len(),
            limit as int == if reg.defs@.len() < 65536 {
                reg.defs@.len() as int
            } else {
                65536
            },
            out@ == creative_items_upto(reg.defs@, raw as int),
        decreases limit - raw,
    {
        let def = &reg.defs[raw];
        let hidden = match def.block {
            Some(_) => is_creative_hidden_flow_variant_item(def.key.as_str()),
            None => false,
        };
        if !hidden {
            out.push(raw as u16);
        }
        raw = raw + 1;
    }
    out
}

impl CreativePanelState {
    /// How many items the panel lists.
    pub fn item_count(&self) -> (r: usize)
        ensures
            r == self.items@.len(),
    {
        self.items.len()
    }

    /// How many pages the items fill, `page_size` to a page (at least one).
    pub fn page_count(&self, page_size: usize) -> (r: usize)
        ensures
            r as nat == pages_for(self.items@.len(), page_size as nat),
            r >= 1,
    {
        let n = self.items.len();
        if page_size == 0 || n == 0 {
            return 1;
        }
        let q = n / page_size;
        if n % page_size == 0 {
            assert(q >= 1) by (nonlinear_arith)
                requires
                    q == n / page_size,
                    n % page_size == 0,
                    page_size > 0,
                    n > 0,
            ;
            q
        } else {
            proof {
                assert(q * page_size <= n) by (nonlinear_arith)
                    requires
                        q == n / page_size,
                        page_size > 0,
                ;
                assert(q < n) by (nonlinear_arith)
                    requires
                        q == n / page_size,
                        page_size > 0,
                        n % page_size != 0,
                        n > 0,
                ;
            }
            q + 1
        }
    }

    /// Lists the registry's items again (see `creative_items`); the page stays.
    pub fn rebuild_from_registry(&mut self, reg: &ItemRegistry)
        ensures
            final(self).items@ == creative_items(*reg),
            final(self).page == old(self).page,
    {
        self.items = listed_items(reg);
    }

    /// Moves the page back onto the last page where it lies past it.
    pub fn clamp_page(&mut self, page_size: usize)
        ensures
            final(self).items == old(self).items,
            final(self).page == if old(self).page < pages_for(old(self).items@.len(), page_size as nat) {
                old(self).page as int
            } else {
                pages_for(old(self).items@.len(), page_size as nat) - 1
            },
    {
        let pages = self.page_count(page_size);
        if self.page >= pages {
            self.page = pages - 1;
        }
    }

    /// Turns to the previous page, if there is one.
    pub fn prev_page(&mut self) -> (r: bool)
        ensures
            r == (old(self).page > 0),
            final(self).items == old(self).items,
            final(self).page as nat == page_after_prev(old(self).page as nat),
    {
        if self.page > 0 {
            self.page = self.page - 1;
            true
        } else {
            false
        }
    }

    /// Turns to the next page, if there is one.
    pub fn next_page(&mut self, page_size: usize) -> (r: bool)
        ensures
            r == (old(self).page + 1 < pages_for(old(self).items@.len(), page_size as nat)),
            final(self).items == old(self).items,
            final(self).page as nat == page_after_next(
                old(self).page as nat,
                old(self).items@.len(),
                page_size as nat,
            ),
    {
        let pages = self.page_count(page_size);
        if self.page < pages - 1 {
            self.page = self.page + 1;
            true
        } else {
            false
        }
    }

    /// The page label `current/total`, pages counted from one.
    pub fn page_label(&self, page_size: usize) -> (r: String)
        requires
            self.page < usize::MAX,
        ensures
            r@ == decimal_chars(self.page as nat + 1) + seq!['/'] + decimal_chars(
                pages_for(self.items@.len(), page_size as nat),
            ),
    {
        let pages = self.page_count(page_size);
        let mut label = String::new();
        push_decimal(&mut label, (self.page + 1) as u64);
        push_char(&mut label, '/');
        push_decimal(&mut label, pages as u64);
        label
    }
}

/// Remembers whether the panel was filled from the registry yet.
pub struct CreativePanelUiState {
    pub synced_once: bool,
}

/// Fills the panel from the registry the first time, and again whenever the
/// number of listed items changed; then keeps the page in range.
pub fn sync_creative_panel_state_from_registry(
    item_registry: &ItemRegistry,
    creative_ui: &mut CreativePanelUiState,
    creative_panel: &mut CreativePanelState,
    page_size: usize,
)
    ensures
        final(creative_ui).synced_once,
        (!old(creative_ui).synced_once || old(creative_panel).items@.len() != creative_items(
            *item_registry,
        ).len()) ==> final(creative_panel).items@ == creative_items(*item_registry),
        (old(creative_ui).synced_once && old(creative_panel).items@.len() == creative_items(
            *item_registry,
        ).len()) ==> final(creative_panel).items == old(creative_panel).items,
        page_in_range(*final(creative_panel), page_size as nat),
{
    let listed = listed_items(item_registry);
    if !creative_ui.synced_once || creative_panel.item_count() != listed.len() {
        creative_panel.items = listed;
        creative_ui.synced_once = true;
    }
    creative_panel.clamp_page(page_size);
}

/// The id of the first hovered button, if any.
pub open spec fn first_hovered_from(buttons: Seq<WidgetState>, i: int) -> Option<int>
    decreases buttons.len() - i,
{
    if i < 0 || i >= buttons.len() {
        None
    } else if buttons[i].hovered {
        Some(i)
    } else {
        first_hovered_from(buttons, i + 1)
    }
}

fn first_hovered_button(buttons: &Vec<WidgetState>) -> (r: Option<usize>)
    ensures
        r matches Some(k) ==> first_hovered_from(buttons@, 0) == Some(k as int) && k < buttons@.len(),
        r is None ==> first_hovered_from(buttons@, 0) is None,
{
    let mut i: usize = 0;
    while i < buttons.len()
        invariant
            i <= buttons@.len(),
            first_hovered_from(buttons@, 0) == first_hovered_from(buttons@, i as int),
        decreases buttons.len() - i,
    {
        if buttons[i].hovered {
            return Some(i);
        }
        i = i + 1;
    }
    None
}

/// A left click on the panel's page buttons: the first hovered button turns
/// the page back (`prev_id`) or on (`next_id`). Returns whether the page moved.
pub fn handle_panel_page_buttons(
    panel_open: bool,
    left_clicked: bool,
    buttons: &Vec<WidgetState>,
    prev_id: &str,
    next_id: &str,
    creative_panel: &mut CreativePanelState,
    page_size: usize,
) -> (r: bool)
    ensures
        final(creative_panel).items == old(creative_panel).items,
        ({
            let target = match first_hovered_from(buttons@, 0) {
                Some(k) => if buttons@[k].css_id@ == prev_id@ {
                    1int
                } else if buttons@[k].css_id@ == next_id@ {
                    2int
                } else {
                    0int
                },
                None => 0int,
            };
            let act = panel_open && left_clicked;
            let moved_back = act && target == 1 && old(creative_panel).page > 0;
            let moved_on = act && target == 2 && old(creative_panel).page + 1 < pages_for(
                old(creative_panel).items@.len(),
                page_size as nat,
            );
            &&& r == (moved_back || moved_on)
            &&& final(creative_panel).page == if moved_back {
                old(creative_panel).page - 1
            } else if moved_on {
                old(creative_panel).page + 1
            } else {
                old(creative_panel).page as int
            }
        }),
{
    if !panel_open || !left_clicked {
        return false;
    }
    let k = match first_hovered_button(buttons) {
        Some(k) => k,
        None => return false,
    };
    if text_equals(buttons[k].css_id.as_str(), prev_id) {
        return creative_panel.prev_page();
    }
    if text_equals(buttons[k].css_id.as_str(), next_id) {
        return creative_panel.next_page(page_size);
    }
    false
}

/// The creative panel's page buttons (while the inventory is open).
pub fn handle_creative_panel_navigation(
    inventory_open: bool,
    left_clicked: bool,
    buttons: &Vec<WidgetState>,
    creative_panel: &mut CreativePanelState,
    page_size: usize,
) -> (r: bool)
    ensures
        final(creative_panel).items == old(creative_panel).items,
        ({
            let target = match first_hovered_from(buttons@, 0) {
                Some(k) => if buttons@[k].css_id@ == CREATIVE_PANEL_PREV_ID@ {
                    1int
                } else if buttons@[k].css_id@ == CREATIVE_PANEL_NEXT_ID@ {
                    2int
                } else {
                    0int
                },
                None => 0int,
            };
            let act = inventory_open && left_clicked;
            let moved_back = act && target == 1 && old(creative_panel).page > 0;
            let moved_on = act && target == 2 && old(creative_panel).page + 1 < pages_for(
                old(creative_panel).items@.len(),
                page_size as nat,
            );
            &&& r == (moved_back || moved_on)
            &&& final(creative_panel).page == if moved_back {
                old(creative_panel).page - 1
            } else if moved_on {
                old(creative_panel).page + 1
            } else {
                old(creative_panel).page as int
            }
        }),
{
    handle_panel_page_buttons(
        inventory_open,
        left_clicked,
        buttons,
        CREATIVE_PANEL_PREV_ID,
        CREATIVE_PANEL_NEXT_ID,
        creative_panel,
        page_size,
    )
}

/// The workbench item browser's page buttons (while the workbench is open).
pub fn handle_workbench_recipe_menu_navigation(
    workbench_open: bool,
    left_clicked: bool,
    buttons: &Vec<WidgetState>,
    creative_panel: &mut CreativePanelState,
    page_size: usize,
) -> (r: bool)
    ensures
        final(creative_panel).items == old(creative_panel).items,
        ({
            let target = match first_hovered_from(buttons@, 0) {
                Some(k) => if buttons@[k].css_id@ == WORKBENCH_ITEMS_PREV_ID@ {
                    1int
                } else if buttons@[k].css_id@ == WORKBENCH_ITEMS_NEXT_ID@ {
                    2int
                } else {
                    0int
                },
                None => 0int,
            };
            let act = workbench_open && left_clicked;
            let moved_back = act && target == 1 && old(creative_panel).page > 0;
            let moved_on = act && target == 2 && old(creative_panel).page + 1 < pages_for(
                old(creative_panel).items@.len(),
                page_size as nat,
            );
            &&& r == (moved_back || moved_on)
            &&& final(creative_panel).page == if moved_back {
                old(creative_panel).page - 1
            } else if moved_on {
                old(creative_panel).page + 1
            } else {
                old(creative_panel).page as int
            }
        }),
{
    handle_panel_page_buttons(
        workbench_open,
        left_clicked,
        buttons,
        WORKBENCH_ITEMS_PREV_ID,
        WORKBENCH_ITEMS_NEXT_ID,
        creative_panel,
        page_size,
    )
}

/// What a click on a browser item did.
#[derive(Clone, Copy, PartialEq, Eq, Debug, Structural)]
pub enum CreativeClick {
    Ignored,
    /// Creative mode: the caller grants the item (a full stack with Shift).
    Grant { item_id: ItemId, full_stack: bool },
    /// Survival mode: the recipe preview was opened for the item (it stays
    /// closed where no recipe makes the item).
    PreviewOpened(ItemId),
    /// The recipe preview was closed.
    PreviewClosed,
}

/// The item a click on browser slot `hovered_slot` picks: with the panel
/// open, a left click, an empty cursor, and an item in that slot of the page.
pub open spec fn clicked_item(
    panel_open: bool,
    left_clicked: bool,
    cursor_empty: bool,
    hovered_slot: Option<usize>,
    panel: CreativePanelState,
    page_size: usize,
) -> Option<ItemId> {
    if !panel_open || !left_clicked || !cursor_empty {
        None
    } else {
        match hovered_slot {
            Some(i) => page_item(panel, i as nat, page_size as nat),
            None => None,
        }
    }
}

/// A left click on an item of the browser: in creative mode the preview
/// closes and the item is granted; in survival mode the recipe preview opens
/// for the item (it closes without a recipe registry); in spectator mode the
/// preview closes.
pub fn creative_item_click(
    panel_open: bool,
    left_clicked: bool,
    shift_held: bool,
    cursor_empty: bool,
    hovered_slot: Option<usize>,
    game_mode: GameMode,
    creative_panel: &CreativePanelState,
    page_size: usize,
    recipe_registry: Option<&RecipeRegistry>,
    item_registry: &ItemRegistry,
    recipe_preview: &mut RecipePreviewDialogState,
) -> (r: CreativeClick)
    requires
        item_registry.wf(),
        old(recipe_preview).wf(),
    ensures
        final(recipe_preview).wf(),
        match clicked_item(
            panel_open,
            left_clicked,
            cursor_empty,
            hovered_slot,
            *creative_panel,
            page_size,
        ) {
            None => r == CreativeClick::Ignored && *final(recipe_preview) == *old(recipe_preview),
            Some(id) => match game_mode {
                GameMode::Creative => r == (CreativeClick::Grant { item_id: id, full_stack: shift_held })
                    && *final(recipe_preview) == (RecipePreviewDialogState {
                    open: false,
                    ..*old(recipe_preview)
                }),
                GameMode::Spectator => r == CreativeClick::PreviewClosed && *final(recipe_preview) == (
                RecipePreviewDialogState { open: false, ..*old(recipe_preview) }),
                GameMode::Survival => match recipe_registry {
                    None => r == CreativeClick::PreviewClosed && *final(recipe_preview) == (
                    RecipePreviewDialogState { open: false, ..*old(recipe_preview) }),
                    Some(rr) => {
                        let found = preview_variants(rr.recipes@, id, *item_registry).len() > 0;
                        let p = *final(recipe_preview);
                        &&& r == CreativeClick::PreviewOpened(id)
                        &&& found ==> p.open && views_of(p.variants@) == preview_variants(
                            rr.recipes@,
                            id,
                            *item_registry,
                        ) && p.selected_variant_index == 0 && p.tab_page == 0 && p.shows_selection()
                        &&& !found ==> !p.open && p.variants@.len() == 0 && p.shows_nothing()
                    },
                },
            },
        },
{
    if !panel_open || !left_clicked || !cursor_empty {
        return CreativeClick::Ignored;
    }
    let slot_index = match hovered_slot {
        Some(i) => i,
        None => return CreativeClick::Ignored,
    };
    let item_id = match creative_panel.item_at_page_slot(slot_index, page_size) {
        Some(id) => id,
        None => return CreativeClick::Ignored,
    };
    match game_mode {
        GameMode::Creative => {
            recipe_preview.open = false;
            CreativeClick::Grant { item_id, full_stack: shift_held }
        },
        GameMode::Survival => match recipe_registry {
            None => {
                recipe_preview.open = false;
                CreativeClick::PreviewClosed
            },
            Some(recipes) => {
                let _ = open_recipe_preview_dialog_for_hovered_item(
                    item_id,
                    recipes,
                    item_registry,
                    recipe_preview,
                );
                CreativeClick::PreviewOpened(item_id)
            },
        },
        GameMode::Spectator => {
            recipe_preview.open = false;
            CreativeClick::PreviewClosed
        },
    }
}

/// Turning back a page and then forward again returns to the page the
/// panel was on, and both turns stay within the pages there are.
pub proof fn lemma_page_back_then_forward(page: nat, item_count: nat, page_size: nat)
    requires
        0 < page < pages_for(item_count, page_size),
    ensures
        page_after_prev(page) < pages_for(item_count, page_size),
        page_after_next(page_after_prev(page), item_count, page_size) == page,
{
}

/// The translation key of the workbench's recipe hint in each game mode.
pub fn workbench_recipe_hint_key(mode: GameMode) -> (r: &'static str)
    ensures
        r@ == match mode {
            GameMode::Creative => "KEY_UI_RECIPE_HINT_CREATIVE"@,
            GameMode::Survival => "KEY_UI_RECIPE_HINT_SURVIVAL"@,
            GameMode::Spectator => "KEY_UI_RECIPE_HINT_SPECTATOR"@,
        },
{
    match mode {
        GameMode::Creative => "KEY_UI_RECIPE_HINT_CREATIVE",
        GameMode::Survival => "KEY_UI_RECIPE_HINT_SURVIVAL",
        GameMode::Spectator => "KEY_UI_RECIPE_HINT_SPECTATOR",
    }
}

/// The inventory's and the workbench's trash buttons show in creative mode
/// only.
pub fn trash_buttons_shown(mode: GameMode) -> (r: bool)
    ensures
        r == (mode == GameMode::Creative),
{
    match mode {
        GameMode::Creative => true,
        _ => false,
    }
}

} // verus!
