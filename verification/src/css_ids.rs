//! CSS ids of the UI widgets, and the parsers that recover a slot or card
//! number from them (`<prefix><number>`, numbers counted from 1).
use vstd::prelude::*;
use crate::text::{is_prefix, parse_unsigned, parse_usize, starts_with, strip_prefix, text_equals};

verus! {

pub const HAND_CRAFTED_INPUT_SLOTS: usize = 2;
pub const WORK_TABLE_CRAFTING_INPUT_SLOTS: usize = 8;
pub const RECIPE_PREVIEW_INPUT_SLOTS: usize = 8;
pub const RECIPE_PREVIEW_TABS_PER_PAGE: usize = 4;
pub const WORKBENCH_TOOL_SLOTS: usize = 5;

pub const PLAYER_INVENTORY_FRAME_PREFIX: &'static str = "player-inventory-frame-";
pub const HAND_CRAFTED_FRAME_PREFIX: &'static str = "hand-crafted-frame-";
pub const HAND_CRAFTED_RESULT_FRAME_ID: &'static str = "hand-crafted-result-frame";
pub const RECIPE_PREVIEW_TAB_PREFIX: &'static str = "recipe-preview-tab-";
pub const RECIPE_PREVIEW_TAB_ICON_PREFIX: &'static str = "recipe-preview-tab-icon-";
pub const RECIPE_PREVIEW_INPUT_FRAME_PREFIX: &'static str = "recipe-preview-input-frame-";
pub const WORKBENCH_CRAFT_FRAME_PREFIX: &'static str = "workbench-craft-frame-";
pub const WORKBENCH_CRAFT_BADGE_PREFIX: &'static str = "workbench-craft-badge-";
pub const WORKBENCH_RESULT_FRAME_ID: &'static str = "workbench-result-frame";
pub const WORKBENCH_TOOL_FRAME_PREFIX: &'static str = "workbench-tool-frame-";
pub const WORKBENCH_TOOL_BADGE_PREFIX: &'static str = "workbench-tool-badge-";
pub const WORKBENCH_PLAYER_INVENTORY_FRAME_PREFIX: &'static str = "workbench-player-inventory-frame-";
pub const WORKBENCH_PLAYER_INVENTORY_BADGE_PREFIX: &'static str = "workbench-player-inventory-badge-";
pub const WORKBENCH_ITEMS_SLOT_PREFIX: &'static str = "workbench-items-slot-";
pub const CREATIVE_PANEL_SLOT_PREFIX: &'static str = "creative-panel-slot-";
pub const SINGLE_PLAYER_WORLD_CARD_PREFIX: &'static str = "single-player-world-card-";
pub const MULTIPLAYER_CARD_PREFIX: &'static str = "multi-player-server-card-";
pub const HUD_SLOT_BADGE_PREFIX: &'static str = "hud-hotbar-slot-badge-";
pub const PLAYER_INVENTORY_BADGE_PREFIX: &'static str = "player-inventory-badge-";
pub const HAND_CRAFTED_BADGE_PREFIX: &'static str = "hand-crafted-badge-";
pub const HAND_CRAFTED_RESULT_BADGE_ID: &'static str = "hand-crafted-result-badge";
pub const INVENTORY_CURSOR_BADGE_ID: &'static str = "inventory-cursor-badge";
pub const RECIPE_PREVIEW_INPUT_BADGE_PREFIX: &'static str = "recipe-preview-input-badge-";
pub const RECIPE_PREVIEW_RESULT_BADGE_ID: &'static str = "recipe-preview-result-badge";

/// A button or frame of the UI as the widget system reports it.
pub struct WidgetState {
    pub css_id: String,
    pub hovered: bool,
    pub checked: bool,
    pub focused: bool,
}

/// The number after `prefix` in `id`, parsed as a `usize`.
pub open spec fn prefixed_number(id: Seq<char>, prefix: Seq<char>) -> Option<nat> {
    if is_prefix(prefix, id) {
        parse_unsigned(id.subrange(prefix.len() as int, id.len() as int), usize::MAX as nat)
    } else {
        None
    }
}

/// The slot index (number minus one) after `prefix` in `id`, when it is below
/// `limit`.
pub open spec fn prefixed_slot_index(id: Seq<char>, prefix: Seq<char>, limit: nat) -> Option<nat> {
    match prefixed_number(id, prefix) {
        Some(v) => if 1 <= v && v - 1 < limit {
            Some((v - 1) as nat)
        } else {
            None
        },
        None => None,
    }
}

pub open spec fn opt_usize(r: Option<usize>, s: Option<nat>) -> bool {
    match s {
        Some(v) => r == Some(v as usize),
        None => r is None,
    }
}

/// The number that follows `prefix` in `id` (`strip_prefix` then `parse::<usize>`).
pub fn parse_card_index(id: &str, prefix: &str) -> (r: Option<usize>)
    ensures
        opt_usize(r, prefixed_number(id@, prefix@)),
{
    match strip_prefix(id, prefix) {
        Some(rest) => parse_usize(rest),
        None => None,
    }
}

/// The zero-based slot index after `prefix` in `id`, when it is below `limit`.
pub fn parse_prefixed_slot_index(css_id: &str, prefix: &str, limit: usize) -> (r: Option<usize>)
    ensures
        opt_usize(r, prefixed_slot_index(css_id@, prefix@, limit as nat)),
{
    match parse_card_index(css_id, prefix) {
        Some(value) => {
            if value >= 1 && value - 1 < limit {
                Some(value - 1)
            } else {
                None
            }
        },
        None => None,
    }
}

pub fn parse_recipe_preview_input_index(css_id: &str) -> (r: Option<usize>)
    ensures
        opt_usize(
            r,
            prefixed_slot_index(
                css_id@,
                RECIPE_PREVIEW_INPUT_FRAME_PREFIX@,
                RECIPE_PREVIEW_INPUT_SLOTS as nat,
            ),
        ),
{
    parse_prefixed_slot_index(css_id, RECIPE_PREVIEW_INPUT_FRAME_PREFIX, RECIPE_PREVIEW_INPUT_SLOTS)
}

pub fn parse_recipe_preview_tab_slot_index(css_id: &str) -> (r: Option<usize>)
    ensures
        opt_usize(
            r,
            prefixed_slot_index(
                css_id@,
                RECIPE_PREVIEW_TAB_PREFIX@,
                RECIPE_PREVIEW_TABS_PER_PAGE as nat,
            ),
        ),
{
    parse_prefixed_slot_index(css_id, RECIPE_PREVIEW_TAB_PREFIX, RECIPE_PREVIEW_TABS_PER_PAGE)
}

pub fn parse_recipe_preview_tab_icon_slot_index(css_id: &str) -> (r: Option<usize>)
    ensures
        opt_usize(
            r,
            prefixed_slot_index(
                css_id@,
                RECIPE_PREVIEW_TAB_ICON_PREFIX@,
                RECIPE_PREVIEW_TABS_PER_PAGE as nat,
            ),
        ),
{
    parse_prefixed_slot_index(css_id, RECIPE_PREVIEW_TAB_ICON_PREFIX, RECIPE_PREVIEW_TABS_PER_PAGE)
}

pub fn parse_workbench_craft_slot_index(css_id: &str) -> (r: Option<usize>)
    ensures
        opt_usize(
            r,
            prefixed_slot_index(
                css_id@,
                WORKBENCH_CRAFT_FRAME_PREFIX@,
                WORK_TABLE_CRAFTING_INPUT_SLOTS as nat,
            ),
        ),
{
    parse_prefixed_slot_index(css_id, WORKBENCH_CRAFT_FRAME_PREFIX, WORK_TABLE_CRAFTING_INPUT_SLOTS)
}

pub fn parse_workbench_craft_badge_index(css_id: &str) -> (r: Option<usize>)
    ensures
        opt_usize(
            r,
            prefixed_slot_index(
                css_id@,
                WORKBENCH_CRAFT_BADGE_PREFIX@,
                WORK_TABLE_CRAFTING_INPUT_SLOTS as nat,
            ),
        ),
{
    parse_prefixed_slot_index(css_id, WORKBENCH_CRAFT_BADGE_PREFIX, WORK_TABLE_CRAFTING_INPUT_SLOTS)
}

pub fn parse_workbench_tool_slot_index(css_id: &str) -> (r: Option<usize>)
    ensures
        opt_usize(
            r,
            prefixed_slot_index(css_id@, WORKBENCH_TOOL_FRAME_PREFIX@, WORKBENCH_TOOL_SLOTS as nat),
        ),
{
    parse_prefixed_slot_index(css_id, WORKBENCH_TOOL_FRAME_PREFIX, WORKBENCH_TOOL_SLOTS)
}

pub fn parse_workbench_tool_badge_index(css_id: &str) -> (r: Option<usize>)
    ensures
        opt_usize(
            r,
            prefixed_slot_index(css_id@, WORKBENCH_TOOL_BADGE_PREFIX@, WORKBENCH_TOOL_SLOTS as nat),
        ),
{
    parse_prefixed_slot_index(css_id, WORKBENCH_TOOL_BADGE_PREFIX, WORKBENCH_TOOL_SLOTS)
}

/// `player_inventory_slots` is the number of slots of the player's inventory.
pub fn parse_workbench_player_inventory_slot_index(
    css_id: &str,
    player_inventory_slots: usize,
) -> (r: Option<usize>)
    ensures
        opt_usize(
            r,
            prefixed_slot_index(
                css_id@,
                WORKBENCH_PLAYER_INVENTORY_FRAME_PREFIX@,
                player_inventory_slots as nat,
            ),
        ),
{
    parse_prefixed_slot_index(css_id, WORKBENCH_PLAYER_INVENTORY_FRAME_PREFIX, player_inventory_slots)
}

/// `player_inventory_slots` is the number of slots of the player's inventory.
pub fn parse_workbench_player_inventory_badge_index(
    css_id: &str,
    player_inventory_slots: usize,
) -> (r: Option<usize>)
    ensures
        opt_usize(
            r,
            prefixed_slot_index(
                css_id@,
                WORKBENCH_PLAYER_INVENTORY_BADGE_PREFIX@,
                player_inventory_slots as nat,
            ),
        ),
{
    parse_prefixed_slot_index(css_id, WORKBENCH_PLAYER_INVENTORY_BADGE_PREFIX, player_inventory_slots)
}

/// `page_size` is the number of item slots on one page of the item panel.
pub fn parse_workbench_item_slot_index(css_id: &str, page_size: usize) -> (r: Option<usize>)
    ensures
        opt_usize(r, prefixed_slot_index(css_id@, WORKBENCH_ITEMS_SLOT_PREFIX@, page_size as nat)),
{
    parse_prefixed_slot_index(css_id, WORKBENCH_ITEMS_SLOT_PREFIX, page_size)
}

/// `page_size` is the number of item slots on one page of the creative panel.
pub fn parse_creative_slot_index(css_id: &str, page_size: usize) -> (r: Option<usize>)
    ensures
        opt_usize(r, prefixed_slot_index(css_id@, CREATIVE_PANEL_SLOT_PREFIX@, page_size as nat)),
{
    parse_prefixed_slot_index(css_id, CREATIVE_PANEL_SLOT_PREFIX, page_size)
}

/// The world card number in a single-player world card id.
pub fn parse_world_card_index(id: &str) -> (r: Option<usize>)
    ensures
        opt_usize(r, prefixed_number(id@, SINGLE_PLAYER_WORLD_CARD_PREFIX@)),
{
    parse_card_index(id, SINGLE_PLAYER_WORLD_CARD_PREFIX)
}

// ---------------------------------------------------------------------------
// Scans over the reported widget states
// ---------------------------------------------------------------------------

/// The first widget at or after `i` that is hovered and whose id carries a slot
/// index under `prefix` below `limit`, and that index.
pub open spec fn first_hovered_slot_from(
    widgets: Seq<WidgetState>,
    prefix: Seq<char>,
    limit: nat,
    i: int,
) -> Option<nat>
    decreases widgets.len() - i,
{
    if i < 0 || i >= widgets.len() {
        None
    } else if widgets[i].hovered && prefixed_slot_index(widgets[i].css_id@, prefix, limit) is Some {
        prefixed_slot_index(widgets[i].css_id@, prefix, limit)
    } else {
        first_hovered_slot_from(widgets, prefix, limit, i + 1)
    }
}

/// The slot index a hover scan finds is below the scan's limit.
pub proof fn lemma_first_hovered_below(widgets: Seq<WidgetState>, prefix: Seq<char>, limit: nat, i: int)
    ensures
        first_hovered_slot_from(widgets, prefix, limit, i) matches Some(t) ==> t < limit,
    decreases widgets.len() - i,
{
    if 0 <= i < widgets.len() {
        lemma_first_hovered_below(widgets, prefix, limit, i + 1);
    }
}

/// Whether the border of a slot frame is drawn in the accent colour: the panel
/// is open and the frame is hovered.
pub open spec fn accent_border(panel_open: bool, w: WidgetState) -> bool {
    panel_open && w.hovered
}

/// Result of a scan over slot frames: the first hovered slot, and for each frame
/// whether its border is accented (`None` for frames that are not slots).
pub struct SlotHoverScan {
    pub hovered: Option<usize>,
    pub accents: Vec<Option<bool>>,
}

/// Scans slot frames with ids `<prefix><n>`: the hovered slot and the border
/// tone of every slot frame.
pub fn scan_slot_hover(widgets: &Vec<WidgetState>, prefix: &str, limit: usize, panel_open: bool) -> (r:
    SlotHoverScan)
    ensures
        opt_usize(r.hovered, first_hovered_slot_from(widgets@, prefix@, limit as nat, 0)),
        r.accents@.len() == widgets@.len(),
        forall|k: int|
            0 <= k < widgets@.len() ==> (#[trigger] r.accents@[k] == if prefixed_slot_index(
                widgets@[k].css_id@,
                prefix@,
                limit as nat,
            ) is Some {
                Some(accent_border(panel_open, widgets@[k]))
            } else {
                None
            }),
{
    let mut hovered: Option<usize> = None;
    let mut accents: Vec<Option<bool>> = Vec::new();
    let mut i: usize = 0;
    while i < widgets.len()
        invariant
            i <= widgets@.len(),
            accents@.len() == i,
            forall|k: int|
                0 <= k < i ==> (#[trigger] accents@[k] == if prefixed_slot_index(
                    widgets@[k].css_id@,
                    prefix@,
                    limit as nat,
                ) is Some {
                    Some(accent_border(panel_open, widgets@[k]))
                } else {
                    None
                }),
            hovered is None ==> first_hovered_slot_from(widgets@, prefix@, limit as nat, 0)
                == first_hovered_slot_from(widgets@, prefix@, limit as nat, i as int),
            hovered is Some ==> opt_usize(
                hovered,
                first_hovered_slot_from(widgets@, prefix@, limit as nat, 0),
            ),
        decreases widgets.len() - i,
    {
        let w = &widgets[i];
        let parsed = parse_prefixed_slot_index(w.css_id.as_str(), prefix, limit);
        match parsed {
            Some(index) => {
                if hovered.is_none() && w.hovered {
                    hovered = Some(index);
                }
                accents.push(Some(panel_open && w.hovered));
            },
            None => {
                accents.push(None);
            },
        }
        i = i + 1;
    }
    SlotHoverScan { hovered, accents }
}

/// Creative panel slot frames: the hovered slot and the border tones.
pub fn sync_creative_slot_hover_border(
    widgets: &Vec<WidgetState>,
    inventory_open: bool,
    page_size: usize,
) -> (r: SlotHoverScan)
    ensures
        opt_usize(
            r.hovered,
            first_hovered_slot_from(widgets@, CREATIVE_PANEL_SLOT_PREFIX@, page_size as nat, 0),
        ),
        r.accents@.len() == widgets@.len(),
        forall|k: int|
            0 <= k < widgets@.len() ==> (#[trigger] r.accents@[k] == if prefixed_slot_index(
                widgets@[k].css_id@,
                CREATIVE_PANEL_SLOT_PREFIX@,
                page_size as nat,
            ) is Some {
                Some(accent_border(inventory_open, widgets@[k]))
            } else {
                None
            }),
{
    scan_slot_hover(widgets, CREATIVE_PANEL_SLOT_PREFIX, page_size, inventory_open)
}

/// Workbench item-grid slot frames: the hovered slot and the border tones.
pub fn sync_workbench_item_slot_hover_border(
    widgets: &Vec<WidgetState>,
    workbench_open: bool,
    page_size: usize,
) -> (r: SlotHoverScan)
    ensures
        opt_usize(
            r.hovered,
            first_hovered_slot_from(widgets@, WORKBENCH_ITEMS_SLOT_PREFIX@, page_size as nat, 0),
        ),
        r.accents@.len() == widgets@.len(),
        forall|k: int|
            0 <= k < widgets@.len() ==> (#[trigger] r.accents@[k] == if prefixed_slot_index(
                widgets@[k].css_id@,
                WORKBENCH_ITEMS_SLOT_PREFIX@,
                page_size as nat,
            ) is Some {
                Some(accent_border(workbench_open, widgets@[k]))
            } else {
                None
            }),
{
    scan_slot_hover(widgets, WORKBENCH_ITEMS_SLOT_PREFIX, page_size, workbench_open)
}

/// The recipe-preview tab under the cursor: the first hovered button whose id
/// is a tab id.
pub fn hovered_recipe_preview_tab_slot_index(buttons: &Vec<WidgetState>) -> (r: Option<usize>)
    ensures
        opt_usize(
            r,
            first_hovered_slot_from(
                buttons@,
                RECIPE_PREVIEW_TAB_PREFIX@,
                RECIPE_PREVIEW_TABS_PER_PAGE as nat,
                0,
            ),
        ),
{
    scan_slot_hover(buttons, RECIPE_PREVIEW_TAB_PREFIX, RECIPE_PREVIEW_TABS_PER_PAGE, true).hovered
}

/// Whether some button with id `css_id_target` is hovered.
pub fn is_button_hovered(buttons: &Vec<WidgetState>, css_id_target: &str) -> (r: bool)
    ensures
        r == exists|k: int|
            0 <= k < buttons@.len() && #[trigger] buttons@[k].css_id@ == css_id_target@
                && buttons@[k].hovered,
{
    let mut i: usize = 0;
    while i < buttons.len()
        invariant
            i <= buttons@.len(),
            forall|k: int|
                0 <= k < i ==> !(#[trigger] buttons@[k].css_id@ == css_id_target@
                    && buttons@[k].hovered),
        decreases buttons.len() - i,
    {
        if text_equals(buttons[i].css_id.as_str(), css_id_target) && buttons[i].hovered {
            assert(buttons@[i as int].css_id@ == css_id_target@);
            return true;
        }
        i = i + 1;
    }
    false
}


/// Whether a text widget is an item-count badge, styled as one: the hotbar,
/// inventory, hand-crafting and recipe-preview input badges by prefix, and the
/// two result badges and the cursor badge by id.
pub open spec fn is_count_badge_id(id: Seq<char>) -> bool {
    ||| is_prefix(HUD_SLOT_BADGE_PREFIX@, id)
    ||| is_prefix(PLAYER_INVENTORY_BADGE_PREFIX@, id)
    ||| is_prefix(HAND_CRAFTED_BADGE_PREFIX@, id)
    ||| is_prefix(RECIPE_PREVIEW_INPUT_BADGE_PREFIX@, id)
    ||| id == HAND_CRAFTED_RESULT_BADGE_ID@
    ||| id == RECIPE_PREVIEW_RESULT_BADGE_ID@
    ||| id == INVENTORY_CURSOR_BADGE_ID@
}

/// Whether the widget with this CSS id is an item-count badge.
pub fn is_slot_count_badge_id(css_id: &str) -> (r: bool)
    ensures
        r == is_count_badge_id(css_id@),
{
    starts_with(css_id, HUD_SLOT_BADGE_PREFIX) || starts_with(css_id, PLAYER_INVENTORY_BADGE_PREFIX)
        || starts_with(css_id, HAND_CRAFTED_BADGE_PREFIX) || starts_with(
        css_id,
        RECIPE_PREVIEW_INPUT_BADGE_PREFIX,
    ) || text_equals(css_id, HAND_CRAFTED_RESULT_BADGE_ID) || text_equals(
        css_id,
        RECIPE_PREVIEW_RESULT_BADGE_ID,
    ) || text_equals(css_id, INVENTORY_CURSOR_BADGE_ID)
}

} // verus!
