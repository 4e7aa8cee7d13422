use oplexa_ui::chest_preview::{chest_hud_layout, chest_hud_slot_shown, chest_hud_slot_source, ChestHudPreview};
use oplexa_ui::creative_panel::{
    creative_item_click, handle_creative_panel_navigation, sync_creative_panel_state_from_registry,
    CreativeClick, CreativePanelUiState, GameMode,
};
use oplexa_ui::css_ids::WidgetState;
use oplexa_ui::hotbar::{track_hotbar_selection_tooltip, HotbarTooltipChange};
use oplexa_ui::inventory::{ChestInventoryUiState, HandCraftedState, PlayerInventory, WorkTableCraftingState};
use oplexa_ui::inventory_click::{
    handle_inventory_drag_and_drop, InventoryClickAction, InventoryClickInput, InventoryScreens,
};
use oplexa_ui::inventory_hover::CreativePanelState;
use oplexa_ui::inventory_panel::{close_player_inventory_ui, toggle_player_inventory_ui, InventoryToggle, PlayerInventoryUiState};
use oplexa_ui::inventory_view::{
    inventory_root_z_index, recipe_preview_fill_visible, recipe_preview_input_badge, recipe_preview_input_cell,
    recipe_preview_input_slot_view, recipe_preview_root_visible, recipe_preview_tab_nav, recipe_preview_tab_view,
    GridCell,
};
use oplexa_ui::recipe_preview::{RecipePreviewCraftingType, RecipeRegistry};
use oplexa_ui::recipe_variants::{RecipePreviewDialogState, RecipePreviewVariant};
use oplexa_ui::registry::{ItemDef, ItemRegistry};
use oplexa_ui::slots::InventorySlot;
use oplexa_ui::stacking::{InventoryCursorItemState, WorkbenchToolSlotsState};
use oplexa_ui::targets::{CursorMove, InventoryUiSlotTarget};
use oplexa_ui::ui_state::{CursorGrabMode, CursorOptions, UiInteractionState, Visibility};
use oplexa_ui::workbench_menu::{
    handle_open_workbench_recipe_menu_request, handle_workbench_recipe_menu_input,
    tick_workbench_craft_progress, ActiveStructurePlacementState, ActiveStructureRecipeState, CraftTick,
    StructureBuildMenuState, WorkbenchCloseKey, WorkbenchRecipeMenuState,
};

fn def(key: &str, stack_limit: u16, block: Option<u16>) -> ItemDef {
    ItemDef {
        key: key.to_string(),
        localized_name: format!("oplexa:{key}"),
        groups: Vec::new(),
        block,
        stack_limit,
    }
}

fn registry() -> ItemRegistry {
    ItemRegistry {
        defs: vec![
            def("", 0, None),
            def("stone", 64, Some(1)),
            def("stick", 16, None),
            def("water_flow_3", 64, Some(7)),
            def("plank", 64, Some(2)),
        ],
        related_items: Vec::new(),
    }
}

fn slot(item_id: u16, count: u16) -> InventorySlot {
    InventorySlot { item_id, count }
}

fn empty() -> InventorySlot {
    InventorySlot { item_id: 0, count: 0 }
}

fn screens(player: Vec<InventorySlot>, cursor: InventorySlot) -> InventoryScreens {
    InventoryScreens {
        cursor_item: InventoryCursorItemState { slot: cursor },
        inventory: PlayerInventory { slots: player },
        chest_inventory: ChestInventoryUiState {
            slots: vec![empty(); 3],
            workbench_left: vec![empty(); 2],
            workbench_right: vec![empty(); 2],
        },
        hand_crafted: HandCraftedState { input_slots: vec![empty(); 2] },
        work_table: WorkTableCraftingState { input_slots: vec![empty(); 8] },
        workbench_tools: WorkbenchToolSlotsState { slots: vec![empty(); 5] },
        recipe_preview: RecipePreviewDialogState::new(),
    }
}

fn input() -> InventoryClickInput {
    InventoryClickInput {
        inventory_open: true,
        workbench_open: false,
        chest_open: false,
        left_clicked: false,
        middle_clicked: false,
        right_clicked: false,
        shift_held: false,
        recipe_key_pressed: false,
        drop_key_pressed: false,
        spectator: false,
        hovered_slot: None,
        hovered_item: None,
        cursor_in_recipe_preview: false,
        cursor_in_inventory: false,
        cursor_in_drop_zone: false,
        cursor_in_workbench: false,
        cursor_in_chest: false,
        workbench_recipe: None,
        player_present: true,
    }
}

fn button(id: &str, hovered: bool) -> WidgetState {
    WidgetState { css_id: id.to_string(), hovered, checked: false, focused: false }
}

fn total(s: &InventoryScreens, id: u16) -> u32 {
    let mut all: Vec<InventorySlot> = Vec::new();
    all.extend(s.inventory.slots.iter().copied());
    all.extend(s.chest_inventory.slots.iter().copied());
    all.extend(s.chest_inventory.workbench_left.iter().copied());
    all.extend(s.chest_inventory.workbench_right.iter().copied());
    all.extend(s.hand_crafted.input_slots.iter().copied());
    all.extend(s.work_table.input_slots.iter().copied());
    all.extend(s.workbench_tools.slots.iter().copied());
    all.push(s.cursor_item.slot);
    all.iter().filter(|x| x.item_id == id && x.count > 0).map(|x| x.count as u32).sum()
}

#[test]
fn clicks_are_ignored_while_every_screen_is_closed() {
    let reg = registry();
    let mut s = screens(vec![slot(1, 5)], empty());
    let mut i = input();
    i.inventory_open = false;
    i.left_clicked = true;
    i.hovered_slot = Some(InventoryUiSlotTarget::Player(0));
    let r = handle_inventory_drag_and_drop(&mut s, i, &Vec::new(), None, &reg, 100);
    assert_eq!(r.action, InventoryClickAction::Ignored);
    assert_eq!(s.inventory.slots, vec![slot(1, 5)]);
}

#[test]
fn trash_button_clears_the_cursor() {
    let reg = registry();
    let mut s = screens(vec![empty()], slot(2, 9));
    let mut i = input();
    i.left_clicked = true;
    let buttons = vec![button("inventory-trash-button", true)];
    let r = handle_inventory_drag_and_drop(&mut s, i, &buttons, None, &reg, 100);
    assert_eq!(r.action, InventoryClickAction::TrashCursor);
    assert_eq!(s.cursor_item.slot, empty());
}

#[test]
fn shift_click_with_workbench_open_fills_work_table_and_resets_build() {
    let reg = registry();
    let mut s = screens(vec![slot(1, 5), slot(2, 3)], empty());
    let mut i = input();
    i.inventory_open = false;
    i.workbench_open = true;
    i.left_clicked = true;
    i.shift_held = true;
    i.hovered_slot = Some(InventoryUiSlotTarget::Player(1));
    let r = handle_inventory_drag_and_drop(&mut s, i, &Vec::new(), None, &reg, 100);
    assert_eq!(r.action, InventoryClickAction::ShiftTransfer(InventoryUiSlotTarget::Player(1)));
    assert!(r.reset_craft_progress);
    assert_eq!(s.inventory.slots, vec![slot(1, 5), empty()]);
    assert_eq!(s.work_table.input_slots[0], slot(2, 3));
}

#[test]
fn left_clicks_pick_up_and_put_down_stacks() {
    let reg = registry();
    let mut s = screens(vec![slot(1, 5), empty()], empty());
    let mut i = input();
    i.left_clicked = true;
    i.hovered_slot = Some(InventoryUiSlotTarget::Player(0));
    let r = handle_inventory_drag_and_drop(&mut s, i, &Vec::new(), None, &reg, 100);
    assert_eq!(r.action, InventoryClickAction::CursorMove(InventoryUiSlotTarget::Player(0), CursorMove::TakeAll));
    assert_eq!(s.cursor_item.slot, slot(1, 5));
    i.hovered_slot = Some(InventoryUiSlotTarget::HandCrafted(1));
    let r = handle_inventory_drag_and_drop(&mut s, i, &Vec::new(), None, &reg, 100);
    assert_eq!(
        r.action,
        InventoryClickAction::CursorMove(InventoryUiSlotTarget::HandCrafted(1), CursorMove::PlaceAll)
    );
    assert_eq!(s.hand_crafted.input_slots[1], slot(1, 5));
    assert_eq!(s.cursor_item.slot, empty());
    assert!(!r.reset_craft_progress);
}

#[test]
fn middle_and_right_clicks_split_stacks() {
    let reg = registry();
    let mut s = screens(vec![slot(2, 7), empty()], empty());
    let mut i = input();
    i.middle_clicked = true;
    i.hovered_slot = Some(InventoryUiSlotTarget::Player(0));
    handle_inventory_drag_and_drop(&mut s, i, &Vec::new(), None, &reg, 100);
    assert_eq!(s.inventory.slots[0], slot(2, 3));
    assert_eq!(s.cursor_item.slot, slot(2, 4));
    let mut i = input();
    i.right_clicked = true;
    i.hovered_slot = Some(InventoryUiSlotTarget::Player(1));
    let r = handle_inventory_drag_and_drop(&mut s, i, &Vec::new(), None, &reg, 100);
    assert_eq!(r.action, InventoryClickAction::CursorMove(InventoryUiSlotTarget::Player(1), CursorMove::PlaceOne));
    assert_eq!(s.inventory.slots[1], slot(2, 1));
    assert_eq!(s.cursor_item.slot, slot(2, 3));
}

#[test]
fn clicks_move_items_without_creating_or_losing_any() {
    let reg = registry();
    let mut s = screens(vec![slot(2, 7), slot(1, 3), empty()], empty());
    let before_sticks = total(&s, 2);
    let before_stone = total(&s, 1);
    let targets = [
        (InventoryUiSlotTarget::Player(0), false, true, false),
        (InventoryUiSlotTarget::WorkTable(2), false, false, true),
        (InventoryUiSlotTarget::Chest(1), true, false, false),
        (InventoryUiSlotTarget::Player(1), true, false, false),
        (InventoryUiSlotTarget::Player(1), true, false, false),
        (InventoryUiSlotTarget::WorkbenchTool(0), true, false, false),
    ];
    for (target, left, middle, right) in targets {
        let mut i = input();
        i.left_clicked = left;
        i.middle_clicked = middle;
        i.right_clicked = right;
        i.hovered_slot = Some(target);
        handle_inventory_drag_and_drop(&mut s, i, &Vec::new(), None, &reg, 100);
        assert_eq!(total(&s, 2), before_sticks);
        assert_eq!(total(&s, 1), before_stone);
    }
}

#[test]
fn drop_key_drops_one_item_of_the_hovered_player_slot() {
    let reg = registry();
    let mut s = screens(vec![slot(2, 3)], empty());
    let mut i = input();
    i.drop_key_pressed = true;
    i.hovered_slot = Some(InventoryUiSlotTarget::Player(0));
    let r = handle_inventory_drag_and_drop(&mut s, i, &Vec::new(), None, &reg, 100);
    assert_eq!(r.action, InventoryClickAction::DropOneFromSlot(0, 2));
    assert_eq!(s.inventory.slots[0], slot(2, 2));
    // Spectators drop nothing.
    i.spectator = true;
    let r = handle_inventory_drag_and_drop(&mut s, i, &Vec::new(), None, &reg, 100);
    assert_eq!(r.action, InventoryClickAction::Ignored);
    assert_eq!(s.inventory.slots[0], slot(2, 2));
}

#[test]
fn clicking_outside_the_panels_drops_the_cursor_stack() {
    let reg = registry();
    let mut s = screens(vec![empty()], slot(1, 12));
    let mut i = input();
    i.left_clicked = true;
    i.cursor_in_inventory = true;
    let r = handle_inventory_drag_and_drop(&mut s, i, &Vec::new(), None, &reg, 100);
    assert_eq!(r.action, InventoryClickAction::Ignored);
    assert_eq!(s.cursor_item.slot, slot(1, 12));
    i.cursor_in_drop_zone = true;
    let r = handle_inventory_drag_and_drop(&mut s, i, &Vec::new(), None, &reg, 100);
    assert_eq!(r.action, InventoryClickAction::DropCursorStack(slot(1, 12)));
    assert_eq!(s.cursor_item.slot, empty());
}

#[test]
fn workbench_result_click_crafts_or_starts_the_timer() {
    let reg = registry();
    let mut s = screens(vec![empty()], empty());
    let mut i = input();
    i.workbench_open = true;
    i.left_clicked = true;
    i.hovered_slot = Some(InventoryUiSlotTarget::WorkbenchResult);
    i.workbench_recipe = Some(true);
    let r = handle_inventory_drag_and_drop(&mut s, i, &Vec::new(), None, &reg, 100);
    assert_eq!(r.action, InventoryClickAction::CraftWorkTable);
    assert!(r.reset_craft_progress);
    i.workbench_recipe = Some(false);
    let r = handle_inventory_drag_and_drop(&mut s, i, &Vec::new(), None, &reg, 100);
    assert_eq!(r.action, InventoryClickAction::StartWorkbenchCraft);
    i.workbench_recipe = None;
    let r = handle_inventory_drag_and_drop(&mut s, i, &Vec::new(), None, &reg, 100);
    assert_eq!(r.action, InventoryClickAction::Ignored);
    i.hovered_slot = Some(InventoryUiSlotTarget::HandCraftedResult);
    let r = handle_inventory_drag_and_drop(&mut s, i, &Vec::new(), None, &reg, 100);
    assert_eq!(r.action, InventoryClickAction::CraftHandCrafted);
}

#[test]
fn recipe_key_without_recipes_does_nothing() {
    let reg = registry();
    let mut s = screens(vec![slot(1, 1)], empty());
    let mut i = input();
    i.recipe_key_pressed = true;
    i.hovered_item = Some(1);
    let r = handle_inventory_drag_and_drop(&mut s, i, &Vec::new(), None, &reg, 100);
    assert_eq!(r.action, InventoryClickAction::Ignored);
    let recipes = RecipeRegistry { recipes: Vec::new() };
    let r = handle_inventory_drag_and_drop(&mut s, i, &Vec::new(), Some(&recipes), &reg, 100);
    assert_eq!(r.action, InventoryClickAction::PreviewOpenForItem(1));
    assert!(!s.recipe_preview.open);
}

#[test]
fn click_outside_open_preview_closes_it() {
    let reg = registry();
    let mut s = screens(vec![slot(1, 1)], empty());
    s.recipe_preview.open = true;
    let mut i = input();
    i.left_clicked = true;
    let r = handle_inventory_drag_and_drop(&mut s, i, &Vec::new(), None, &reg, 100);
    assert_eq!(r.action, InventoryClickAction::PreviewClose);
    assert!(!s.recipe_preview.open);
}

fn cursor_options() -> CursorOptions {
    CursorOptions { grab_mode: CursorGrabMode::Locked, visible: false }
}

fn ui() -> UiInteractionState {
    UiInteractionState {
        menu_open: false,
        chat_open: false,
        inventory_open: false,
        structure_menu_open: false,
        workbench_menu_open: false,
        chest_menu_open: false,
    }
}

#[test]
fn inventory_key_opens_and_closes_the_panel() {
    let reg = registry();
    let mut ui = ui();
    let mut cursor = cursor_options();
    let mut root = Visibility::Hidden;
    let mut panel = PlayerInventoryUiState { open: false };
    let mut cursor_item = InventoryCursorItemState { slot: slot(2, 4) };
    let mut preview = RecipePreviewDialogState::new();
    let mut inv = PlayerInventory { slots: vec![empty(), slot(2, 1)] };
    let mut hand = HandCraftedState { input_slots: vec![slot(1, 2), empty()] };
    let r = toggle_player_inventory_ui(
        true, false, &mut ui, &mut cursor, &mut root, &mut panel, &mut cursor_item, &mut preview, &mut inv,
        &mut hand, Some(&reg), 100,
    );
    assert_eq!(r, InventoryToggle::Opened);
    assert!(panel.open && ui.inventory_open);
    assert_eq!(root, Visibility::Inherited);
    assert_eq!(cursor.grab_mode, CursorGrabMode::Free);

    // The close key first closes a recipe preview.
    preview.open = true;
    let r = toggle_player_inventory_ui(
        false, true, &mut ui, &mut cursor, &mut root, &mut panel, &mut cursor_item, &mut preview, &mut inv,
        &mut hand, Some(&reg), 100,
    );
    assert_eq!(r, InventoryToggle::PreviewClosed);
    assert!(panel.open && !preview.open);

    let r = toggle_player_inventory_ui(
        false, true, &mut ui, &mut cursor, &mut root, &mut panel, &mut cursor_item, &mut preview, &mut inv,
        &mut hand, Some(&reg), 100,
    );
    assert_eq!(r, InventoryToggle::Closed);
    assert!(!panel.open && !ui.inventory_open);
    assert_eq!(root, Visibility::Hidden);
    // The grid and the cursor stack went back into the inventory.
    assert_eq!(hand.input_slots, vec![empty(), empty()]);
    assert_eq!(cursor_item.slot, empty());
    assert_eq!(inv.slots, vec![slot(1, 2), slot(2, 5)]);
    assert!(!close_player_inventory_ui(
        &mut ui, &mut cursor, &mut root, &mut panel, &mut cursor_item, &mut preview, &mut inv, &mut hand,
        Some(&reg), 100,
    ));
}

#[test]
fn another_open_panel_keeps_the_inventory_closed() {
    let mut ui = ui();
    ui.chat_open = true;
    let mut cursor = cursor_options();
    let mut root = Visibility::Hidden;
    let mut panel = PlayerInventoryUiState { open: false };
    let mut cursor_item = InventoryCursorItemState { slot: empty() };
    let mut preview = RecipePreviewDialogState::new();
    let mut inv = PlayerInventory { slots: vec![empty()] };
    let mut hand = HandCraftedState { input_slots: vec![empty(), empty()] };
    let r = toggle_player_inventory_ui(
        true, false, &mut ui, &mut cursor, &mut root, &mut panel, &mut cursor_item, &mut preview, &mut inv,
        &mut hand, None, 100,
    );
    assert_eq!(r, InventoryToggle::Unchanged);
    assert!(!panel.open);
}

fn variant(crafting_type: RecipePreviewCraftingType) -> RecipePreviewVariant {
    RecipePreviewVariant {
        crafting_type,
        input_slot_count: 2,
        input_slots: vec![slot(1, 1), slot(1, 1), empty(), empty(), empty(), empty(), empty(), empty()],
        input_slot_alternatives: vec![vec![1, 4], Vec::new(), Vec::new(), Vec::new(), Vec::new(), Vec::new(), Vec::new(), Vec::new()],
        result_slot: slot(2, 4),
    }
}

#[test]
fn recipe_preview_layout_decisions() {
    assert_eq!(inventory_root_z_index(true, true, false), 51);
    assert_eq!(inventory_root_z_index(false, true, false), 60);
    assert_eq!(inventory_root_z_index(false, false, false), 51);
    assert!(recipe_preview_root_visible(false, false, true, true));
    assert!(!recipe_preview_root_visible(false, false, false, true));
    assert_eq!(recipe_preview_input_cell(Some(RecipePreviewCraftingType::WorkTable), 3), GridCell { column: 2, row: 1, centered: true });
    assert_eq!(recipe_preview_input_cell(Some(RecipePreviewCraftingType::WorkTable), 7), GridCell { column: 3, row: 3, centered: false });
    assert_eq!(recipe_preview_input_cell(Some(RecipePreviewCraftingType::HandCrafted), 1), GridCell { column: 2, row: 1, centered: false });

    let mut p = RecipePreviewDialogState::new();
    p.open = true;
    for _ in 0..5 {
        p.variants.push(variant(RecipePreviewCraftingType::HandCrafted));
    }
    p.crafting_type = Some(RecipePreviewCraftingType::HandCrafted);
    p.input_slot_count = 2;
    p.input_slots = variant(RecipePreviewCraftingType::HandCrafted).input_slots;
    let nav = recipe_preview_tab_nav(&p);
    assert!(!nav.has_prev && nav.has_next);
    p.tab_page = 1;
    let nav = recipe_preview_tab_nav(&p);
    assert!(nav.has_prev && !nav.has_next);
    let tab = recipe_preview_tab_view(&p, 0);
    assert!(tab.shown && !tab.accent);
    assert_eq!(tab.icon_path, Some("assets/textures/icons/hand_crafted_icon.png"));
    assert!(!recipe_preview_tab_view(&p, 1).shown);
    assert!(recipe_preview_fill_visible(&p, false, true));
    assert!(!recipe_preview_fill_visible(&p, false, false));

    // The first slot cycles through its alternatives.
    assert_eq!(recipe_preview_input_slot_view(&p, 0, 0).slot, slot(1, 1));
    assert_eq!(recipe_preview_input_slot_view(&p, 0, 3).slot, slot(4, 1));
    assert!(!recipe_preview_input_slot_view(&p, 2, 0).visible);
    assert_eq!(recipe_preview_input_badge(&p, 1), Some((1, false)));
    assert_eq!(recipe_preview_input_badge(&p, 3), Some((0, true)));
    assert_eq!(recipe_preview_input_badge(&p, 9), None);
}

#[test]
fn creative_panel_lists_items_without_flow_variants_and_pages() {
    let reg = registry();
    let mut ui = CreativePanelUiState { synced_once: false };
    let mut panel = CreativePanelState { items: Vec::new(), page: 7 };
    sync_creative_panel_state_from_registry(&reg, &mut ui, &mut panel, 2);
    assert!(ui.synced_once);
    assert_eq!(panel.items, vec![1, 2, 4]);
    assert_eq!(panel.page, 1);
    assert_eq!(panel.page_count(2), 2);
    assert_eq!(panel.page_label(2), "2/2");
    assert_eq!(panel.item_at_page_slot(0, 2), Some(4));
    assert_eq!(panel.item_at_page_slot(1, 2), None);

    let buttons = vec![button("creative-panel-prev", true), button("creative-panel-next", false)];
    assert!(handle_creative_panel_navigation(true, true, &buttons, &mut panel, 2));
    assert_eq!(panel.page, 0);
    assert!(!handle_creative_panel_navigation(true, true, &buttons, &mut panel, 2));
    assert!(!panel.prev_page());
    assert!(panel.next_page(2));
    assert!(!panel.next_page(2));
}

#[test]
fn creative_item_clicks_per_game_mode() {
    let reg = registry();
    let panel = CreativePanelState { items: vec![1, 2, 4], page: 0 };
    let mut preview = RecipePreviewDialogState::new();
    preview.open = true;
    let r = creative_item_click(true, true, true, true, Some(1), GameMode::Creative, &panel, 4, None, &reg, &mut preview);
    assert_eq!(r, CreativeClick::Grant { item_id: 2, full_stack: true });
    assert!(!preview.open);
    let r = creative_item_click(true, true, false, true, Some(0), GameMode::Survival, &panel, 4, None, &reg, &mut preview);
    assert_eq!(r, CreativeClick::PreviewClosed);
    let r = creative_item_click(true, true, false, false, Some(0), GameMode::Creative, &panel, 4, None, &reg, &mut preview);
    assert_eq!(r, CreativeClick::Ignored);
    let r = creative_item_click(true, true, false, true, Some(3), GameMode::Creative, &panel, 4, None, &reg, &mut preview);
    assert_eq!(r, CreativeClick::Ignored);
}

#[test]
fn workbench_opens_unless_blocked_and_close_key_hands_back() {
    let reg = registry();
    let mut menu = WorkbenchRecipeMenuState { open: false };
    let mut structure = StructureBuildMenuState { open: true };
    let mut recipe = ActiveStructureRecipeState { selected_recipe_name: Some("hut".to_string()) };
    let mut placement = ActiveStructurePlacementState { rotation_quarters: 3 };
    let mut preview = RecipePreviewDialogState::new();
    let mut blocked = ui();
    blocked.inventory_open = true;
    assert!(!handle_open_workbench_recipe_menu_request(
        true, &blocked, &mut menu, &mut structure, &mut recipe, &mut placement, &mut preview
    ));
    assert!(structure.open);
    assert!(handle_open_workbench_recipe_menu_request(
        true, &ui(), &mut menu, &mut structure, &mut recipe, &mut placement, &mut preview
    ));
    assert!(menu.open && !structure.open);
    assert_eq!(recipe.selected_recipe_name, None);
    assert_eq!(placement.rotation_quarters, 0);

    let mut cursor = InventoryCursorItemState { slot: slot(1, 2) };
    let mut table = WorkTableCraftingState { input_slots: vec![slot(2, 3), empty()] };
    let mut tools = WorkbenchToolSlotsState { slots: vec![slot(4, 1)] };
    let mut inv = PlayerInventory { slots: vec![empty(), empty(), empty()] };
    let r = handle_workbench_recipe_menu_input(
        true, &mut menu, &mut preview, &mut cursor, &mut table, &mut tools, &mut inv, Some(&reg), 100,
    );
    assert_eq!(r, WorkbenchCloseKey::Closed);
    assert!(!menu.open);
    assert_eq!(inv.slots, vec![slot(2, 3), slot(4, 1), slot(1, 2)]);
    assert_eq!(cursor.slot, empty());
}

#[test]
fn workbench_build_timer_decisions() {
    assert_eq!(tick_workbench_craft_progress(false, true, Some("a"), "a"), CraftTick::Idle);
    assert_eq!(tick_workbench_craft_progress(true, false, Some("a"), "a"), CraftTick::Reset);
    assert_eq!(tick_workbench_craft_progress(true, true, None, "a"), CraftTick::Reset);
    assert_eq!(tick_workbench_craft_progress(true, true, Some("b"), "a"), CraftTick::Reset);
    assert_eq!(tick_workbench_craft_progress(true, true, Some("a"), "a"), CraftTick::Advance);
}

#[test]
fn chest_preview_compact_and_expanded_layout() {
    let preview = ChestHudPreview {
        total_count: 28,
        slots: vec![slot(1, 1), empty(), slot(1, 2), slot(1, 3), slot(2, 4), empty(), slot(2, 5), slot(2, 6), slot(2, 7)],
        non_empty_count: 7,
    };
    let layout = chest_hud_layout(&preview, false);
    assert_eq!(layout.compact_items, vec![slot(1, 1), slot(1, 2), slot(1, 3), slot(2, 4), slot(2, 5)]);
    assert!(layout.compact_has_more && layout.more_visible && layout.row_visible);
    assert!(chest_hud_slot_shown(&layout, false, 4, 27));
    assert!(!chest_hud_slot_shown(&layout, false, 5, 27));
    assert!(chest_hud_slot_shown(&layout, true, 20, 27));
    assert_eq!(chest_hud_slot_source(&preview, &layout, false, 1), slot(1, 2));
    assert_eq!(chest_hud_slot_source(&preview, &layout, true, 1), empty());
    let expanded = chest_hud_layout(&preview, true);
    assert!(!expanded.more_visible);
    let nothing = ChestHudPreview { total_count: 0, slots: vec![empty(); 4], non_empty_count: 0 };
    assert!(!chest_hud_layout(&nothing, false).row_visible);
}

#[test]
fn hotbar_tooltip_follows_the_selection() {
    let reg = registry();
    let inv = PlayerInventory { slots: vec![slot(2, 1), empty(), slot(9, 1)] };
    let mut last = 0usize;
    assert_eq!(track_hotbar_selection_tooltip(&inv, 0, &mut last, &reg), HotbarTooltipChange::Unchanged);
    assert_eq!(track_hotbar_selection_tooltip(&inv, 1, &mut last, &reg), HotbarTooltipChange::Hide);
    assert_eq!(last, 1);
    assert_eq!(track_hotbar_selection_tooltip(&inv, 0, &mut last, &reg), HotbarTooltipChange::Show(2));
    assert_eq!(track_hotbar_selection_tooltip(&inv, 2, &mut last, &reg), HotbarTooltipChange::Hide);
}
