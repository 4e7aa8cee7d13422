use oplexa_ui::hotbar::{is_hammer_selected_for_hotbar, sync_hotbar_selected_block};
use oplexa_ui::inventory::PlayerInventory;
use oplexa_ui::persistence::{
    clear_inventory_after_world_exit, record_saved_player_data, ActiveInventorySavePath, PositionBits, YawPitchBits,
};
use oplexa_ui::recipe_preview::RecipePreviewCraftingType;
use oplexa_ui::recipe_variants::{recipe_preview_variant_tab_label, RecipePreviewDialogState, RecipePreviewVariant};
use oplexa_ui::registry::{ItemDef, ItemRegistry};
use oplexa_ui::slots::InventorySlot;
use oplexa_ui::text::contains_char;
use oplexa_ui::ui_state::{
    grid_mode_label, sample_chunk_debug_stats, set_multiplayer_interaction, sync_ingame_ui_interaction_state,
    ChunkQueueSizes, CursorGrabMode, CursorOptions, DebugGridMode, UiInteractionState, Visibility,
};

fn def(key: &str, localized_name: &str, block: Option<u16>) -> ItemDef {
    ItemDef { key: key.to_string(), localized_name: localized_name.to_string(), groups: Vec::new(), block, stack_limit: 64 }
}

fn registry() -> ItemRegistry {
    ItemRegistry {
        defs: vec![
            def("", "", None),
            def("stone", "oplexa:stone", Some(5)),
            def("hammer", "oplexa:tool", None),
            def("mallet", "oplexa:hammer", None),
        ],
        related_items: Vec::new(),
    }
}

fn slot(item_id: u16, count: u16) -> InventorySlot {
    InventorySlot { item_id, count }
}

fn ui() -> UiInteractionState {
    UiInteractionState {
        menu_open: false,
        chat_open: true,
        inventory_open: false,
        structure_menu_open: false,
        workbench_menu_open: false,
        chest_menu_open: true,
    }
}

#[test]
fn hotbar_selection_picks_block_and_hammer() {
    let reg = registry();
    let inv = PlayerInventory { slots: vec![slot(1, 3), slot(2, 1), slot(3, 1), slot(0, 0), slot(9, 1)] };
    assert_eq!(sync_hotbar_selected_block(&inv, 0, &reg), 5);
    assert_eq!(sync_hotbar_selected_block(&inv, 1, &reg), 0);
    assert_eq!(sync_hotbar_selected_block(&inv, 3, &reg), 0);
    assert_eq!(sync_hotbar_selected_block(&inv, 4, &reg), 0);
    assert_eq!(sync_hotbar_selected_block(&inv, 9, &reg), 0);
    assert!(!is_hammer_selected_for_hotbar(&inv, 0, &reg));
    assert!(is_hammer_selected_for_hotbar(&inv, 1, &reg));
    assert!(is_hammer_selected_for_hotbar(&inv, 2, &reg));
    assert!(!is_hammer_selected_for_hotbar(&inv, 3, &reg));
    assert!(!is_hammer_selected_for_hotbar(&inv, 4, &reg));
}

#[test]
fn saved_player_data_is_remembered_and_cleared_on_exit() {
    let mut active = ActiveInventorySavePath { path: Some("saves/w/save.data".to_string()), last_saved_position: None, last_saved_yaw_pitch: None };
    let pos = PositionBits { x: 1, y: 2, z: 3 };
    let yaw = YawPitchBits { yaw: 4, pitch: 5 };
    record_saved_player_data(&mut active, Some(pos), Some(yaw));
    assert_eq!(active.path, Some("saves/w/save.data".to_string()));
    assert_eq!(active.last_saved_position, Some(pos));
    assert_eq!(active.last_saved_yaw_pitch, Some(yaw));

    let mut inv = PlayerInventory { slots: vec![slot(1, 3)] };
    clear_inventory_after_world_exit(&mut inv, &mut active, 3);
    assert_eq!(inv.slots, vec![slot(0, 0), slot(0, 0), slot(0, 0)]);
    assert_eq!(active.path, None);
    assert_eq!(active.last_saved_position, None);
    assert_eq!(active.last_saved_yaw_pitch, None);
}

#[test]
fn panels_follow_their_state_or_their_root() {
    let mut ui = ui();
    let r = sync_ingame_ui_interaction_state(&mut ui, false, true, false, false, Some(Visibility::Visible), None, Some(Visibility::Hidden));
    assert!(r.pause_open && r.inventory_open && !r.structure_open && !r.workbench_open);
    assert_eq!(r.pause_root, Visibility::Inherited);
    assert_eq!(r.inventory_root, Visibility::Inherited);
    assert_eq!(r.structure_root, Visibility::Hidden);
    assert_eq!(r.workbench_root, Visibility::Hidden);
    assert!(ui.menu_open && ui.inventory_open && ui.chat_open && ui.chest_menu_open);

    let r = sync_ingame_ui_interaction_state(&mut ui, false, false, false, true, None, None, None);
    assert!(!r.pause_open && r.workbench_open);
    // The inventory root shows under the workbench too.
    assert_eq!(r.inventory_root, Visibility::Inherited);
    assert!(!ui.menu_open && ui.workbench_menu_open);

    let mut cursor = CursorOptions { grab_mode: CursorGrabMode::Locked, visible: false };
    set_multiplayer_interaction(&mut ui, &mut cursor);
    assert!(ui.menu_open && cursor.visible);
    assert_eq!(cursor.grab_mode, CursorGrabMode::Free);
}

#[test]
fn debug_overlay_counts_queues_in_whole_chunks() {
    assert_eq!(grid_mode_label(DebugGridMode::Off), "Off");
    assert_eq!(grid_mode_label(DebugGridMode::Chunks), "On");
    assert_eq!(grid_mode_label(DebugGridMode::AllSubchunks), "All");
    let sizes = ChunkQueueSizes {
        loaded_chunks: 40,
        pending_gen: 2,
        pending_mesh: 9,
        mesh_backlog: 8,
        pending_collider: Some(1),
        collider_backlog: None,
        pending_water_load: Some(3),
        pending_water_mesh: Some(16),
        water_backlog: None,
    };
    let r = sample_chunk_debug_stats(&sizes, 8);
    // 2 + ceil(9/8) + ceil(8/8) + ceil(1/8) + 0 + 3 + ceil(16/8) + 0
    assert_eq!(r.queue_chunks, 2 + 2 + 1 + 1 + 3 + 2);
    assert_eq!(r.loaded_chunks, 40);
    assert_eq!(r.collider_inflight, 1);
    assert_eq!(r.collider_queue, 0);
    assert_eq!(r.water_mesh_inflight, 16);
    // Zero sub-chunks per chunk counts as one.
    assert_eq!(sample_chunk_debug_stats(&sizes, 0).queue_chunks, 2 + 9 + 8 + 1 + 3 + 16);
}

fn variant(crafting_type: RecipePreviewCraftingType) -> RecipePreviewVariant {
    RecipePreviewVariant {
        crafting_type,
        input_slot_count: 2,
        input_slots: vec![slot(0, 0); 8],
        input_slot_alternatives: vec![Vec::new(); 8],
        result_slot: slot(1, 1),
    }
}

#[test]
fn tab_labels_number_variants_of_the_same_grid() {
    let mut p = RecipePreviewDialogState::new();
    p.variants = vec![
        variant(RecipePreviewCraftingType::HandCrafted),
        variant(RecipePreviewCraftingType::WorkTable),
        variant(RecipePreviewCraftingType::HandCrafted),
    ];
    let hand = variant(RecipePreviewCraftingType::HandCrafted);
    let table = variant(RecipePreviewCraftingType::WorkTable);
    assert_eq!(recipe_preview_variant_tab_label(&p, &hand, 0, "Hand"), "Hand 1");
    assert_eq!(recipe_preview_variant_tab_label(&p, &hand, 2, "Hand"), "Hand 2");
    assert_eq!(recipe_preview_variant_tab_label(&p, &table, 1, "Table"), "Table");
}

#[test]
fn character_search() {
    assert!(contains_char("a:b", ':'));
    assert!(!contains_char("ab", ':'));
    assert!(!contains_char("", ':'));
}

use oplexa_ui::creative_panel::handle_workbench_recipe_menu_navigation;
use oplexa_ui::css_ids::{sync_creative_slot_hover_border, sync_workbench_item_slot_hover_border, WidgetState};
use oplexa_ui::inventory::WorkTableCraftingState;
use oplexa_ui::inventory_hover::CreativePanelState;
use oplexa_ui::pause_menu::{close_pause_menu, enforce_pause_menu_visibility, PauseMenuState, UiStack};
use oplexa_ui::stacking::{InventoryCursorItemState, WorkbenchToolSlotsState};
use oplexa_ui::workbench_menu::{close_workbench_recipe_menu_ui, WorkbenchRecipeMenuState};

fn frame(id: &str, hovered: bool) -> WidgetState {
    WidgetState { css_id: id.to_string(), hovered, checked: false, focused: false }
}

#[test]
fn hovered_slot_frames_get_an_accent_border_while_open() {
    let widgets = vec![
        frame("creative-panel-slot-1", false),
        frame("creative-panel-slot-2", true),
        frame("other", true),
        frame("creative-panel-slot-9", true),
    ];
    let scan = sync_creative_slot_hover_border(&widgets, true, 4);
    assert_eq!(scan.hovered, Some(1));
    assert_eq!(scan.accents, vec![Some(false), Some(true), None, None]);
    let scan = sync_creative_slot_hover_border(&widgets, false, 4);
    assert_eq!(scan.accents, vec![Some(false), Some(false), None, None]);

    let widgets = vec![frame("workbench-items-slot-3", true)];
    let scan = sync_workbench_item_slot_hover_border(&widgets, true, 6);
    assert_eq!(scan.hovered, Some(2));
    assert_eq!(scan.accents, vec![Some(true)]);
    assert_eq!(sync_workbench_item_slot_hover_border(&widgets, true, 2).hovered, None);
}

#[test]
fn workbench_item_pages_turn_on_click() {
    let mut panel = CreativePanelState { items: vec![1, 2, 3, 4, 5], page: 0 };
    let next = vec![frame("workbench-items-next", true)];
    let prev = vec![frame("workbench-items-prev", true)];
    assert!(!handle_workbench_recipe_menu_navigation(true, false, &next, &mut panel, 2));
    assert!(handle_workbench_recipe_menu_navigation(true, true, &next, &mut panel, 2));
    assert!(handle_workbench_recipe_menu_navigation(true, true, &next, &mut panel, 2));
    assert_eq!(panel.page, 2);
    assert!(!handle_workbench_recipe_menu_navigation(true, true, &next, &mut panel, 2));
    assert!(!handle_workbench_recipe_menu_navigation(false, true, &prev, &mut panel, 2));
    assert!(handle_workbench_recipe_menu_navigation(true, true, &prev, &mut panel, 2));
    assert_eq!(panel.page, 1);
}

#[test]
fn pause_menu_is_kept_shown_and_closed() {
    let mut ui = ui();
    let open = PauseMenuState { open: true };
    let mut stack = UiStack { current: Some(vec!["hud".to_string()]), ui_update: false };
    let mut cursor = CursorOptions { grab_mode: CursorGrabMode::Locked, visible: false };
    enforce_pause_menu_visibility(false, &open, &mut ui, &mut stack, &mut cursor);
    assert!(ui.menu_open && cursor.visible);
    assert_eq!(stack.current, Some(vec!["hud".to_string(), "pause-menu".to_string()]));
    assert!(stack.ui_update);
    stack.ui_update = false;
    enforce_pause_menu_visibility(false, &open, &mut ui, &mut stack, &mut cursor);
    assert!(!stack.ui_update);

    let mut pause = PauseMenuState { open: true };
    assert!(close_pause_menu(&mut ui, &mut pause, &mut stack, &mut cursor));
    assert!(!pause.open && !ui.menu_open && !cursor.visible);
    assert_eq!(cursor.grab_mode, CursorGrabMode::Locked);
    assert_eq!(stack.current, Some(vec!["hud".to_string()]));
    assert!(!close_pause_menu(&mut ui, &mut pause, &mut stack, &mut cursor));
}

#[test]
fn closing_the_workbench_returns_its_items() {
    let reg = registry();
    let mut ui = ui();
    ui.workbench_menu_open = true;
    let mut menu = WorkbenchRecipeMenuState { open: true };
    let mut root = Visibility::Inherited;
    let mut preview = RecipePreviewDialogState::new();
    preview.open = true;
    let mut cursor = InventoryCursorItemState { slot: slot(1, 2) };
    let mut table = WorkTableCraftingState { input_slots: vec![slot(2, 1), slot(0, 0)] };
    let mut tools = WorkbenchToolSlotsState { slots: vec![slot(3, 1)] };
    let mut inv = PlayerInventory { slots: vec![slot(0, 0), slot(0, 0), slot(0, 0)] };
    close_workbench_recipe_menu_ui(
        &mut ui, &mut menu, &mut root, &mut preview, &mut cursor, &mut table, &mut tools, &mut inv, Some(&reg), 64,
    );
    assert!(!menu.open && !ui.workbench_menu_open && !preview.open);
    assert_eq!(root, Visibility::Hidden);
    assert_eq!(inv.slots, vec![slot(2, 1), slot(3, 1), slot(1, 2)]);
    assert_eq!(table.input_slots, vec![slot(0, 0), slot(0, 0)]);
    assert_eq!(tools.slots, vec![slot(0, 0)]);
    assert_eq!(cursor.slot, slot(0, 0));
}

use oplexa_ui::hotbar::{
    activate_ui_append, hide_hud_hotbar_ui, hotbar_count_text, hotbar_selected_marker, show_hud_hotbar_ui,
};
use oplexa_ui::inventory_view::inventory_cursor_item_view;
use oplexa_ui::multiplayer::{match_probe_answer, LanServerInfo};
use oplexa_ui::ui_state::hide_main_menu;

#[test]
fn hotbar_page_is_appended_once_and_hidden() {
    let mut stack = UiStack { current: None, ui_update: false };
    show_hud_hotbar_ui(&mut stack);
    assert_eq!(stack.current, Some(vec!["hud-hotbar".to_string()]));
    assert!(stack.ui_update);
    stack.ui_update = false;
    show_hud_hotbar_ui(&mut stack);
    assert!(!stack.ui_update);
    activate_ui_append(&mut stack, false, "chat");
    assert_eq!(stack.current, Some(vec!["hud-hotbar".to_string()]));
    activate_ui_append(&mut stack, true, "chat");
    assert_eq!(stack.current, Some(vec!["hud-hotbar".to_string(), "chat".to_string()]));
    stack.ui_update = false;
    hide_hud_hotbar_ui(&mut stack);
    assert_eq!(stack.current, Some(vec!["chat".to_string()]));
    assert!(stack.ui_update);
    // The stack is rebuilt even when the hotbar was not on it.
    stack.ui_update = false;
    hide_hud_hotbar_ui(&mut stack);
    assert!(stack.ui_update);
    let mut only = UiStack { current: Some(vec!["hud-hotbar".to_string()]), ui_update: false };
    hide_hud_hotbar_ui(&mut only);
    assert_eq!(only.current, None);
    let mut none = UiStack { current: None, ui_update: false };
    hide_hud_hotbar_ui(&mut none);
    assert!(!none.ui_update);
}

#[test]
fn hotbar_slots_show_counts_and_the_selection() {
    let inv = PlayerInventory { slots: vec![slot(1, 12), slot(0, 0)] };
    assert_eq!(hotbar_count_text(&inv, 1), Some("12".to_string()));
    assert_eq!(hotbar_count_text(&inv, 0), Some("12".to_string()));
    assert_eq!(hotbar_count_text(&inv, 2), Some(String::new()));
    assert_eq!(hotbar_count_text(&inv, 3), None);
    assert_eq!(hotbar_selected_marker(2, 1), ">");
    assert_eq!(hotbar_selected_marker(1, 1), "");
}

#[test]
fn the_cursor_shows_its_stack_over_an_open_screen() {
    assert_eq!(inventory_cursor_item_view(true, false, false, slot(3, 5)), Some(slot(3, 5)));
    assert_eq!(inventory_cursor_item_view(false, false, true, slot(3, 5)), Some(slot(3, 5)));
    assert_eq!(inventory_cursor_item_view(false, false, false, slot(3, 5)), None);
    assert_eq!(inventory_cursor_item_view(true, true, true, slot(0, 0)), None);
}

#[test]
fn hiding_the_main_menu_releases_input() {
    let mut ui = ui();
    ui.menu_open = true;
    assert_eq!(hide_main_menu(&mut ui), Visibility::Hidden);
    assert!(!ui.menu_open && ui.chat_open);
}

#[test]
fn discovery_answers_match_pending_direct_queries() {
    let answer = |url: &str, addr: Option<&str>| LanServerInfo {
        session_url: url.to_string(),
        observed_addr: addr.map(|a| a.to_string()),
        server_name: "LAN".to_string(),
        motd: String::new(),
    };
    let pending = vec!["box:7000".to_string(), "10.0.0.5:7000".to_string()];
    assert_eq!(match_probe_answer(&answer("http://Box:7000", None), &pending), Some("box:7000".to_string()));
    assert_eq!(
        match_probe_answer(&answer("http://0.0.0.0:7000", Some("10.0.0.5")), &pending),
        Some("10.0.0.5:7000".to_string())
    );
    assert_eq!(match_probe_answer(&answer("http://0.0.0.0:7000", Some("10.0.0.6")), &pending), None);
    assert_eq!(match_probe_answer(&answer("garbage", Some("10.0.0.5")), &pending), None);
}

use oplexa_ui::ui_state::{set_game_input_cursor, sync_chunk_debug_stats};

#[test]
fn game_input_blocking_frees_the_cursor() {
    let mut cursor = CursorOptions { grab_mode: CursorGrabMode::Locked, visible: false };
    set_game_input_cursor(true, &mut cursor);
    assert_eq!(cursor.grab_mode, CursorGrabMode::Free);
    assert!(cursor.visible);
    set_game_input_cursor(false, &mut cursor);
    assert_eq!(cursor.grab_mode, CursorGrabMode::Locked);
    assert!(!cursor.visible);
}

#[test]
fn chunk_counts_are_sampled_only_while_the_overlay_shows() {
    let sizes = ChunkQueueSizes {
        loaded_chunks: 40,
        pending_gen: 2,
        pending_mesh: 9,
        mesh_backlog: 8,
        pending_collider: None,
        collider_backlog: None,
        pending_water_load: None,
        pending_water_mesh: None,
        water_backlog: None,
    };
    let mut stats = sample_chunk_debug_stats(&sizes, 8);
    assert_eq!(stats.dirty_chunks, 0);
    assert_eq!(stats.dirty_subchunks, 0);
    stats.dirty_chunks = 5;
    let bigger = ChunkQueueSizes { loaded_chunks: 99, ..sizes };
    sync_chunk_debug_stats(false, &bigger, 8, &mut stats);
    assert_eq!(stats.loaded_chunks, 40);
    assert_eq!(stats.dirty_chunks, 5);
    sync_chunk_debug_stats(true, &bigger, 8, &mut stats);
    assert_eq!(stats.loaded_chunks, 99);
    assert_eq!(stats.queue_chunks, 2 + 2 + 1);
    assert_eq!(stats.dirty_chunks, 0);
}
