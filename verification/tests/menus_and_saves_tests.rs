use oplexa_ui::css_ids::WidgetState;
use oplexa_ui::inventory::PlayerInventory;
use oplexa_ui::multiplayer::{
    apply_multiplayer_action, collect_multiplayer_actions, parse_multiplayer_action, FormInputField,
    MultiplayerAction, MultiplayerUiState, SavedServerEntry,
};
use oplexa_ui::pause_menu::{
    consume_pause_menu_action, handle_pause_menu_buttons, pause_menu_requests, pause_menu_ui_in_stack,
    pause_menu_widgets_visible, sync_pause_time, toggle_pause_menu, PauseMenuAction, PauseMenuState,
    PauseTime, UiStack, WidgetVisibility,
};
use oplexa_ui::persistence::{
    decode_inventory_blob, encode_inventory_blob, load_inventory_for_world_entry, player_data_to_save,
    resolve_inventory_save_path, should_persist_player_data, temp_save_file_name, ActiveInventorySavePath,
    DecodeError, PlayerDataLoad, PositionBits, SaveFileRead, YawPitchBits,
};
use oplexa_ui::single_player::{
    apply_single_player_action, generate_seed, normalize_world_name, parse_single_player_action,
    unique_world_name, SavedWorldEntry, SinglePlayerAction, SinglePlayerEffect, SinglePlayerPage,
    SinglePlayerUiState,
};
use oplexa_ui::slots::InventorySlot;
use oplexa_ui::ui_state::{
    handle_main_menu_buttons, CursorGrabMode, CursorOptions, MenuScreen, UiInteractionState, Visibility,
};
use oplexa_ui::world_flow::{is_loading_state, AppState, BeforeUiState, LoadingStates};

fn slot(item_id: u16, count: u16) -> InventorySlot {
    InventorySlot { item_id, count }
}

fn empty() -> InventorySlot {
    InventorySlot { item_id: 0, count: 0 }
}

#[test]
fn save_data_round_trips() {
    let inv = PlayerInventory { slots: vec![slot(3, 20), empty(), slot(7, 1)] };
    let pos = PositionBits { x: 1.5f32.to_bits(), y: (-64.0f32).to_bits(), z: 3.25f32.to_bits() };
    let yaw = YawPitchBits { yaw: 0.5f32.to_bits(), pitch: (-0.25f32).to_bits() };
    let blob = encode_inventory_blob(&inv, Some(pos), Some(yaw));
    assert_eq!(&blob[0..4], b"PINV");
    assert_eq!(blob[4], 3);
    assert_eq!(blob.len(), 8 + 12 + 12 + 8);
    let loaded = decode_inventory_blob(&blob, 3, 64).unwrap();
    assert_eq!(loaded.inventory.slots, inv.slots);
    assert_eq!(loaded.position, Some(pos));
    assert_eq!(loaded.yaw_pitch, Some(yaw));
}

#[test]
fn loading_caps_stacks_and_fits_the_capacity() {
    let inv = PlayerInventory { slots: vec![slot(3, 200), slot(0, 5), slot(7, 1)] };
    let blob = encode_inventory_blob(&inv, None, None);
    let loaded = decode_inventory_blob(&blob, 4, 64).unwrap();
    assert_eq!(loaded.inventory.slots, vec![slot(3, 64), empty(), slot(7, 1), empty()]);
    assert_eq!(loaded.position, None);
    let loaded = decode_inventory_blob(&blob, 1, 64).unwrap();
    assert_eq!(loaded.inventory.slots, vec![slot(3, 64)]);
}

#[test]
fn refused_save_files() {
    assert_eq!(decode_inventory_blob(b"PINV", 2, 64).err(), Some(DecodeError::FileTooSmall));
    assert_eq!(decode_inventory_blob(b"XINV\x03\x00\x00\x00", 2, 64).err(), Some(DecodeError::MagicMismatch));
    assert_eq!(decode_inventory_blob(b"PINV\x09\x00\x00\x00", 2, 64).err(), Some(DecodeError::UnsupportedVersion));
    assert_eq!(
        decode_inventory_blob(b"PINV\x03\x01\x00\x00\x01\x00", 2, 64).err(),
        Some(DecodeError::TruncatedPayload)
    );
    assert_eq!(
        decode_inventory_blob(b"PINV\x03\x00\x00\x01\x00\x00", 2, 64).err(),
        Some(DecodeError::TruncatedPlayerPosition)
    );
    let mut blob = b"PINV\x03\x00\x00\x02".to_vec();
    blob.extend_from_slice(&[0, 0, 0]);
    assert_eq!(decode_inventory_blob(&blob, 2, 64).err(), Some(DecodeError::TruncatedYawPitch));
    assert_eq!(DecodeError::TruncatedYawPitch.message(), "truncated yaw/pitch");
    // Version 1 files have no flag byte.
    let v1 = b"PINV\x01\x01\x00\x02\x00\x05\x00";
    let loaded = decode_inventory_blob(v1, 2, 64).unwrap();
    assert_eq!(loaded.inventory.slots, vec![slot(2, 5), empty()]);
}

#[test]
fn entering_a_world_loads_or_starts_fresh() {
    let inv0 = PlayerInventory { slots: vec![slot(1, 1)] };
    let blob = encode_inventory_blob(&inv0, None, None);
    let mut inv = PlayerInventory { slots: vec![slot(9, 9), slot(9, 9)] };
    let mut active = ActiveInventorySavePath { path: None, last_saved_position: None, last_saved_yaw_pitch: None };
    let path = resolve_inventory_save_path(true, Some("saves/w1"));
    assert_eq!(path, Some("saves/w1/save.data".to_string()));
    let r = load_inventory_for_world_entry(true, path.clone(), SaveFileRead::Bytes(blob), &mut inv, &mut active, 2, 64);
    assert_eq!(r, PlayerDataLoad::Loaded);
    assert_eq!(inv.slots, vec![slot(1, 1), empty()]);
    assert_eq!(active.path, path);

    let r = load_inventory_for_world_entry(true, path.clone(), SaveFileRead::Bytes(b"junk".to_vec()), &mut inv, &mut active, 2, 64);
    assert_eq!(r, PlayerDataLoad::Invalid(DecodeError::FileTooSmall));
    assert_eq!(inv.slots, vec![empty(), empty()]);

    let mut inv = PlayerInventory { slots: vec![slot(9, 9)] };
    let r = load_inventory_for_world_entry(false, None, SaveFileRead::Missing, &mut inv, &mut active, 2, 64);
    assert_eq!(r, PlayerDataLoad::NoPath);
    assert_eq!(inv.slots, vec![slot(9, 9)]);
    assert_eq!(resolve_inventory_save_path(false, Some("saves/w1")), None);
}

#[test]
fn saving_decisions() {
    assert!(should_persist_player_data(true, true, false, false, false));
    assert!(should_persist_player_data(true, false, true, true, false));
    assert!(!should_persist_player_data(true, false, false, true, true));
    assert!(!should_persist_player_data(false, true, true, true, true));
    let pos = PositionBits { x: 1, y: 2, z: 3 };
    let active = ActiveInventorySavePath { path: None, last_saved_position: Some(pos), last_saved_yaw_pitch: None };
    assert_eq!(player_data_to_save(&active, None), (Some(pos), None));
    let yaw = YawPitchBits { yaw: 4, pitch: 5 };
    let other = PositionBits { x: 7, y: 8, z: 9 };
    assert_eq!(player_data_to_save(&active, Some((other, yaw))), (Some(other), Some(yaw)));
    assert_eq!(temp_save_file_name(Some("save.data")), "save.data.tmp");
    assert_eq!(temp_save_file_name(Some("")), "save.data.tmp");
    assert_eq!(temp_save_file_name(None), "save.data.tmp");
}

fn ui() -> UiInteractionState {
    UiInteractionState {
        menu_open: false,
        chat_open: false,
        inventory_open: false,
        structure_menu_open: false,
        workbench_menu_open: false,
        chest_menu_open: false,
    }
}

fn widget(id: &str, checked: bool) -> WidgetState {
    WidgetState { css_id: id.to_string(), hovered: false, checked, focused: false }
}

#[test]
fn pause_menu_toggles_and_keeps_its_page_on_the_stack() {
    let mut ui = ui();
    let mut pause = PauseMenuState { open: false };
    let mut stack = UiStack { current: Some(vec!["hud".to_string()]), ui_update: false };
    let mut cursor = CursorOptions { grab_mode: CursorGrabMode::Locked, visible: false };
    assert!(toggle_pause_menu(true, false, false, &mut ui, &mut pause, &mut stack, &mut cursor));
    assert!(pause.open && ui.menu_open);
    assert_eq!(stack.current, Some(vec!["hud".to_string(), "pause-menu".to_string()]));
    assert!(stack.ui_update);
    assert!(pause_menu_ui_in_stack(&stack, false));
    assert!(!pause_menu_ui_in_stack(&stack, true));
    assert_eq!(cursor.grab_mode, CursorGrabMode::Free);

    stack.ui_update = false;
    assert!(toggle_pause_menu(false, true, false, &mut ui, &mut pause, &mut stack, &mut cursor));
    assert!(!pause.open && !ui.menu_open);
    assert_eq!(stack.current, Some(vec!["hud".to_string()]));
    assert!(stack.ui_update);
    // The close key does nothing while the menu is closed.
    assert!(!toggle_pause_menu(false, true, false, &mut ui, &mut pause, &mut stack, &mut cursor));

    // Only the pause page: hiding it empties the stack.
    let mut stack = UiStack { current: Some(vec!["pause-menu-multiplayer".to_string()]), ui_update: false };
    let mut pause = PauseMenuState { open: true };
    assert!(toggle_pause_menu(true, false, true, &mut ui, &mut pause, &mut stack, &mut cursor));
    assert_eq!(stack.current, None);
}

#[test]
fn pause_menu_buttons() {
    let mut widgets = vec![widget("other", true), widget("pause-menu-close", true), widget("pause-menu-play", true)];
    assert_eq!(consume_pause_menu_action(&mut widgets), Some(PauseMenuAction::ExitToMenu));
    assert!(!widgets[0].checked && !widgets[1].checked && widgets[2].checked);

    let mut ui = ui();
    ui.menu_open = true;
    let mut pause = PauseMenuState { open: true };
    let mut stack = UiStack { current: Some(vec!["pause-menu".to_string()]), ui_update: false };
    let mut cursor = CursorOptions { grab_mode: CursorGrabMode::Free, visible: true };
    let mut widgets = vec![widget("pause-menu-play", true)];
    let r = handle_pause_menu_buttons(false, &mut ui, &mut pause, &mut widgets, &mut stack, &mut cursor);
    assert_eq!(r, Some(PauseMenuAction::BackToGame));
    assert!(!pause.open && !ui.menu_open);
    assert_eq!(cursor.grab_mode, CursorGrabMode::Locked);
    assert_eq!(stack.current, None);

    let req = pause_menu_requests(PauseMenuAction::ExitToMenu, true);
    assert!(req.disconnect && req.stop_lan_host && req.exit_to_menu && !req.open_to_lan);
    let req = pause_menu_requests(PauseMenuAction::OpenToLan, true);
    assert!(req.open_to_lan && !req.disconnect);
}

#[test]
fn game_time_stops_only_in_a_local_game_with_the_menu_shown() {
    let shown = vec![WidgetVisibility { css_id: "pause-menu-play".to_string(), visibility: Visibility::Inherited }];
    let hidden = vec![WidgetVisibility { css_id: "pause-menu-play".to_string(), visibility: Visibility::Hidden }];
    assert!(pause_menu_widgets_visible(&shown));
    assert!(!pause_menu_widgets_visible(&hidden));
    assert_eq!(sync_pause_time(true, false, true, false), PauseTime::Pause);
    assert_eq!(sync_pause_time(true, true, true, true), PauseTime::Unpause);
    assert_eq!(sync_pause_time(true, false, true, true), PauseTime::Keep);
    assert_eq!(sync_pause_time(false, false, false, false), PauseTime::Keep);
}

#[test]
fn main_menu_buttons_lead_to_screens() {
    let mut widgets = vec![widget("main-menu-multi-player", true)];
    assert_eq!(handle_main_menu_buttons(&mut widgets), Some(MenuScreen::MultiPlayer));
    assert!(!widgets[0].checked);
    let mut widgets = vec![widget("main-menu-quit", true)];
    assert_eq!(handle_main_menu_buttons(&mut widgets), None);
}

fn mp_state(saved: Vec<SavedServerEntry>) -> MultiplayerUiState {
    MultiplayerUiState {
        saved_servers: saved,
        probed_servers: Vec::new(),
        dismissed_server_keys: Vec::new(),
        display_servers: Vec::new(),
        rendered_keys: Vec::new(),
        selected_key: None,
        form_dialog: None,
        pending_delete_key: None,
        joining_key: None,
    }
}

#[test]
fn multiplayer_buttons_and_cards() {
    assert_eq!(parse_multiplayer_action("multi-player-join-server"), Some(MultiplayerAction::JoinServer));
    assert_eq!(parse_multiplayer_action("multi-player-server-card-3"), Some(MultiplayerAction::SelectServer(3)));
    assert_eq!(parse_multiplayer_action("nothing"), None);
    let mut widgets = vec![widget("multi-player-add-server", true), widget("multi-player-back", true)];
    assert_eq!(collect_multiplayer_actions(&mut widgets), vec![MultiplayerAction::OpenAddServer]);
}

#[test]
fn multiplayer_select_then_join_asks_to_connect() {
    let mut state = mp_state(vec![SavedServerEntry { server_name: "Home".to_string(), host: "Box".to_string(), port: 7000 }]);
    oplexa_ui::multiplayer::rebuild_display_servers(&mut state);
    assert_eq!(state.display_servers.len(), 1);
    let mut form: Vec<FormInputField> = Vec::new();
    apply_multiplayer_action(&mut state, &mut form, MultiplayerAction::SelectServer(0));
    assert_eq!(state.selected_key, Some("box:7000".to_string()));
    let e = apply_multiplayer_action(&mut state, &mut form, MultiplayerAction::JoinServer);
    assert_eq!(e.connect, Some(("http://Box:7000".to_string(), "Home".to_string())));
    assert_eq!(state.joining_key, Some("box:7000".to_string()));
}

fn world(name: &str) -> SavedWorldEntry {
    SavedWorldEntry { folder_name: name.to_string(), seed: 1, path: format!("saves/{name}") }
}

fn sp_state(worlds: Vec<SavedWorldEntry>) -> SinglePlayerUiState {
    SinglePlayerUiState {
        page: SinglePlayerPage::List,
        worlds,
        selected_index: None,
        pending_delete_index: None,
        last_card_click: None,
        closing_for_world_load: false,
    }
}

#[test]
fn single_player_double_click_loads_a_world() {
    assert_eq!(parse_single_player_action("single-player-world-card-1"), Some(SinglePlayerAction::SelectWorld(1)));
    let mut state = sp_state(vec![world("a"), world("b")]);
    let mut ui = ui();
    ui.menu_open = true;
    let mut form: Vec<FormInputField> = Vec::new();
    let e = apply_single_player_action(&mut state, &mut ui, &mut form, SinglePlayerAction::SelectWorld(1), false);
    assert_eq!(e, SinglePlayerEffect::Stay);
    assert_eq!(state.selected_index, Some(1));
    let e = apply_single_player_action(&mut state, &mut ui, &mut form, SinglePlayerAction::SelectWorld(1), true);
    assert_eq!(e, SinglePlayerEffect::LoadWorld(1));
    assert!(state.closing_for_world_load && !ui.menu_open);
}

#[test]
fn single_player_delete_needs_confirmation() {
    let mut state = sp_state(vec![world("a")]);
    state.selected_index = Some(0);
    let mut ui = ui();
    let mut form: Vec<FormInputField> = Vec::new();
    let e = apply_single_player_action(&mut state, &mut ui, &mut form, SinglePlayerAction::DeleteWorld, false);
    assert_eq!(e, SinglePlayerEffect::Stay);
    assert_eq!(state.pending_delete_index, Some(0));
    let e = apply_single_player_action(&mut state, &mut ui, &mut form, SinglePlayerAction::ConfirmDelete, false);
    assert_eq!(e, SinglePlayerEffect::DeleteWorld(0));
    assert_eq!(state.selected_index, None);
}

#[test]
fn world_names_and_seeds() {
    assert_eq!(normalize_world_name("  My:World?  "), "My_World_");
    let taken = vec!["w".to_string(), "w-2".to_string()];
    assert_eq!(unique_world_name("w", &taken, 5), "w-3");
    assert_eq!(unique_world_name("x", &taken, 5), "x");
    assert_eq!(generate_seed(7, 0, 0), 7);
    assert_eq!(generate_seed(-3, 0, 0), 1);
    assert_eq!(generate_seed(7, 0, 42), 42);
    assert_eq!(generate_seed(7, 0, 0xFFFF_FFFF), 1);
}

#[test]
fn loading_states() {
    assert!(is_loading_state(AppState::Loading(LoadingStates::BaseGen)));
    assert!(!is_loading_state(AppState::Screen(BeforeUiState::Menu)));
}
