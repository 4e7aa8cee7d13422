use oplexa_ui::css_ids::WidgetState;
use oplexa_ui::multiplayer::{
    enter_multiplayer_screen, exit_multiplayer_screen, handle_multiplayer_back_navigation,
    is_active_connected_server, multiplayer_card_style, multiplayer_card_text, multiplayer_delete_prompt,
    rebuild_display_servers, record_rendered_cards, sync_multiplayer_dialogs, update_probed_server,
    DisplayServerEntry, FormInputField, LanServerInfo, MultiplayerBack, MultiplayerUiState, SavedServerEntry,
    ServerFormDialogState, ServerFormMode,
};
use oplexa_ui::single_player::{
    begin_world_load, collect_single_player_actions, enter_single_player_screen, exit_single_player_screen,
    handle_single_player_back_navigation, set_single_player_interaction, single_player_card_text,
    single_player_delete_prompt, sync_single_player_visibility, SavedWorldEntry, SinglePlayerAction,
    SinglePlayerBack, SinglePlayerPage, SinglePlayerUiState,
};
use oplexa_ui::ui_state::{CursorGrabMode, CursorOptions, UiInteractionState};

fn ui() -> UiInteractionState {
    UiInteractionState {
        menu_open: true,
        chat_open: false,
        inventory_open: false,
        structure_menu_open: false,
        workbench_menu_open: false,
        chest_menu_open: false,
    }
}

fn widget(id: &str, checked: bool) -> WidgetState {
    WidgetState { css_id: id.to_string(), hovered: false, checked, focused: false }
}

fn world(name: &str, seed: i32) -> SavedWorldEntry {
    SavedWorldEntry { folder_name: name.to_string(), seed, path: format!("saves/{name}") }
}

fn sp_state(worlds: Vec<SavedWorldEntry>) -> SinglePlayerUiState {
    SinglePlayerUiState {
        page: SinglePlayerPage::List,
        worlds,
        selected_index: None,
        pending_delete_index: None,
        last_card_click: None,
        closing_for_world_load: false,
    }
}

fn mp_state(saved: Vec<SavedServerEntry>) -> MultiplayerUiState {
    MultiplayerUiState {
        saved_servers: saved,
        probed_servers: Vec::new(),
        dismissed_server_keys: Vec::new(),
        display_servers: Vec::new(),
        rendered_keys: Vec::new(),
        selected_key: None,
        form_dialog: None,
        pending_delete_key: None,
        joining_key: None,
    }
}

fn display(online: bool, ping_ms: Option<u32>) -> DisplayServerEntry {
    DisplayServerEntry {
        key: "box:7000".to_string(),
        saved_index: Some(0),
        server_name: "Home".to_string(),
        host: "Box".to_string(),
        port: 7000,
        motd: "hello".to_string(),
        ping_ms,
        online,
        session_url: "http://box:7000".to_string(),
    }
}

#[test]
fn world_buttons_become_actions_and_are_unchecked() {
    let mut widgets = vec![
        widget("single-player-world-card-2", true),
        widget("unrelated", true),
        widget("single-player-world-card-1", false),
    ];
    let actions = collect_single_player_actions(&mut widgets);
    assert_eq!(actions, vec![SinglePlayerAction::SelectWorld(2)]);
    assert!(!widgets[0].checked);
    assert!(!widgets[2].checked);
}

#[test]
fn single_player_screen_flow() {
    let mut state = sp_state(vec![world("a", 1), world("b", 2)]);
    state.selected_index = Some(1);
    let mut inputs: Vec<FormInputField> = Vec::new();
    enter_single_player_screen(&mut state, vec![world("b", 2), world("c", 3)], &mut inputs);
    assert_eq!(state.page, SinglePlayerPage::List);
    assert_eq!(state.selected_index, Some(0));
    assert_eq!(state.last_card_click, Some(usize::MAX));
    assert_eq!(sync_single_player_visibility(&state), (true, false, Some(false)));

    state.pending_delete_index = Some(1);
    assert_eq!(single_player_delete_prompt(&state), "Delete world `c`?");
    assert_eq!(sync_single_player_visibility(&state), (true, false, Some(true)));
    assert_eq!(handle_single_player_back_navigation(&mut state, false), SinglePlayerBack::Stay);
    assert_eq!(handle_single_player_back_navigation(&mut state, true), SinglePlayerBack::ClosedDialog);
    assert_eq!(state.pending_delete_index, None);
    state.page = SinglePlayerPage::CreateWorld;
    assert_eq!(sync_single_player_visibility(&state), (false, true, Some(false)));
    assert_eq!(handle_single_player_back_navigation(&mut state, true), SinglePlayerBack::ToList);
    assert_eq!(state.page, SinglePlayerPage::List);
    assert_eq!(handle_single_player_back_navigation(&mut state, true), SinglePlayerBack::ToMenu);

    let mut ui = ui();
    let mut cursor = CursorOptions { grab_mode: CursorGrabMode::Locked, visible: false };
    set_single_player_interaction(&state, &mut ui, &mut cursor);
    assert!(ui.menu_open && cursor.visible);
    assert_eq!(cursor.grab_mode, CursorGrabMode::Free);

    begin_world_load(&mut state, &mut ui);
    assert!(state.closing_for_world_load && !ui.menu_open);
    assert_eq!(sync_single_player_visibility(&state), (false, false, None));
    let mut cursor = CursorOptions { grab_mode: CursorGrabMode::Locked, visible: false };
    set_single_player_interaction(&state, &mut ui, &mut cursor);
    assert!(!ui.menu_open);
    assert_eq!(cursor.grab_mode, CursorGrabMode::Locked);
    assert!(!cursor.visible);

    exit_single_player_screen(&mut state, &mut ui);
    assert!(!state.closing_for_world_load);
    assert_eq!(state.last_card_click, None);
    assert_eq!(state.selected_index, Some(0));
}

#[test]
fn world_cards_show_name_and_seed() {
    assert_eq!(single_player_card_text(&world("Alpha", -42)), "WeltName: Alpha\nSeed: -42");
    assert_eq!(single_player_card_text(&world("B", 7)), "WeltName: B\nSeed: 7");
    let state = sp_state(vec![world("a", 1)]);
    assert_eq!(single_player_delete_prompt(&state), "Delete world ``?");
}

#[test]
fn server_cards_show_status_and_ping() {
    assert_eq!(
        multiplayer_card_text(&display(true, Some(12)), false),
        "Server Name: Home\nMOTD: hello\nServer IP: Box\nServer Port: 7000\nPing: 12 ms"
    );
    assert_eq!(
        multiplayer_card_text(&display(false, None), true),
        "Server Name: Home\nMOTD: Connected (Discovery unavailable)\nServer IP: Box\nServer Port: 7000\nPing: connected"
    );
    assert_eq!(
        multiplayer_card_text(&display(false, Some(5)), false),
        "Server Name: Home\nMOTD: hello\nServer IP: Box\nServer Port: 7000\nPing: -"
    );
    assert_eq!(multiplayer_card_style(&display(false, None), true, Some("box:7000")), (true, true));
    assert_eq!(multiplayer_card_style(&display(false, None), false, Some("x:1")), (false, false));
    assert_eq!(multiplayer_card_style(&display(true, None), false, None), (true, false));
}

#[test]
fn the_active_server_is_found_by_its_session_url() {
    let server = display(true, None);
    assert!(is_active_connected_server(&server, true, Some("http://BOX:7000/")));
    assert!(!is_active_connected_server(&server, false, Some("http://box:7000")));
    assert!(!is_active_connected_server(&server, true, Some("http://box:7001")));
    assert!(!is_active_connected_server(&server, true, None));
}

#[test]
fn multiplayer_dialogs_and_back_key() {
    let mut state = mp_state(vec![SavedServerEntry { server_name: "Home".to_string(), host: "Box".to_string(), port: 7000 }]);
    let d = sync_multiplayer_dialogs(&state, false);
    assert!(!d.form_visible && !d.delete_visible && !d.connect_visible && d.form_title.is_none());
    state.form_dialog = Some(ServerFormDialogState { mode: ServerFormMode::Edit, editing_saved_index: Some(0) });
    state.pending_delete_key = Some("box:7000".to_string());
    state.joining_key = Some("box:7000".to_string());
    let d = sync_multiplayer_dialogs(&state, false);
    assert!(d.form_visible && d.edit_button_visible && !d.add_button_visible && d.delete_visible && d.connect_visible);
    assert_eq!(d.form_title, Some("Edit Server"));

    assert_eq!(handle_multiplayer_back_navigation(&mut state, false), MultiplayerBack::Stay);
    assert_eq!(handle_multiplayer_back_navigation(&mut state, true), MultiplayerBack::Disconnect);
    assert_eq!(state.joining_key, None);
    assert_eq!(handle_multiplayer_back_navigation(&mut state, true), MultiplayerBack::ClosedDialog);
    assert!(state.form_dialog.is_none());
    rebuild_display_servers(&mut state);
    assert_eq!(multiplayer_delete_prompt(&state), "Delete server `Home`?");
    assert_eq!(handle_multiplayer_back_navigation(&mut state, true), MultiplayerBack::ClosedDialog);
    assert!(state.pending_delete_key.is_none());
    assert_eq!(multiplayer_delete_prompt(&state), "Delete server ``?");
    assert_eq!(handle_multiplayer_back_navigation(&mut state, true), MultiplayerBack::ToMenu);
}

#[test]
fn multiplayer_screen_entry_rebuilds_and_exit_closes_dialogs() {
    let mut state = mp_state(Vec::new());
    let mut form: Vec<FormInputField> = Vec::new();
    let saved = vec![SavedServerEntry { server_name: "Home".to_string(), host: "Box".to_string(), port: 7000 }];
    assert!(enter_multiplayer_screen(&mut state, saved, &mut form));
    assert_eq!(state.display_servers.len(), 1);
    assert_eq!(state.display_servers[0].key, "box:7000");
    record_rendered_cards(&mut state);
    assert_eq!(state.rendered_keys, vec!["box:7000".to_string()]);
    let saved = vec![SavedServerEntry { server_name: "Home".to_string(), host: "Box".to_string(), port: 7000 }];
    assert!(!enter_multiplayer_screen(&mut state, saved, &mut form));

    let mut ui = ui();
    state.joining_key = Some("box:7000".to_string());
    exit_multiplayer_screen(&mut ui, &mut state);
    assert!(!ui.menu_open);
    assert!(state.joining_key.is_none() && state.form_dialog.is_none() && state.pending_delete_key.is_none());
    assert_eq!(state.saved_servers.len(), 1);
}

#[test]
fn discovery_answers_are_stored_once_per_server() {
    let mut state = mp_state(Vec::new());
    let answer = LanServerInfo {
        session_url: "http://Box:7000".to_string(),
        observed_addr: None,
        server_name: "LAN".to_string(),
        motd: "hi".to_string(),
    };
    assert!(update_probed_server(&mut state, answer, None, Some(3)));
    assert_eq!(state.probed_servers.len(), 1);
    assert_eq!(state.probed_servers[0].0, "box:7000");
    assert_eq!(state.probed_servers[0].1.ping_ms, Some(3));
    let again = LanServerInfo {
        session_url: "http://box:7000".to_string(),
        observed_addr: None,
        server_name: "LAN".to_string(),
        motd: "again".to_string(),
    };
    assert!(!update_probed_server(&mut state, again, None, None));
    assert_eq!(state.probed_servers.len(), 1);
    assert_eq!(state.probed_servers[0].1.motd, "again");
    // Without a port in its URL an answer cannot be stored.
    let bad = LanServerInfo {
        session_url: "nothing".to_string(),
        observed_addr: Some("10.0.0.2".to_string()),
        server_name: "x".to_string(),
        motd: String::new(),
    };
    assert!(!update_probed_server(&mut state, bad, None, None));
    assert_eq!(state.probed_servers.len(), 1);
}

use oplexa_ui::servers::{display_server_address, parse_server_address};
use oplexa_ui::single_player::{card_click_counts, normalize_world_name};

#[test]
fn typed_server_addresses_round_trip() {
    let shown = display_server_address("Box", 7000);
    assert_eq!(parse_server_address(&shown), Some(("Box".to_string(), 7000)));
    assert_eq!(parse_server_address("Box"), Some(("Box".to_string(), 14191)));
    assert_eq!(parse_server_address(&display_server_address("10.0.0.5", 0)), Some(("10.0.0.5".to_string(), 0)));
}

#[test]
fn normalizing_a_world_name_twice_changes_nothing() {
    let once = normalize_world_name("  a/b:c?  ");
    assert_eq!(once, "a_b_c_");
    assert_eq!(normalize_world_name(&once), once);
    assert_eq!(normalize_world_name(""), "");
}

#[test]
fn only_clicks_on_listed_worlds_count() {
    let mut state = sp_state(vec![world("a", 1)]);
    assert!(card_click_counts(&state, 0));
    assert!(!card_click_counts(&state, 1));
    state.page = SinglePlayerPage::CreateWorld;
    assert!(!card_click_counts(&state, 0));
}
