use oplexa_ui::chat::{autocomplete_mention, next_mention_span, parse_mention_end, resolve_chat_suggestion};
use oplexa_ui::chat_spans::{
    chat_line_segments, chat_render_start, earliest_special_span, next_location_span, parse_ascii_number_end,
    parse_location_token, ByteRange, ChatSegment, ChatSpecialSpan, LocationToken,
};
use oplexa_ui::chat_ui::{
    close_chat_ui_on_exit, refresh_chat_suggestion, update_chat_ui_state, ChatFade, ChatKeys, ChatUiState,
};
use oplexa_ui::servers::{
    discovery_port_for, display_server_address, offline_status_message, parse_server_address,
    parse_session_url, server_key, session_url_to_key,
};
use oplexa_ui::text::{
    decimal_string, equals_ignore_ascii_case, find_text, parse_i32, parse_u16, parse_usize, path_join,
    rfind_char, rfind_text, to_ascii_lowercase, trim, trim_matches_char,
};
use oplexa_ui::ui_state::{CursorGrabMode, CursorOptions, UiInteractionState};

fn text_of(line: &str, r: ByteRange) -> &str {
    &line[r.start..r.end]
}

#[test]
fn text_helpers() {
    assert_eq!(trim("  hi there \t"), "hi there");
    assert_eq!(to_ascii_lowercase("HeLLo-1"), "hello-1");
    assert!(equals_ignore_ascii_case("Stone", "sTONE"));
    assert_eq!(parse_usize("42"), Some(42));
    assert_eq!(parse_usize("4x"), None);
    assert_eq!(parse_u16("65535"), Some(65535));
    assert_eq!(parse_u16("65536"), None);
    assert_eq!(parse_i32("-17"), Some(-17));
    assert_eq!(parse_i32("+5"), Some(5));
    assert_eq!(decimal_string(1207), "1207");
    assert_eq!(rfind_char("a/b/c", '/'), Some(3));
    assert_eq!(find_text("abcabc", "ca"), Some(2));
    assert_eq!(rfind_text("x_flow_1_flow_2", "_flow_"), Some(8));
    assert_eq!(trim_matches_char("//path//", '/'), "path");
    assert_eq!(path_join("saves/world", "save.data"), "saves/world/save.data");
}

#[test]
fn mentions_in_a_line() {
    let line = "hi @bob and @{Big Al} @ ok";
    assert_eq!(parse_mention_end(line, 3), Some(7));
    assert_eq!(parse_mention_end(line, 12), Some(21));
    assert_eq!(parse_mention_end(line, 22), None);
    assert_eq!(next_mention_span(line, 0), Some((3, 7)));
    assert_eq!(next_mention_span(line, 7), Some((12, 21)));
    assert_eq!(next_mention_span(line, 21), None);
}

#[test]
fn mention_completion_and_suggestions() {
    let names = vec!["Alice".to_string(), "bob".to_string(), "Bobby Tables".to_string()];
    assert_eq!(autocomplete_mention("hey @al", &names), Some("hey @Alice".to_string()));
    assert_eq!(autocomplete_mention("hey", &names), None);
    let commands = vec!["/time".to_string(), "/tp".to_string()];
    assert_eq!(resolve_chat_suggestion("  /ti", &names, &commands), Some("/time".to_string()));
    assert_eq!(resolve_chat_suggestion("/time", &names, &vec!["/time".to_string()]), None);
}

#[test]
fn coordinates_and_location_tokens() {
    let b = b"+12.5x";
    assert_eq!(parse_ascii_number_end(b, 0), Some(5));
    assert_eq!(parse_ascii_number_end(b"-.", 0), None);
    assert_eq!(parse_ascii_number_end(b"7.", 0), Some(2));
    assert_eq!(parse_ascii_number_end(b".5", 0), Some(2));

    let line = "go to &:[ 1, -2.5 ,3] now";
    let token = parse_location_token(line, 6).unwrap();
    assert_eq!(token.start, 6);
    assert_eq!(token.end, 21);
    assert_eq!(text_of(line, token.x), "1");
    assert_eq!(text_of(line, token.y), "-2.5");
    assert_eq!(text_of(line, token.z), "3");
    assert_eq!(parse_location_token(line, 0), None);
    assert_eq!(parse_location_token("&:[1,2]", 0), None);
    assert_eq!(next_location_span("&:[x] &:[1,2,3]", 0).map(|t| t.start), Some(6));
}

#[test]
fn mention_wins_a_tie_with_a_location() {
    let m = ChatSpecialSpan::Mention(ByteRange { start: 4, end: 8 });
    let t = LocationToken {
        start: 4,
        end: 12,
        x: ByteRange { start: 7, end: 8 },
        y: ByteRange { start: 9, end: 10 },
        z: ByteRange { start: 10, end: 11 },
    };
    let l = ChatSpecialSpan::Location(t);
    assert_eq!(earliest_special_span(Some(m), Some(l)), Some(m));
    assert_eq!(earliest_special_span(None, Some(l)), Some(l));
    assert_eq!(earliest_special_span(None, None), None);
    assert_eq!(m.range(), (4, 8));
    assert_eq!(l.range(), (4, 12));
}

#[test]
fn chat_line_is_split_into_segments_covering_it() {
    let line = "hi @bob see &:[1,2,3] end";
    let segs = chat_line_segments(line);
    assert_eq!(segs.len(), 5);
    assert_eq!(segs[0], ChatSegment::Plain(ByteRange { start: 0, end: 3 }));
    assert_eq!(segs[1], ChatSegment::Mention(ByteRange { start: 3, end: 7 }));
    assert_eq!(segs[2], ChatSegment::Plain(ByteRange { start: 7, end: 12 }));
    match segs[3] {
        ChatSegment::Location(t) => assert_eq!((t.start, t.end), (12, 21)),
        _ => panic!("expected a location"),
    }
    assert_eq!(segs[4], ChatSegment::Plain(ByteRange { start: 21, end: 25 }));
    // The segments tile the line.
    let mut at = 0;
    for s in &segs {
        let (a, b) = match *s {
            ChatSegment::Plain(r) | ChatSegment::Mention(r) => (r.start, r.end),
            ChatSegment::Location(t) => (t.start, t.end),
        };
        assert_eq!(a, at);
        assert!(b > a);
        at = b;
    }
    assert_eq!(at, line.len());
    assert!(chat_line_segments("").is_empty());
}

#[test]
fn closed_chat_shows_the_last_ten_lines() {
    assert_eq!(chat_render_start(true, 40), 0);
    assert_eq!(chat_render_start(false, 40), 30);
    assert_eq!(chat_render_start(false, 4), 0);
}

fn ui() -> UiInteractionState {
    UiInteractionState {
        menu_open: false,
        chat_open: false,
        inventory_open: false,
        structure_menu_open: false,
        workbench_menu_open: false,
        chest_menu_open: false,
    }
}

fn keys() -> ChatKeys {
    ChatKeys { open_chat: false, close: false, tab: false, enter: false }
}

#[test]
fn chat_opens_completes_and_submits() {
    let mut chat = ChatUiState {
        open: false,
        input: String::new(),
        last_seen_line_count: 0,
        focus_input_next_frame: false,
        suggestion: None,
    };
    let mut ui = ui();
    let mut cursor = CursorOptions { grab_mode: CursorGrabMode::Locked, visible: false };
    let step = update_chat_ui_state(&mut chat, &mut ui, &mut cursor, ChatKeys { open_chat: true, ..keys() }, 0);
    assert!(chat.open && ui.chat_open && chat.focus_input_next_frame);
    assert!(step.restart_idle);
    assert_eq!(step.fade, ChatFade::Shown);
    assert_eq!(cursor.grab_mode, CursorGrabMode::Free);

    chat.input = "hi @al".to_string();
    refresh_chat_suggestion(&mut chat, &vec!["Alice".to_string()], &Vec::new());
    assert_eq!(chat.suggestion, Some("hi @Alice".to_string()));
    update_chat_ui_state(&mut chat, &mut ui, &mut cursor, ChatKeys { tab: true, ..keys() }, 0);
    assert_eq!(chat.input, "hi @Alice");

    chat.input = "  hello  ".to_string();
    let step = update_chat_ui_state(&mut chat, &mut ui, &mut cursor, ChatKeys { enter: true, ..keys() }, 1);
    assert_eq!(step.submit, Some("hello".to_string()));
    assert!(!chat.open && chat.input.is_empty());
    // The frame that submitted still counts as chat input.
    assert!(ui.chat_open);
    assert!(step.restart_idle);

    let step = update_chat_ui_state(&mut chat, &mut ui, &mut cursor, keys(), 1);
    assert!(!ui.chat_open);
    assert_eq!(step.fade, ChatFade::Fading);
    assert!(!step.restart_idle);

    // Whitespace only sends nothing.
    chat.open = true;
    chat.input = "   ".to_string();
    let step = update_chat_ui_state(&mut chat, &mut ui, &mut cursor, ChatKeys { enter: true, ..keys() }, 1);
    assert_eq!(step.submit, None);

    // A menu keeps the chat closed.
    ui.menu_open = true;
    update_chat_ui_state(&mut chat, &mut ui, &mut cursor, ChatKeys { open_chat: true, ..keys() }, 1);
    assert!(!chat.open);

    chat.input = "x".to_string();
    close_chat_ui_on_exit(&mut chat, &mut ui);
    assert!(!chat.open && chat.input.is_empty() && chat.suggestion.is_none() && !ui.chat_open);
}

#[test]
fn empty_log_hides_while_closed() {
    let mut chat = ChatUiState {
        open: false,
        input: String::new(),
        last_seen_line_count: 0,
        focus_input_next_frame: false,
        suggestion: None,
    };
    let mut ui = ui();
    let mut cursor = CursorOptions { grab_mode: CursorGrabMode::Locked, visible: false };
    let step = update_chat_ui_state(&mut chat, &mut ui, &mut cursor, keys(), 0);
    assert_eq!(step.fade, ChatFade::Hidden);
    assert_eq!(cursor.grab_mode, CursorGrabMode::Locked);
}

#[test]
fn server_addresses() {
    assert_eq!(parse_server_address(" http://Example.org:2000/ "), Some(("Example.org".to_string(), 2000)));
    assert_eq!(parse_server_address("example.org"), Some(("example.org".to_string(), 14191)));
    assert_eq!(parse_server_address("host:70000"), None);
    assert_eq!(parse_server_address("   "), None);
    assert_eq!(display_server_address("h", 7), "http://h:7");
    assert_eq!(server_key(" Example.ORG ", 80), "example.org:80");
    assert_eq!(discovery_port_for(14191), 14192);
    assert_eq!(discovery_port_for(65535), 65535);
    assert_eq!(offline_status_message(14191), "No discovery response on UDP 14192.");
    assert_eq!(parse_session_url("http://host:9"), Some(("host".to_string(), 9)));
    assert_eq!(session_url_to_key("http://HOST:9"), Some("host:9".to_string()));
}
