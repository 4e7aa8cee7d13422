use oplexa_ui::single_player::{find_scroll_content_child, sort_saved_worlds, NamedChild, SavedWorldEntry, SinglePlayerPage};
use oplexa_ui::theme::{
    button_colors, color_accent, color_background, color_background_hover, color_server_offline_border,
    color_text, hotbar_slot_colors, hotbar_slot_selected, multiplayer_card_colors, single_player_card_colors,
    Rgb8, UiButtonTone,
};
use oplexa_ui::inventory_hover::CreativePanelState;

#[test]
fn theme_colours() {
    assert_eq!(color_accent(), Rgb8 { r: 0x40, g: 0xc2, b: 0x99 });
    assert_eq!(color_text(), Rgb8 { r: 255, g: 255, b: 255 });
    assert_eq!(color_server_offline_border(), Rgb8 { r: 0xd4, g: 0x4c, b: 0x4c });
    assert_eq!(button_colors(UiButtonTone::Normal, false), (color_background(), color_background_hover()));
    assert_eq!(button_colors(UiButtonTone::Accent, true).0, Rgb8 { r: 0x42, g: 0xd4, b: 0xa5 });
    assert_eq!(multiplayer_card_colors(true, false), (color_accent(), color_background()));
    assert_eq!(multiplayer_card_colors(false, true), (color_background_hover(), color_background_hover()));
    assert_eq!(
        single_player_card_colors(SinglePlayerPage::List, Some(2), 2),
        Some((color_background_hover(), color_accent()))
    );
    assert_eq!(single_player_card_colors(SinglePlayerPage::List, Some(2), 1), None);
    assert_eq!(single_player_card_colors(SinglePlayerPage::CreateWorld, Some(2), 2), None);
    assert_eq!(hotbar_slot_colors(true), (color_accent(), color_background_hover()));
    assert!(hotbar_slot_selected(1, 0));
    assert!(hotbar_slot_selected(0, 0));
    assert!(!hotbar_slot_selected(3, 0));
}

#[test]
fn scroll_content_child_is_found_by_name() {
    let children = vec![
        NamedChild { entity: 4, name: None },
        NamedChild { entity: 5, name: Some("Div-Scrollbar-1".to_string()) },
        NamedChild { entity: 6, name: Some("Div-ScrollContent-1".to_string()) },
        NamedChild { entity: 7, name: Some("Div-ScrollContent-2".to_string()) },
    ];
    assert_eq!(find_scroll_content_child(&children), Some(6));
    assert_eq!(find_scroll_content_child(&Vec::new()), None);
}

fn world(name: &str, seed: i32) -> SavedWorldEntry {
    SavedWorldEntry { folder_name: name.to_string(), seed, path: format!("saves/{name}") }
}

#[test]
fn worlds_are_listed_by_folder_name() {
    let sorted = sort_saved_worlds(vec![world("beta", 1), world("Alpha", 2), world("alpha", 3), world("beta", 4)]);
    let names: Vec<(String, i32)> = sorted.iter().map(|w| (w.folder_name.clone(), w.seed)).collect();
    assert_eq!(
        names,
        vec![("Alpha".to_string(), 2), ("alpha".to_string(), 3), ("beta".to_string(), 1), ("beta".to_string(), 4)]
    );
    assert!(sort_saved_worlds(Vec::new()).is_empty());
}

#[test]
fn turning_back_then_forward_returns_to_the_page() {
    let mut panel = CreativePanelState { items: (1..=10).collect(), page: 2 };
    assert!(panel.prev_page());
    assert!(panel.next_page(4));
    assert_eq!(panel.page, 2);
    assert!(!panel.next_page(4));
    assert_eq!(panel.page, 2);
}
