use oplexa_ui::css_ids::{
    is_slot_count_badge_id, parse_recipe_preview_tab_icon_slot_index, parse_recipe_preview_tab_slot_index,
    parse_workbench_craft_badge_index, parse_workbench_player_inventory_badge_index,
    parse_workbench_tool_badge_index, WidgetState,
};
use oplexa_ui::inventory_view::{
    grid_slot_by_number, inventory_tooltip_content, recipe_preview_result_badge, result_badge,
    workbench_slot_badge, workbench_slot_icon_item, TooltipContent,
};
use oplexa_ui::pause_menu::{is_pause_menu_button, pause_menu_ui_path};
use oplexa_ui::recipe_preview::RecipePreviewCraftingType;
use oplexa_ui::recipe_variants::{RecipePreviewDialogState, RecipePreviewVariant};
use oplexa_ui::registry::{ItemDef, ItemRegistry};
use oplexa_ui::slots::InventorySlot;
use oplexa_ui::theme::{
    color_server_waiting_border, color_single_player_list_background, color_text_darker, input_border_color,
    is_button_icon_name, text_tone_color, Rgb8, UiTextTone,
};

fn slot(item_id: u16, count: u16) -> InventorySlot {
    InventorySlot { item_id, count }
}

fn empty() -> InventorySlot {
    InventorySlot { item_id: 0, count: 0 }
}

fn def(key: &str) -> ItemDef {
    ItemDef { key: key.to_string(), localized_name: format!("oplexa:{key}"), groups: Vec::new(), block: None, stack_limit: 64 }
}

fn registry() -> ItemRegistry {
    ItemRegistry { defs: vec![def(""), def("stone"), def("stick")], related_items: Vec::new() }
}

fn button(id: &str, hovered: bool) -> WidgetState {
    WidgetState { css_id: id.to_string(), hovered, checked: false, focused: false }
}

fn variant() -> RecipePreviewVariant {
    RecipePreviewVariant {
        crafting_type: RecipePreviewCraftingType::HandCrafted,
        input_slot_count: 2,
        input_slots: vec![slot(1, 1), slot(1, 1), empty(), empty(), empty(), empty(), empty(), empty()],
        input_slot_alternatives: vec![Vec::new(); 8],
        result_slot: slot(2, 4),
    }
}

#[test]
fn grid_slots_are_found_by_one_based_number() {
    let slots = vec![slot(1, 3), slot(2, 5)];
    assert_eq!(grid_slot_by_number(&slots, 0), Some(slot(1, 3)));
    assert_eq!(grid_slot_by_number(&slots, 1), Some(slot(1, 3)));
    assert_eq!(grid_slot_by_number(&slots, 2), Some(slot(2, 5)));
    assert_eq!(grid_slot_by_number(&slots, 3), None);
}

#[test]
fn workbench_slots_show_icons_and_badges_only_while_open() {
    let slots = vec![slot(1, 3), empty()];
    assert_eq!(workbench_slot_icon_item(true, &slots, 0), Some(1));
    assert_eq!(workbench_slot_icon_item(false, &slots, 0), None);
    assert_eq!(workbench_slot_icon_item(true, &slots, 1), None);
    assert_eq!(workbench_slot_icon_item(true, &slots, 2), None);
    assert_eq!(workbench_slot_badge(true, &slots, 0), Some((3, false)));
    assert_eq!(workbench_slot_badge(false, &slots, 0), Some((3, true)));
    assert_eq!(workbench_slot_badge(true, &slots, 1), Some((0, true)));
    assert_eq!(workbench_slot_badge(true, &slots, 5), None);
}

#[test]
fn result_badges_hide_while_closed_or_empty() {
    assert_eq!(result_badge(true, Some(slot(2, 4))), (4, false));
    assert_eq!(result_badge(false, Some(slot(2, 4))), (4, true));
    assert_eq!(result_badge(true, None), (0, true));

    let mut p = RecipePreviewDialogState::new();
    p.result_slot = slot(2, 4);
    assert_eq!(recipe_preview_result_badge(&p), (4, true));
    p.open = true;
    assert_eq!(recipe_preview_result_badge(&p), (4, false));
    p.result_slot = empty();
    assert_eq!(recipe_preview_result_badge(&p), (0, true));
}

#[test]
fn tooltip_names_the_hovered_item_or_preview_tab() {
    let reg = registry();
    let mut p = RecipePreviewDialogState::new();
    let none: Vec<WidgetState> = Vec::new();
    assert_eq!(inventory_tooltip_content(false, true, Some(1), &reg, &p, &none), TooltipContent::Hidden);
    assert_eq!(inventory_tooltip_content(true, false, Some(1), &reg, &p, &none), TooltipContent::Hidden);
    assert_eq!(inventory_tooltip_content(true, true, Some(2), &reg, &p, &none), TooltipContent::Item(2));
    assert_eq!(inventory_tooltip_content(true, true, Some(9), &reg, &p, &none), TooltipContent::Hidden);
    assert_eq!(inventory_tooltip_content(true, true, Some(0), &reg, &p, &none), TooltipContent::Hidden);

    let tabs = vec![button("recipe-preview-tab-1", false), button("recipe-preview-tab-2", true)];
    // A closed preview shows no tab tooltip.
    assert_eq!(inventory_tooltip_content(true, true, None, &reg, &p, &tabs), TooltipContent::Hidden);
    p.open = true;
    for _ in 0..6 {
        p.variants.push(variant());
    }
    assert_eq!(inventory_tooltip_content(true, true, None, &reg, &p, &tabs), TooltipContent::Tab(1));
    p.tab_page = 1;
    assert_eq!(inventory_tooltip_content(true, true, None, &reg, &p, &tabs), TooltipContent::Tab(5));
    let third = vec![button("recipe-preview-tab-3", true)];
    assert_eq!(inventory_tooltip_content(true, true, None, &reg, &p, &third), TooltipContent::Hidden);
    assert_eq!(inventory_tooltip_content(true, true, None, &reg, &p, &none), TooltipContent::Hidden);
}

#[test]
fn badge_and_tab_ids_parse_to_slot_indices() {
    assert_eq!(parse_recipe_preview_tab_slot_index("recipe-preview-tab-1"), Some(0));
    assert_eq!(parse_recipe_preview_tab_slot_index("recipe-preview-tab-4"), Some(3));
    assert_eq!(parse_recipe_preview_tab_slot_index("recipe-preview-tab-5"), None);
    assert_eq!(parse_recipe_preview_tab_slot_index("recipe-preview-tab-0"), None);
    assert_eq!(parse_recipe_preview_tab_icon_slot_index("recipe-preview-tab-icon-2"), Some(1));
    assert_eq!(parse_recipe_preview_tab_icon_slot_index("recipe-preview-tab-2"), None);
    assert_eq!(parse_workbench_craft_badge_index("workbench-craft-badge-8"), Some(7));
    assert_eq!(parse_workbench_craft_badge_index("workbench-craft-badge-9"), None);
    assert_eq!(parse_workbench_tool_badge_index("workbench-tool-badge-5"), Some(4));
    assert_eq!(parse_workbench_tool_badge_index("workbench-tool-badge-x"), None);
    assert_eq!(parse_workbench_player_inventory_badge_index("workbench-player-inventory-badge-36", 36), Some(35));
    assert_eq!(parse_workbench_player_inventory_badge_index("workbench-player-inventory-badge-37", 36), None);
}

#[test]
fn count_badges_are_recognised_by_id() {
    assert!(is_slot_count_badge_id("hud-hotbar-slot-badge-3"));
    assert!(is_slot_count_badge_id("player-inventory-badge-12"));
    assert!(is_slot_count_badge_id("hand-crafted-badge-1"));
    assert!(is_slot_count_badge_id("recipe-preview-input-badge-4"));
    assert!(is_slot_count_badge_id("hand-crafted-result-badge"));
    assert!(is_slot_count_badge_id("recipe-preview-result-badge"));
    assert!(is_slot_count_badge_id("inventory-cursor-badge"));
    assert!(!is_slot_count_badge_id("inventory-cursor-badge-1"));
    assert!(!is_slot_count_badge_id("workbench-craft-badge-1"));
    assert!(!is_slot_count_badge_id("hud-hotbar-slot-3"));
}

#[test]
fn pause_menu_buttons_and_page_path() {
    assert!(is_pause_menu_button("pause-menu-play"));
    assert!(is_pause_menu_button("pause-menu-connect"));
    assert!(is_pause_menu_button("pause-menu-settings"));
    assert!(is_pause_menu_button("pause-menu-close"));
    assert!(!is_pause_menu_button("pause-menu"));
    assert_eq!(pause_menu_ui_path(false), "ui/html/pause_menu.html");
    assert_eq!(pause_menu_ui_path(true), "ui/html/pause_menu_disconnect.html");
}

#[test]
fn text_and_input_colours() {
    let accent = Rgb8 { r: 0x40, g: 0xc2, b: 0x99 };
    let hover = Rgb8 { r: 0x39, g: 0x3d, b: 0x4a };
    let darker = Rgb8 { r: 0x9f, g: 0xa1, b: 0xa0 };
    let white = Rgb8 { r: 0xff, g: 0xff, b: 0xff };
    assert_eq!(input_border_color(true, false), accent);
    assert_eq!(input_border_color(false, true), accent);
    assert_eq!(input_border_color(false, false), hover);
    assert_eq!(text_tone_color(Some(UiTextTone::Darker)), darker);
    assert_eq!(text_tone_color(Some(UiTextTone::CardPing)), darker);
    assert_eq!(text_tone_color(Some(UiTextTone::TooltipName)), accent);
    assert_eq!(text_tone_color(Some(UiTextTone::TooltipKey)), Rgb8 { r: 0xc5, g: 0xc7, b: 0xcd });
    assert_eq!(text_tone_color(Some(UiTextTone::Heading)), white);
    assert_eq!(text_tone_color(None), white);
    assert_eq!(color_text_darker(), darker);
    assert_eq!(color_single_player_list_background(), Rgb8 { r: 0x26, g: 0x2a, b: 0x35 });
    assert_eq!(color_server_waiting_border(), Rgb8 { r: 0xe0, g: 0x98, b: 0x2d });
    assert!(is_button_icon_name("Button-Icon-stone"));
    assert!(!is_button_icon_name("Icon-stone"));
}

use oplexa_ui::theme::{scroll_list_colors, scroll_list_step, scrollbar_part, OverflowAxis, ScrollbarPart};

#[test]
fn scroll_parts_are_known_by_name() {
    assert_eq!(scrollbar_part("Div-Scrollbar-H-list", true), ScrollbarPart::HorizontalBar);
    assert_eq!(scrollbar_part("Div-Scrollbar-list", true), ScrollbarPart::VerticalBar);
    assert_eq!(scrollbar_part("Other", true), ScrollbarPart::OtherBar);
    assert_eq!(scrollbar_part("Div-Scrollbar-list", false), ScrollbarPart::Unstyled);
    assert_eq!(scrollbar_part("Scroll-Track-1", false), ScrollbarPart::Track);
    assert_eq!(scrollbar_part("Scroll-Thumb-1", false), ScrollbarPart::Thumb);
}

#[test]
fn lists_settle_once_they_hold_their_content() {
    let r = scroll_list_step(false, false, (OverflowAxis::Visible, OverflowAxis::Visible));
    assert!(r.apply_layout && !r.mark_ready);
    assert_eq!((r.overflow_y, r.overflow_x), (OverflowAxis::Scroll, OverflowAxis::Clip));
    let r = scroll_list_step(false, true, (OverflowAxis::Scroll, OverflowAxis::Clip));
    assert!(r.apply_layout && r.mark_ready);
    assert_eq!((r.overflow_y, r.overflow_x), (OverflowAxis::Clip, OverflowAxis::Clip));
    let r = scroll_list_step(true, true, (OverflowAxis::Scroll, OverflowAxis::Visible));
    assert!(!r.apply_layout && !r.mark_ready);
    assert_eq!((r.overflow_y, r.overflow_x), (OverflowAxis::Clip, OverflowAxis::Clip));
    let r = scroll_list_step(true, false, (OverflowAxis::Hidden, OverflowAxis::Visible));
    assert_eq!((r.overflow_y, r.overflow_x), (OverflowAxis::Hidden, OverflowAxis::Visible));
    assert_eq!(scroll_list_colors(true).0, Rgb8 { r: 0x26, g: 0x2a, b: 0x35 });
    assert_eq!(scroll_list_colors(false).0, Rgb8 { r: 0x39, g: 0x3d, b: 0x4a });
    assert_eq!(scroll_list_colors(true).1, Rgb8 { r: 0x39, g: 0x3d, b: 0x4a });
}

use oplexa_ui::creative_panel::{trash_buttons_shown, workbench_recipe_hint_key, GameMode};
use oplexa_ui::inventory_view::recipe_preview_mode_key;

#[test]
fn translation_keys_of_the_recipe_lines() {
    assert_eq!(workbench_recipe_hint_key(GameMode::Creative), "KEY_UI_RECIPE_HINT_CREATIVE");
    assert_eq!(workbench_recipe_hint_key(GameMode::Survival), "KEY_UI_RECIPE_HINT_SURVIVAL");
    assert_eq!(workbench_recipe_hint_key(GameMode::Spectator), "KEY_UI_RECIPE_HINT_SPECTATOR");
    assert_eq!(recipe_preview_mode_key(Some(RecipePreviewCraftingType::HandCrafted)), "KEY_UI_HAND_CRAFTED");
    assert_eq!(recipe_preview_mode_key(Some(RecipePreviewCraftingType::WorkTable)), "KEY_UI_WORKBENCH");
    assert_eq!(recipe_preview_mode_key(None), "KEY_UI_RECIPE");
    assert!(trash_buttons_shown(GameMode::Creative));
    assert!(!trash_buttons_shown(GameMode::Survival));
    assert!(!trash_buttons_shown(GameMode::Spectator));
}
