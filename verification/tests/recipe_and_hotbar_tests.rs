use oplexa_ui::css_ids::{
    is_button_hovered, parse_creative_slot_index, parse_recipe_preview_input_index, parse_world_card_index,
    scan_slot_hover, WidgetState,
};
use oplexa_ui::hotbar::{cycle_hotbar_with_scroll, drop_selected_hotbar_item, select_hotbar_with_number_keys};
use oplexa_ui::inventory::{HandCraftedState, PlayerInventory};
use oplexa_ui::recipe_dialog::open_recipe_preview_dialog_for_item;
use oplexa_ui::recipe_fill::fill_hand_crafted_from_recipe_preview;
use oplexa_ui::recipe_preview::{
    is_creative_hidden_flow_variant_item, recipe_preview_input_capacity_and_type,
    recipe_preview_result_slot_for_item, CraftData, CraftEntry, RecipeCraftingEntry, RecipeDefinition,
    RecipePreviewCraftingType, RecipeRegistry, RecipeResultTemplate,
};
use oplexa_ui::recipe_variants::{
    recipe_preview_tab_page_count, select_recipe_preview_variant, sort_dedup_ids, RecipePreviewDialogState,
};
use oplexa_ui::registry::{ItemDef, ItemRegistry};
use oplexa_ui::slots::InventorySlot;
use oplexa_ui::ui_state::{sync_badge, Visibility};

fn def(key: &str, groups: &[&str]) -> ItemDef {
    ItemDef {
        key: key.to_string(),
        localized_name: format!("oplexa:{key}"),
        groups: groups.iter().map(|g| g.to_string()).collect(),
        block: None,
        stack_limit: 64,
    }
}

/// 1: oak log, 2: birch log (both "logs"), 3: stick.
fn registry() -> ItemRegistry {
    ItemRegistry {
        defs: vec![def("", &[]), def("oak_log", &["logs"]), def("birch_log", &["logs"]), def("stick", &[])],
        related_items: Vec::new(),
    }
}

fn slot(item_id: u16, count: u16) -> InventorySlot {
    InventorySlot { item_id, count }
}

fn empty() -> InventorySlot {
    InventorySlot { item_id: 0, count: 0 }
}

fn entry(item: &str, group: &str, count: u16) -> CraftEntry {
    CraftEntry { item: item.to_string(), group: group.to_string(), count }
}

/// Two oak logs side by side make twelve sticks by hand.
fn stick_recipe() -> RecipeDefinition {
    RecipeDefinition {
        result: RecipeResultTemplate::Static { item_id: 3, count: 12 },
        crafting: vec![RecipeCraftingEntry {
            recipe_type: "oplexa:hand_crafted".to_string(),
            format: "crafting_shaped".to_string(),
            data: Some(CraftData {
                craft: vec![
                    ("0".to_string(), entry("oplexa:oak_log", "", 1)),
                    ("1".to_string(), entry("oplexa:oak_log", "", 1)),
                ],
                ingredients: Vec::new(),
            }),
        }],
    }
}

#[test]
fn recipe_types_and_results() {
    assert_eq!(
        recipe_preview_input_capacity_and_type("oplexa:hand_crafted"),
        Some((RecipePreviewCraftingType::HandCrafted, 2))
    );
    assert_eq!(
        recipe_preview_input_capacity_and_type("oplexa:work_table"),
        Some((RecipePreviewCraftingType::WorkTable, 8))
    );
    assert_eq!(recipe_preview_input_capacity_and_type("oplexa:furnace"), None);
    let reg = registry();
    assert_eq!(recipe_preview_result_slot_for_item(&stick_recipe(), 3, &reg), Some(slot(3, 12)));
    assert_eq!(recipe_preview_result_slot_for_item(&stick_recipe(), 1, &reg), None);
    assert!(is_creative_hidden_flow_variant_item("water_flow_12"));
    assert!(!is_creative_hidden_flow_variant_item("water_flow_"));
    assert!(!is_creative_hidden_flow_variant_item("water"));
}

#[test]
fn preview_opens_for_an_item_and_fills_the_grid() {
    let reg = registry();
    let recipes = RecipeRegistry { recipes: vec![stick_recipe()] };
    let mut preview = RecipePreviewDialogState::new();
    assert!(open_recipe_preview_dialog_for_item(3, &recipes, &reg, &mut preview));
    assert!(preview.open);
    assert_eq!(preview.variants.len(), 1);
    assert_eq!(preview.crafting_type, Some(RecipePreviewCraftingType::HandCrafted));
    assert_eq!(preview.input_slot_count, 2);
    assert_eq!(&preview.input_slots[0..2], &[slot(1, 1), slot(1, 1)]);
    assert_eq!(preview.result_slot, slot(3, 12));
    assert_eq!(recipe_preview_tab_page_count(&preview), 1);

    let mut inv = PlayerInventory { slots: vec![slot(1, 5), empty()] };
    let mut hand = HandCraftedState { input_slots: vec![empty(), empty()] };
    fill_hand_crafted_from_recipe_preview(&preview, &mut inv, &mut hand, &reg, 64);
    assert_eq!(hand.input_slots, vec![slot(1, 1), slot(1, 1)]);
    assert_eq!(inv.slots, vec![slot(1, 3), empty()]);

    // No recipe makes a log: the preview stays closed and empty.
    assert!(!open_recipe_preview_dialog_for_item(1, &recipes, &reg, &mut preview));
    assert!(!preview.open);
    assert!(preview.variants.is_empty());
    assert!(!select_recipe_preview_variant(&mut preview, 0));
}

#[test]
fn ids_are_sorted_and_deduplicated() {
    assert_eq!(sort_dedup_ids(&vec![5, 1, 5, 3, 1]), vec![1, 3, 5]);
    assert_eq!(sort_dedup_ids(&Vec::new()), Vec::<u16>::new());
}

#[test]
fn css_ids() {
    assert_eq!(parse_recipe_preview_input_index("recipe-preview-input-frame-3"), Some(2));
    assert_eq!(parse_recipe_preview_input_index("recipe-preview-input-frame-0"), None);
    assert_eq!(parse_recipe_preview_input_index("recipe-preview-input-frame-9"), None);
    assert_eq!(parse_creative_slot_index("creative-panel-slot-4", 10), Some(3));
    assert_eq!(parse_world_card_index("single-player-world-card-2"), Some(2));
    let widgets = vec![
        WidgetState { css_id: "creative-panel-slot-2".to_string(), hovered: true, checked: false, focused: false },
        WidgetState { css_id: "other".to_string(), hovered: true, checked: false, focused: false },
    ];
    let scan = scan_slot_hover(&widgets, "creative-panel-slot-", 10, true);
    assert_eq!(scan.hovered, Some(1));
    assert_eq!(scan.accents, vec![Some(true), None]);
    assert!(is_button_hovered(&widgets, "other"));
    assert!(!is_button_hovered(&widgets, "missing"));
}

#[test]
fn badges_show_counts_of_non_empty_slots() {
    let mut text = String::from("old");
    let mut vis = Visibility::Inherited;
    sync_badge(&mut text, &mut vis, 12, false);
    assert_eq!(text, "12");
    assert_eq!(vis, Visibility::Inherited);
    sync_badge(&mut text, &mut vis, 12, true);
    assert_eq!(text, "");
    assert_eq!(vis, Visibility::Hidden);
}

#[test]
fn hotbar_selection() {
    assert_eq!(cycle_hotbar_with_scroll(0, 1, 9, false, false), 8);
    assert_eq!(cycle_hotbar_with_scroll(8, -1, 9, false, false), 0);
    assert_eq!(cycle_hotbar_with_scroll(3, -2, 9, false, false), 5);
    assert_eq!(cycle_hotbar_with_scroll(3, 5, 9, true, false), 3);
    assert_eq!(select_hotbar_with_number_keys(0, &vec![false, false, true, true], false), 2);
    assert_eq!(select_hotbar_with_number_keys(0, &vec![false, true], true), 0);
    let mut inv = PlayerInventory { slots: vec![slot(3, 2), empty()] };
    assert_eq!(drop_selected_hotbar_item(&mut inv, 0, 9, false, false, true, true), Some(3));
    assert_eq!(inv.slots[0], slot(3, 1));
    assert_eq!(drop_selected_hotbar_item(&mut inv, 0, 9, false, true, true, true), None);
    assert_eq!(drop_selected_hotbar_item(&mut inv, 1, 9, false, false, true, true), None);
}
