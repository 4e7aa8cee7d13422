use oplexa_ui::chest_preview::{
    build_chest_hud_preview, is_chest_block_id, is_chest_structure_meta, looked_card, BlockDef, BlockHit,
    BlockRegistry, LookedTitle, PlacedStructureMetadata, SavedChestSlot, StructureRecord, StructureRegistration,
};
use oplexa_ui::theme::{mining_level_color, Rgb8};
use oplexa_ui::registry::{ItemDef, ItemRegistry};
use oplexa_ui::slots::InventorySlot;
use oplexa_ui::world_flow::{
    loading_phase_target, world_gen_chunk_target, AppState, BeforeUiState, LoadingPhase, LoadingStates,
};

fn def(name: &str) -> ItemDef {
    ItemDef { key: name.to_string(), localized_name: name.to_string(), groups: Vec::new(), block: None, stack_limit: 64 }
}

fn items() -> ItemRegistry {
    ItemRegistry { defs: vec![def(""), def("stone"), def("stick")], related_items: Vec::new() }
}

fn block(localized_name: &str, name: &str) -> BlockDef {
    BlockDef { localized_name: localized_name.to_string(), name: name.to_string(), level: 1 }
}

fn registration(localized_name: &str) -> StructureRegistration {
    StructureRegistration { name: "KEY_TABLE".to_string(), localized_name: localized_name.to_string(), block_id: None }
}

fn meta(recipe_name: &str, registration: Option<StructureRegistration>) -> PlacedStructureMetadata {
    PlacedStructureMetadata { recipe_name: recipe_name.to_string(), registration, level: 2, place_origin: (1, 2, 3) }
}

fn saved(slot: u32, item: &str, count: u16) -> SavedChestSlot {
    SavedChestSlot { slot, item: item.to_string(), count }
}

#[test]
fn chest_structures_are_recognised_by_recipe_or_registration() {
    let by_recipe = meta("Chest", None);
    assert!(is_chest_structure_meta(&by_recipe));
    let by_registration = meta("table", Some(registration("CHEST_BLOCK")));
    assert!(is_chest_structure_meta(&by_registration));
    let other = meta("table", Some(registration("table_block")));
    assert!(!is_chest_structure_meta(&other));
}

#[test]
fn chest_blocks_are_recognised_by_name_or_key_and_rotation() {
    let reg = BlockRegistry {
        defs: vec![
            block("chest_block", "KEY_CHEST_BLOCK"),
            block("Chest_Block_R1", "key_other"),
            block("stone", "key_chest_block_r2"),
            block("stone", "KEY_STONE"),
            block("chest_block", "KEY_CHEST_BLOCK"),
        ],
    };
    // Air (id 0) is never a chest, whatever its definition says.
    assert!(!is_chest_block_id(0, &reg));
    assert!(is_chest_block_id(1, &reg));
    assert!(is_chest_block_id(2, &reg));
    assert!(!is_chest_block_id(3, &reg));
    assert!(is_chest_block_id(4, &reg));
    assert!(!is_chest_block_id(5, &reg));
}

#[test]
fn chest_preview_reads_the_saved_slots_of_the_chest_at_the_position() {
    let reg = items();
    assert!(build_chest_hud_preview((0, 0, 0), None, 4, &reg).is_none());

    let records = vec![
        StructureRecord { place_origin: (1, 2, 3), inventory_slots: vec![saved(0, "stick", 9)] },
        StructureRecord {
            place_origin: (4, 5, 6),
            inventory_slots: vec![
                saved(0, " stone ", 5),
                saved(2, "stick", 3),
                saved(2, "stone", 7),
                saved(1, "unknown", 4),
                saved(3, "stick", 0),
                saved(9, "stick", 2),
            ],
        },
    ];
    assert!(build_chest_hud_preview((0, 0, 0), Some(&records), 4, &reg).is_none());
    let p = build_chest_hud_preview((4, 5, 6), Some(&records), 4, &reg).unwrap();
    assert_eq!(
        p.slots,
        vec![
            InventorySlot { item_id: 1, count: 5 },
            InventorySlot { item_id: 0, count: 0 },
            InventorySlot { item_id: 1, count: 7 },
            InventorySlot { item_id: 0, count: 0 },
        ]
    );
    assert_eq!(p.total_count, 12);
    assert_eq!(p.non_empty_count, 2);
}

#[test]
fn loading_phases_head_for_their_percentages() {
    assert_eq!(loading_phase_target(AppState::Loading(LoadingStates::BaseGen)), (LoadingPhase::BaseGen, 34));
    assert_eq!(loading_phase_target(AppState::Loading(LoadingStates::CaveGen)), (LoadingPhase::CaveGen, 72));
    assert_eq!(loading_phase_target(AppState::Loading(LoadingStates::WaterGen)), (LoadingPhase::WaterGen, 97));
    assert_eq!(loading_phase_target(AppState::InGame), (LoadingPhase::Done, 100));
    assert_eq!(loading_phase_target(AppState::Screen(BeforeUiState::Menu)), (LoadingPhase::Done, 100));
}

#[test]
fn world_gen_targets_the_square_of_chunks_around_the_player() {
    assert_eq!(world_gen_chunk_target(0), 1);
    assert_eq!(world_gen_chunk_target(2), 25);
    assert_eq!(world_gen_chunk_target(8), 289);
    assert_eq!(world_gen_chunk_target(-3), 1);
}

#[test]
fn the_looked_at_card_describes_the_block_or_structure() {
    let reg = BlockRegistry {
        defs: vec![block("air", "KEY_AIR"), block("stone_block", "KEY_STONE"), block("chest_block", "KEY_CHEST_BLOCK")],
    };
    let hit = BlockHit { block_id: 2, block_pos: (4, 5, 6) };
    let card = looked_card(Some(hit), true, None, &reg).unwrap();
    assert_eq!(card.title, LookedTitle::Block(2));
    assert_eq!(card.localized_name, "chest_block");
    assert_eq!(card.level, 1);
    assert_eq!(card.icon_block_id, Some(2));
    assert_eq!(card.progress_target, Some(((4, 5, 6), 2)));
    assert_eq!(card.world_pos, Some((4, 5, 6)));
    assert!(card.is_chest);
    // An unknown block shows no card, even with a structure in view.
    let m = meta("table", None);
    assert!(looked_card(Some(BlockHit { block_id: 9, block_pos: (0, 0, 0) }), true, Some(&m), &reg).is_none());

    // An air hit falls through to the structure.
    let air = BlockHit { block_id: 0, block_pos: (0, 0, 0) };
    let card = looked_card(Some(air), true, Some(&m), &reg).unwrap();
    assert_eq!(card.title, LookedTitle::Plain("table".to_string()));
    assert_eq!(card.localized_name, "table");
    assert_eq!(card.level, 2);
    assert_eq!(card.icon_block_id, None);
    assert_eq!(card.progress_target, None);
    assert_eq!(card.world_pos, Some((1, 2, 3)));
    assert!(!card.is_chest);

    let with_key = meta("table", Some(registration("table_block")));
    let card = looked_card(None, true, Some(&with_key), &reg).unwrap();
    assert_eq!(card.title, LookedTitle::Key("KEY_TABLE".to_string()));
    assert_eq!(card.localized_name, "KEY_TABLE");

    let mut with_block = registration("chest_block");
    with_block.block_id = Some(2);
    let chest = meta("box", Some(with_block));
    let card = looked_card(None, true, Some(&chest), &reg).unwrap();
    assert_eq!(card.title, LookedTitle::Block(2));
    assert_eq!(card.localized_name, "chest_block");
    assert_eq!(card.icon_block_id, Some(2));
    assert!(card.is_chest);

    let mut unknown_block = registration("x");
    unknown_block.block_id = Some(40);
    let odd = meta("crate", Some(unknown_block));
    assert_eq!(looked_card(None, true, Some(&odd), &reg).unwrap().localized_name, "crate");

    assert!(looked_card(None, true, None, &reg).is_none());
    assert!(looked_card(None, false, Some(&m), &reg).is_none());
    assert_eq!(mining_level_color(true), Rgb8 { r: 0x77, g: 0xd8, b: 0x82 });
    assert_eq!(mining_level_color(false), Rgb8 { r: 0xf2, g: 0x66, b: 0x66 });
}
