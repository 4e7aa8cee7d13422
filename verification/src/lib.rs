//! Verified logic of the game's user interface: inventory slot handling,
//! player save data, hotbar and chat input, CSS-id parsing, recipe previews,
//! server and world lists.
pub mod text;
pub mod css_ids;
pub mod slots;
pub mod inventory;
pub mod persistence;
pub mod registry;
pub mod hotbar;
pub mod chat;
pub mod chat_spans;
pub mod chat_ui;
pub mod servers;
pub mod ui_state;
pub mod stacking;
pub mod recipe_preview;
pub mod recipe_inputs;
pub mod recipe_variants;
pub mod recipe_dialog;
pub mod recipe_fill;
pub mod targets;
pub mod inventory_hover;
pub mod chest_preview;
pub mod multiplayer;
pub mod single_player;
pub mod world_flow;
pub mod inventory_click;
pub mod inventory_panel;
pub mod inventory_view;
pub mod creative_panel;
pub mod workbench_menu;
pub mod pause_menu;
pub mod theme;
pub mod benchmark;
pub mod debug_overlay;
