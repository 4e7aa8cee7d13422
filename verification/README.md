# oplexa_ui

The user-interface logic of the Oplexa voxel game, written in Verus: the
decisions the menus, inventory screens, HUD, chat and benchmark make are
functions with contracts, proved by Verus. Where a decision rests on a part of
the game outside this library (whether the interaction state blocks game
input, a translation, a recipe the game resolves), the library takes that
part's answer as an argument.

- `src/` is the verified library. Inventory slots, stacking and the moves
  between grids (`slots`, `stacking`, `inventory`, `targets`,
  `inventory_click`, `inventory_panel`), recipe previews and filling
  (`recipe_*`), the save-file format (`persistence`), hotbar and chat input
  (`hotbar`, `chat`, `chat_spans`, `chat_ui`), the server and world lists
  (`servers`, `multiplayer`, `single_player`), the menus and screens
  (`ui_state`, `pause_menu`, `world_flow`, `creative_panel`, `workbench_menu`),
  what the screens show (`inventory_view`, `chest_preview`, `theme`,
  `debug_overlay`) and the benchmark's counters (`benchmark`). Laws that span
  several functions are public proof functions named `lemma_*`.
- `tests/` runs the library on concrete values.
- `app/` is ordinary Rust around the library: files, the network, the system
  probe, the clock and the floating-point figures (timers, fades, frame
  times).
