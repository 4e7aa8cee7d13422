use oplexa_ui::benchmark::{
    benchmark_border_visibility, benchmark_key_action, count_draw_calls, desktop_manager_from, BenchmarkCounters,
    BenchmarkFrameSample, BenchmarkKeyAction, DesktopCandidate,
};
use oplexa_ui::debug_overlay::{
    close_system_last_ui, debug_overlay_text_line, toggle_system_last_ui, vram_backend_label, DebugOverlayInfo,
    DebugOverlayState,
};
use oplexa_ui::ui_state::Visibility;
use oplexa_ui::world_flow::{
    reset_world_unload_ui, suppress_stale_scrollbars, tick_world_unload_ui, trigger_world_unload_ui,
    world_unload_ui_should_tick, AppState, BeforeUiState, LoadingStates, WorldUnloadUiState,
};

fn frame(entity_count: usize, over_16_ms: bool, over_33_ms: bool) -> BenchmarkFrameSample {
    BenchmarkFrameSample {
        over_16_ms,
        over_33_ms,
        gpu_load_known: true,
        entity_count,
        archetype_count: 7,
        mesh_assets: 3,
        texture_assets: 4,
        draw_calls: 11,
        chunk_telemetry: false,
    }
}

#[test]
fn benchmark_key_starts_and_stops_unless_locked() {
    assert_eq!(benchmark_key_action(true, true, false), BenchmarkKeyAction::Ignore);
    assert_eq!(benchmark_key_action(false, false, true), BenchmarkKeyAction::Ignore);
    assert_eq!(benchmark_key_action(false, true, false), BenchmarkKeyAction::Start);
    assert_eq!(benchmark_key_action(false, true, true), BenchmarkKeyAction::Stop);
    assert_eq!(benchmark_border_visibility(true), Visibility::Inherited);
    assert_eq!(benchmark_border_visibility(false), Visibility::Hidden);
}

#[test]
fn a_benchmark_run_counts_frames_spikes_and_entities() {
    let mut b = BenchmarkCounters::new();
    assert_eq!(b.cpu_name, "Unknown CPU");
    assert_eq!(b.gpu_name, "Unknown GPU");
    assert_eq!(b.os_name, "Unknown OS");
    // Frames are not counted without a run.
    b.record_frame(&frame(10, true, true));
    assert_eq!(b.frame_count, 0);

    assert!(b.start("Linux (6.1)".to_string(), Some("GNOME (XDG_CURRENT_DESKTOP)".to_string()), Some("  "), Some("  Ryzen 7  ")));
    assert!(b.active);
    assert_eq!(b.gpu_name, "Unknown GPU");
    assert_eq!(b.cpu_name, "Ryzen 7");
    assert_eq!(b.os_name, "Linux (6.1)");
    assert!(!b.start("x".to_string(), None, Some("GPU"), None));
    assert_eq!(b.os_name, "Linux (6.1)");

    b.record_frame(&frame(10, true, false));
    b.record_frame(&frame(14, true, true));
    b.record_frame(&frame(9, false, false));
    assert_eq!(b.frame_count, 3);
    assert_eq!(b.spike_16_count, 2);
    assert_eq!(b.spike_33_count, 1);
    assert_eq!(b.gpu_frame_time_estimate_samples, 3);
    assert_eq!(b.current_entity_count, 9);
    assert_eq!(b.peak_entity_count, 14);
    assert_eq!(b.spawn_count_total, 4);
    assert_eq!(b.despawn_count_total, 5);
    assert_eq!(b.query_iterations_total, 33);
    assert_eq!(b.peak_archetype_count, 7);
    assert_eq!(b.approx_draw_calls_peak, 11);
    assert_eq!(b.chunk_samples, 0);

    b.record_system_metrics(500, Some(64), Some(1024));
    b.record_system_metrics(300, None, Some(1024));
    assert_eq!(b.process_mem_bytes_latest, 300);
    assert_eq!(b.process_mem_peak_bytes, 500);
    assert_eq!(b.vram_bytes_latest, None);
    assert_eq!(b.vram_peak_bytes, 64);

    assert!(b.stop());
    assert!(!b.active);
    assert_eq!(b.frame_count, 3);
    assert!(!b.stop());

    b.reset_for_start();
    assert_eq!(b.frame_count, 0);
    assert_eq!(b.peak_entity_count, 0);
    assert_eq!(b.last_entity_count, None);
    assert_eq!(b.cpu_name, "Ryzen 7");
}

#[test]
fn draw_calls_count_meshes_not_known_invisible() {
    assert_eq!(count_draw_calls(&vec![None, Some(true), Some(false), None]), 3);
    assert_eq!(count_draw_calls(&Vec::new()), 0);
}

#[test]
fn desktop_manager_is_the_first_non_blank_variable() {
    let candidates = vec![
        DesktopCandidate { key: "XDG_CURRENT_DESKTOP".to_string(), value: None },
        DesktopCandidate { key: "XDG_SESSION_DESKTOP".to_string(), value: Some("   ".to_string()) },
        DesktopCandidate { key: "DESKTOP_SESSION".to_string(), value: Some(" plasma ".to_string()) },
        DesktopCandidate { key: "GDMSESSION".to_string(), value: Some("gnome".to_string()) },
    ];
    assert_eq!(desktop_manager_from(&candidates), Some("plasma (DESKTOP_SESSION)".to_string()));
    assert_eq!(desktop_manager_from(&Vec::new()), None);
}

#[test]
fn debug_overlay_toggles_and_names_the_system() {
    let mut overlay = DebugOverlayState { show: false };
    assert_eq!(toggle_system_last_ui(&mut overlay, false), None);
    assert!(!overlay.show);
    assert_eq!(toggle_system_last_ui(&mut overlay, true), Some(Visibility::Inherited));
    assert!(overlay.show);
    assert_eq!(toggle_system_last_ui(&mut overlay, true), Some(Visibility::Hidden));
    overlay.show = true;
    assert_eq!(close_system_last_ui(&mut overlay), Visibility::Hidden);
    assert!(!overlay.show);

    assert_eq!(vram_backend_label(Some("nvml"), Some("process")), "nvml/process");
    assert_eq!(vram_backend_label(Some("nvml"), None), "nvml");
    assert_eq!(vram_backend_label(None, Some("process")), "unavailable");

    let info = DebugOverlayInfo {
        app_name: "Oplexa".to_string(),
        app_version: "0.3.0".to_string(),
        bevy_version: "0.17".to_string(),
        cpu_brand: Some(" ".to_string()),
        gpu_adapter_name: Some(" ".to_string()),
        vram_text: None,
        vram_source: Some("sysfs".to_string()),
        vram_scope: None,
        biome_name: Some("Forest".to_string()),
        player_chunk: Some((-3, 12)),
    };
    assert_eq!(debug_overlay_text_line("debug-build", &info), Some("Oplexa v0.3.0 | Bevy 0.17".to_string()));
    assert_eq!(debug_overlay_text_line("debug-cpu-name", &info), Some("CPU: Unknown CPU".to_string()));
    // The overlay only replaces an empty GPU name.
    assert_eq!(debug_overlay_text_line("debug-gpu-name", &info), Some("GPU:  ".to_string()));
    assert_eq!(debug_overlay_text_line("debug-vram", &info), Some("VRAM: n/a (sysfs)".to_string()));
    assert_eq!(debug_overlay_text_line("debug-biome", &info), Some("Biome: Forest".to_string()));
    assert_eq!(debug_overlay_text_line("debug-chunk-coord", &info), Some("Chunk (x, y): -3 / 12".to_string()));
    assert_eq!(debug_overlay_text_line("debug-fps", &info), None);
    let none = DebugOverlayInfo { player_chunk: None, biome_name: None, gpu_adapter_name: None, ..info };
    assert_eq!(debug_overlay_text_line("debug-chunk-coord", &none), Some("Chunk (x, y): n/a".to_string()));
    assert_eq!(debug_overlay_text_line("debug-biome", &none), Some("Biome: n/a".to_string()));
    assert_eq!(debug_overlay_text_line("debug-gpu-name", &none), Some("GPU: Unknown GPU".to_string()));
}

#[test]
fn the_leaving_notice_runs_until_loading_or_its_timer() {
    let mut s = WorldUnloadUiState { active: false };
    assert_eq!(tick_world_unload_ui(&mut s, AppState::InGame, true), None);
    assert_eq!(trigger_world_unload_ui(&mut s), Visibility::Inherited);
    assert!(world_unload_ui_should_tick(&s));
    let menu = AppState::Screen(BeforeUiState::Menu);
    assert_eq!(tick_world_unload_ui(&mut s, menu, false), Some(Visibility::Inherited));
    assert!(s.active);
    assert_eq!(tick_world_unload_ui(&mut s, menu, true), Some(Visibility::Hidden));
    assert!(!s.active);
    trigger_world_unload_ui(&mut s);
    assert_eq!(tick_world_unload_ui(&mut s, AppState::Loading(LoadingStates::CaveGen), false), Some(Visibility::Hidden));
    assert!(!s.active);
    trigger_world_unload_ui(&mut s);
    assert_eq!(reset_world_unload_ui(&mut s), Visibility::Hidden);
    assert!(!world_unload_ui_should_tick(&s));
}

#[test]
fn scrollbars_of_hidden_lists_are_hidden() {
    let mut bars = vec![Visibility::Visible, Visibility::Inherited, Visibility::Hidden];
    suppress_stale_scrollbars(Visibility::Inherited, &mut bars);
    assert_eq!(bars, vec![Visibility::Visible, Visibility::Inherited, Visibility::Hidden]);
    suppress_stale_scrollbars(Visibility::Hidden, &mut bars);
    assert_eq!(bars, vec![Visibility::Hidden, Visibility::Inherited, Visibility::Hidden]);
}
