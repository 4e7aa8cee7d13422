//! The debug overlay: showing and hiding it, and the lines of text it shows
//! that hold no measurements (build, processor and graphics names, VRAM
//! reader, biome and chunk).
use vstd::prelude::*;
use crate::benchmark::{cpu_name_of, UNKNOWN_GPU};
use crate::multiplayer::opt_str;
use crate::single_player::{push_i32, signed_decimal};
use crate::text::{text_equals, to_owned_string, trim};
use crate::ui_state::{shown, Visibility};

verus! {

pub const ID_BUILD: &'static str = "debug-build";
pub const ID_CPU_NAME: &'static str = "debug-cpu-name";
pub const ID_GPU_NAME: &'static str = "debug-gpu-name";
pub const ID_VRAM: &'static str = "debug-vram";
pub const ID_BIOME: &'static str = "debug-biome";
pub const ID_CHUNK_COORD: &'static str = "debug-chunk-coord";

/// Whether the debug overlay is shown.
pub struct DebugOverlayState {
    pub show: bool,
}

/// The overlay key flips the overlay; the overlay root takes the new state.
/// Without the key nothing changes (`None`).
pub fn toggle_system_last_ui(overlay: &mut DebugOverlayState, key_just_pressed: bool) -> (r: Option<Visibility>)
    ensures
        !key_just_pressed ==> r is None && final(overlay).show == old(overlay).show,
        key_just_pressed ==> final(overlay).show == !old(overlay).show && r == Some(shown(final(overlay).show)),
{
    if !key_just_pressed {
        return None;
    }
    overlay.show = !overlay.show;
    if overlay.show {
        Some(Visibility::Inherited)
    } else {
        Some(Visibility::Hidden)
    }
}

/// Closing the overlay hides it.
pub fn close_system_last_ui(overlay: &mut DebugOverlayState) -> (r: Visibility)
    ensures
        !final(overlay).show,
        r == Visibility::Hidden,
{
    overlay.show = false;
    Visibility::Hidden
}

/// What the overlay's text lines are built from.
pub struct DebugOverlayInfo {
    pub app_name: String,
    pub app_version: String,
    pub bevy_version: String,
    /// The first processor core's brand.
    pub cpu_brand: Option<String>,
    pub gpu_adapter_name: Option<String>,
    /// The VRAM in use, already formatted.
    pub vram_text: Option<String>,
    pub vram_source: Option<String>,
    pub vram_scope: Option<String>,
    pub biome_name: Option<String>,
    /// The chunk the player stands in.
    pub player_chunk: Option<(i32, i32)>,
}

/// The overlay's GPU name: the adapter's name unless it is empty.
pub open spec fn overlay_gpu_name_of(adapter_name: Option<Seq<char>>) -> Seq<char> {
    match adapter_name {
        Some(n) => if n.len() > 0 {
            n
        } else {
            UNKNOWN_GPU@
        },
        None => UNKNOWN_GPU@,
    }
}

/// Where the VRAM reading came from: `source/scope`, the source alone, or
/// `unavailable`.
pub open spec fn vram_backend_of(source: Option<Seq<char>>, scope: Option<Seq<char>>) -> Seq<char> {
    match (source, scope) {
        (Some(s), Some(c)) => s + "/"@ + c,
        (Some(s), None) => s,
        _ => "unavailable"@,
    }
}

pub open spec fn or_na(v: Option<Seq<char>>) -> Seq<char> {
    match v {
        Some(s) => s,
        None => "n/a"@,
    }
}

/// The text of the overlay line with CSS id `id`, for the lines this module
/// builds.
pub open spec fn overlay_text(id: Seq<char>, info: DebugOverlayInfo) -> Option<Seq<char>> {
    if id == ID_BUILD@ {
        Some(info.app_name@ + " v"@ + info.app_version@ + " | Bevy "@ + info.bevy_version@)
    } else if id == ID_CPU_NAME@ {
        Some("CPU: "@ + cpu_name_of(opt_str(info.cpu_brand)))
    } else if id == ID_GPU_NAME@ {
        Some("GPU: "@ + overlay_gpu_name_of(opt_str(info.gpu_adapter_name)))
    } else if id == ID_VRAM@ {
        Some(
            "VRAM: "@ + or_na(opt_str(info.vram_text)) + " ("@ + vram_backend_of(
                opt_str(info.vram_source),
                opt_str(info.vram_scope),
            ) + ")"@,
        )
    } else if id == ID_BIOME@ {
        Some("Biome: "@ + or_na(opt_str(info.biome_name)))
    } else if id == ID_CHUNK_COORD@ {
        Some(
            match info.player_chunk {
                Some((x, z)) => "Chunk (x, y): "@ + signed_decimal(x as int) + " / "@ + signed_decimal(
                    z as int,
                ),
                None => "Chunk (x, y): n/a"@,
            },
        )
    } else {
        None
    }
}

/// Where the VRAM reading came from.
pub fn vram_backend_label(source: Option<&str>, scope: Option<&str>) -> (r: String)
    ensures
        r@ == vram_backend_of(
            match source {
                Some(s) => Some(s@),
                None => None,
            },
            match scope {
                Some(c) => Some(c@),
                None => None,
            },
        ),
{
    match source {
        Some(s) => {
            let mut out = to_owned_string(s);
            match scope {
                Some(c) => {
                    out.append("/");
                    out.append(c);
                },
                None => {},
            }
            out
        },
        None => to_owned_string("unavailable"),
    }
}

fn opt_as_str(o: &Option<String>) -> (r: Option<&str>)
    ensures
        match r {
            Some(s) => opt_str(*o) == Some(s@),
            None => o is None,
        },
{
    match o {
        Some(s) => Some(s.as_str()),
        None => None,
    }
}

fn append_or_na(out: &mut String, v: &Option<String>)
    ensures
        final(out)@ == old(out)@ + or_na(opt_str(*v)),
{
    match v {
        Some(s) => out.append(s.as_str()),
        None => out.append("n/a"),
    }
}

/// The text of the overlay line with this CSS id, or `None` for a line this
/// module does not build (measurements, or another widget).
pub fn debug_overlay_text_line(css_id: &str, info: &DebugOverlayInfo) -> (r: Option<String>)
    ensures
        match overlay_text(css_id@, *info) {
            Some(t) => r matches Some(s) && s@ == t,
            None => r is None,
        },
{
    if text_equals(css_id, ID_BUILD) {
        let mut out = to_owned_string(info.app_name.as_str());
        out.append(" v");
        out.append(info.app_version.as_str());
        out.append(" | Bevy ");
        out.append(info.bevy_version.as_str());
        Some(out)
    } else if text_equals(css_id, ID_CPU_NAME) {
        let mut out = to_owned_string("CPU: ");
        match opt_as_str(&info.cpu_brand) {
            Some(b) => {
                let t = trim(b);
                if t.unicode_len() > 0 {
                    out.append(t);
                } else {
                    out.append("Unknown CPU");
                }
            },
            None => out.append("Unknown CPU"),
        }
        Some(out)
    } else if text_equals(css_id, ID_GPU_NAME) {
        let mut out = to_owned_string("GPU: ");
        match opt_as_str(&info.gpu_adapter_name) {
            Some(n) => {
                if n.unicode_len() > 0 {
                    out.append(n);
                } else {
                    out.append(UNKNOWN_GPU);
                }
            },
            None => out.append(UNKNOWN_GPU),
        }
        Some(out)
    } else if text_equals(css_id, ID_VRAM) {
        let mut out = to_owned_string("VRAM: ");
        append_or_na(&mut out, &info.vram_text);
        out.append(" (");
        let backend = vram_backend_label(opt_as_str(&info.vram_source), opt_as_str(&info.vram_scope));
        out.append(backend.as_str());
        out.append(")");
        Some(out)
    } else if text_equals(css_id, ID_BIOME) {
        let mut out = to_owned_string("Biome: ");
        append_or_na(&mut out, &info.biome_name);
        Some(out)
    } else if text_equals(css_id, ID_CHUNK_COORD) {
        match info.player_chunk {
            Some((x, z)) => {
                let mut out = to_owned_string("Chunk (x, y): ");
                push_i32(&mut out, x);
                out.append(" / ");
                push_i32(&mut out, z);
                Some(out)
            },
            None => Some(to_owned_string("Chunk (x, y): n/a")),
        }
    } else {
        None
    }
}

} // verus!
