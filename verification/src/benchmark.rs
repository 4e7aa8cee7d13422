//! The benchmark's counters: when a run starts and stops, frame and stutter
//! counts, entity, archetype and asset peaks, spawns and despawns, draw calls,
//! memory peaks, and the names recorded for the report.
use vstd::prelude::*;
use crate::text::{trim, trim_seq, to_owned_string};
use crate::ui_state::Visibility;

verus! {

pub const UNKNOWN_CPU: &'static str = "Unknown CPU";
pub const UNKNOWN_GPU: &'static str = "Unknown GPU";
pub const UNKNOWN_OS: &'static str = "Unknown OS";

/// The integer state of a benchmark run; frame times themselves are floats
/// and kept beside it.
pub struct BenchmarkCounters {
    pub active: bool,
    pub frame_count: u64,
    /// Frames longer than 16 ms.
    pub spike_16_count: u64,
    /// Frames longer than 33 ms.
    pub spike_33_count: u64,
    /// Frames for which a GPU load was known, so a GPU time was estimated.
    pub gpu_frame_time_estimate_samples: u64,
    pub process_mem_bytes_latest: u64,
    pub process_mem_peak_bytes: u64,
    pub vram_bytes_latest: Option<u64>,
    pub vram_total_bytes: Option<u64>,
    pub vram_peak_bytes: u64,
    pub last_entity_count: Option<usize>,
    pub current_entity_count: usize,
    pub peak_entity_count: usize,
    pub current_archetype_count: usize,
    pub peak_archetype_count: usize,
    pub query_iterations_total: u64,
    pub spawn_count_total: u64,
    pub despawn_count_total: u64,
    pub current_mesh_assets: usize,
    pub peak_mesh_assets: usize,
    pub current_texture_assets: usize,
    pub peak_texture_assets: usize,
    pub approx_draw_calls_latest: u64,
    pub approx_draw_calls_peak: u64,
    pub approx_vertices_latest: u64,
    pub approx_vertices_peak: u64,
    pub approx_triangles_latest: u64,
    pub approx_triangles_peak: u64,
    /// Frames for which chunk-stage timings were known.
    pub chunk_samples: u64,
    pub cpu_name: String,
    pub gpu_name: String,
    pub os_name: String,
    pub desktop_manager: Option<String>,
}

/// Every counter of a run at zero, with no memory readings.
pub open spec fn counters_cleared(c: BenchmarkCounters) -> bool {
    &&& c.frame_count == 0
    &&& c.spike_16_count == 0
    &&& c.spike_33_count == 0
    &&& c.gpu_frame_time_estimate_samples == 0
    &&& c.process_mem_bytes_latest == 0
    &&& c.process_mem_peak_bytes == 0
    &&& c.vram_bytes_latest is None
    &&& c.vram_total_bytes is None
    &&& c.vram_peak_bytes == 0
    &&& c.last_entity_count is None
    &&& c.current_entity_count == 0
    &&& c.peak_entity_count == 0
    &&& c.current_archetype_count == 0
    &&& c.peak_archetype_count == 0
    &&& c.query_iterations_total == 0
    &&& c.spawn_count_total == 0
    &&& c.despawn_count_total == 0
    &&& c.current_mesh_assets == 0
    &&& c.peak_mesh_assets == 0
    &&& c.current_texture_assets == 0
    &&& c.peak_texture_assets == 0
    &&& c.approx_draw_calls_latest == 0
    &&& c.approx_draw_calls_peak == 0
    &&& c.approx_vertices_latest == 0
    &&& c.approx_vertices_peak == 0
    &&& c.approx_triangles_latest == 0
    &&& c.approx_triangles_peak == 0
    &&& c.chunk_samples == 0
}

pub open spec fn max_u64(a: u64, b: u64) -> u64 {
    if a >= b {
        a
    } else {
        b
    }
}

pub open spec fn max_usize(a: usize, b: usize) -> usize {
    if a >= b {
        a
    } else {
        b
    }
}

fn larger_u64(a: u64, b: u64) -> (r: u64)
    ensures
        r == max_u64(a, b),
{
    if a >= b {
        a
    } else {
        b
    }
}

fn larger_usize(a: usize, b: usize) -> (r: usize)
    ensures
        r == max_usize(a, b),
{
    if a >= b {
        a
    } else {
        b
    }
}

/// What one frame of a run reports, besides its duration.
pub struct BenchmarkFrameSample {
    /// Whether the frame took longer than 16 ms.
    pub over_16_ms: bool,
    /// Whether the frame took longer than 33 ms.
    pub over_33_ms: bool,
    /// Whether a GPU load reading was available.
    pub gpu_load_known: bool,
    pub entity_count: usize,
    pub archetype_count: usize,
    pub mesh_assets: usize,
    pub texture_assets: usize,
    pub draw_calls: u64,
    /// Whether the chunk pipeline reported its stage timings.
    pub chunk_telemetry: bool,
}

/// One more, saturating at the type's maximum.
pub open spec fn bump(n: u64, on: bool) -> u64 {
    if on {
        n.saturating_add(1)
    } else {
        n
    }
}

/// The counters after `c` recorded frame `s` (a run in progress).
pub open spec fn counters_after_frame(c: BenchmarkCounters, s: BenchmarkFrameSample) -> BenchmarkCounters {
    let grew = match c.last_entity_count {
        Some(last) => if s.entity_count > last {
            (s.entity_count - last) as u64
        } else {
            0u64
        },
        None => 0u64,
    };
    let shrank = match c.last_entity_count {
        Some(last) => if last > s.entity_count {
            (last - s.entity_count) as u64
        } else {
            0u64
        },
        None => 0u64,
    };
    BenchmarkCounters {
        frame_count: c.frame_count.saturating_add(1),
        spike_16_count: bump(c.spike_16_count, s.over_16_ms),
        spike_33_count: bump(c.spike_33_count, s.over_33_ms),
        gpu_frame_time_estimate_samples: bump(c.gpu_frame_time_estimate_samples, s.gpu_load_known),
        current_entity_count: s.entity_count,
        peak_entity_count: max_usize(c.peak_entity_count, s.entity_count),
        spawn_count_total: c.spawn_count_total.saturating_add(grew),
        despawn_count_total: c.despawn_count_total.saturating_add(shrank),
        last_entity_count: Some(s.entity_count),
        current_archetype_count: s.archetype_count,
        peak_archetype_count: max_usize(c.peak_archetype_count, s.archetype_count),
        query_iterations_total: c.query_iterations_total.saturating_add(s.entity_count as u64),
        current_mesh_assets: s.mesh_assets,
        peak_mesh_assets: max_usize(c.peak_mesh_assets, s.mesh_assets),
        current_texture_assets: s.texture_assets,
        peak_texture_assets: max_usize(c.peak_texture_assets, s.texture_assets),
        approx_draw_calls_latest: s.draw_calls,
        approx_draw_calls_peak: max_u64(c.approx_draw_calls_peak, s.draw_calls),
        approx_vertices_latest: 0,
        approx_triangles_latest: 0,
        chunk_samples: bump(c.chunk_samples, s.chunk_telemetry),
        ..c
    }
}

/// Whether a mesh with this view visibility counts as a draw call: a mesh
/// counts unless it carries a visibility saying it is not visible.
pub open spec fn is_drawn(v: Option<bool>) -> bool {
    v != Some(false)
}

pub open spec fn drawn_count(vs: Seq<Option<bool>>) -> nat
    decreases vs.len(),
{
    if vs.len() == 0 {
        0
    } else {
        drawn_count(vs.drop_last()) + if is_drawn(vs.last()) {
            1nat
        } else {
            0nat
        }
    }
}

proof fn lemma_drawn_count_bound(vs: Seq<Option<bool>>)
    ensures
        drawn_count(vs) <= vs.len(),
    decreases vs.len(),
{
    if vs.len() > 0 {
        lemma_drawn_count_bound(vs.drop_last());
    }
}

/// The approximate draw calls of a frame: the meshes that are drawn.
pub fn count_draw_calls(view_visibilities: &Vec<Option<bool>>) -> (r: u64)
    ensures
        r as nat == drawn_count(view_visibilities@),
{
    let mut count: u64 = 0;
    let mut i: usize = 0;
    while i < view_visibilities.len()
        invariant
            i <= view_visibilities@.len(),
            count as nat == drawn_count(view_visibilities@.subrange(0, i as int)),
        decreases view_visibilities@.len() - i,
    {
        let ghost before = view_visibilities@.subrange(0, i as int);
        assert(view_visibilities@.subrange(0, i as int + 1).drop_last() =~= before);
        proof {
            lemma_drawn_count_bound(before);
        }
        let drawn = match view_visibilities[i] {
            Some(false) => false,
            _ => true,
        };
        if drawn {
            count = count + 1;
        }
        i = i + 1;
    }
    assert(view_visibilities@.subrange(0, i as int) =~= view_visibilities@);
    count
}

/// What the benchmark key does.
#[derive(Clone, Copy, PartialEq, Eq, Debug, Structural)]
pub enum BenchmarkKeyAction {
    Ignore,
    Start,
    Stop,
}

/// The benchmark key is ignored while input is locked or when it was not
/// just pressed; otherwise it stops a running benchmark or starts one.
pub fn benchmark_key_action(input_locked: bool, key_just_pressed: bool, active: bool) -> (r: BenchmarkKeyAction)
    ensures
        r == if input_locked || !key_just_pressed {
            BenchmarkKeyAction::Ignore
        } else if active {
            BenchmarkKeyAction::Stop
        } else {
            BenchmarkKeyAction::Start
        },
{
    if input_locked || !key_just_pressed {
        BenchmarkKeyAction::Ignore
    } else if active {
        BenchmarkKeyAction::Stop
    } else {
        BenchmarkKeyAction::Start
    }
}

/// The GPU name for the report: the adapter's name unless it is blank.
pub open spec fn gpu_name_of(adapter_name: Option<Seq<char>>) -> Seq<char> {
    match adapter_name {
        Some(n) => if trim_seq(n).len() > 0 {
            n
        } else {
            UNKNOWN_GPU@
        },
        None => UNKNOWN_GPU@,
    }
}

/// The CPU name for the report: the first core's brand, trimmed, unless it
/// is blank.
pub open spec fn cpu_name_of(brand: Option<Seq<char>>) -> Seq<char> {
    match brand {
        Some(b) => if trim_seq(b).len() > 0 {
            trim_seq(b)
        } else {
            UNKNOWN_CPU@
        },
        None => UNKNOWN_CPU@,
    }
}

fn gpu_name_for(adapter_name: Option<&str>) -> (r: String)
    ensures
        r@ == gpu_name_of(
            match adapter_name {
                Some(n) => Some(n@),
                None => None,
            },
        ),
{
    match adapter_name {
        Some(n) => {
            if trim(n).unicode_len() > 0 {
                to_owned_string(n)
            } else {
                to_owned_string(UNKNOWN_GPU)
            }
        },
        None => to_owned_string(UNKNOWN_GPU),
    }
}

fn cpu_name_for(brand: Option<&str>) -> (r: String)
    ensures
        r@ == cpu_name_of(
            match brand {
                Some(b) => Some(b@),
                None => None,
            },
        ),
{
    match brand {
        Some(b) => {
            let t = trim(b);
            if t.unicode_len() > 0 {
                to_owned_string(t)
            } else {
                to_owned_string(UNKNOWN_CPU)
            }
        },
        None => to_owned_string(UNKNOWN_CPU),
    }
}

/// The names and readings of a benchmark, apart from its counters.
pub open spec fn same_names(a: BenchmarkCounters, b: BenchmarkCounters) -> bool {
    &&& a.cpu_name@ == b.cpu_name@
    &&& a.gpu_name@ == b.gpu_name@
    &&& a.os_name@ == b.os_name@
    &&& match (a.desktop_manager, b.desktop_manager) {
        (Some(x), Some(y)) => x@ == y@,
        (None, None) => true,
        _ => false,
    }
}

impl BenchmarkCounters {
    /// No run, every counter at zero, and unknown system names.
    pub fn new() -> (r: Self)
        ensures
            !r.active,
            counters_cleared(r),
            r.cpu_name@ == UNKNOWN_CPU@,
            r.gpu_name@ == UNKNOWN_GPU@,
            r.os_name@ == UNKNOWN_OS@,
            r.desktop_manager is None,
    {
        BenchmarkCounters {
            active: false,
            frame_count: 0,
            spike_16_count: 0,
            spike_33_count: 0,
            gpu_frame_time_estimate_samples: 0,
            process_mem_bytes_latest: 0,
            process_mem_peak_bytes: 0,
            vram_bytes_latest: None,
            vram_total_bytes: None,
            vram_peak_bytes: 0,
            last_entity_count: None,
            current_entity_count: 0,
            peak_entity_count: 0,
            current_archetype_count: 0,
            peak_archetype_count: 0,
            query_iterations_total: 0,
            spawn_count_total: 0,
            despawn_count_total: 0,
            current_mesh_assets: 0,
            peak_mesh_assets: 0,
            current_texture_assets: 0,
            peak_texture_assets: 0,
            approx_draw_calls_latest: 0,
            approx_draw_calls_peak: 0,
            approx_vertices_latest: 0,
            approx_vertices_peak: 0,
            approx_triangles_latest: 0,
            approx_triangles_peak: 0,
            chunk_samples: 0,
            cpu_name: to_owned_string(UNKNOWN_CPU),
            gpu_name: to_owned_string(UNKNOWN_GPU),
            os_name: to_owned_string(UNKNOWN_OS),
            desktop_manager: None,
        }
    }

    /// Zeroes every counter and forgets the memory readings; whether a run is
    /// active and the system names stay.
    pub fn reset_for_start(&mut self)
        ensures
            counters_cleared(*final(self)),
            final(self).active == old(self).active,
            same_names(*old(self), *final(self)),
    {
        self.frame_count = 0;
        self.spike_16_count = 0;
        self.spike_33_count = 0;
        self.gpu_frame_time_estimate_samples = 0;
        self.process_mem_bytes_latest = 0;
        self.process_mem_peak_bytes = 0;
        self.vram_bytes_latest = None;
        self.vram_total_bytes = None;
        self.vram_peak_bytes = 0;
        self.last_entity_count = None;
        self.current_entity_count = 0;
        self.peak_entity_count = 0;
        self.current_archetype_count = 0;
        self.peak_archetype_count = 0;
        self.query_iterations_total = 0;
        self.spawn_count_total = 0;
        self.despawn_count_total = 0;
        self.current_mesh_assets = 0;
        self.peak_mesh_assets = 0;
        self.current_texture_assets = 0;
        self.peak_texture_assets = 0;
        self.approx_draw_calls_latest = 0;
        self.approx_draw_calls_peak = 0;
        self.approx_vertices_latest = 0;
        self.approx_vertices_peak = 0;
        self.approx_triangles_latest = 0;
        self.approx_triangles_peak = 0;
        self.chunk_samples = 0;
    }

    /// Starts a run unless one is running: the counters are zeroed and the
    /// system names recorded (a blank GPU or CPU name reads as unknown).
    /// Returns whether a run started.
    pub fn start(
        &mut self,
        os_name: String,
        desktop_manager: Option<String>,
        gpu_adapter_name: Option<&str>,
        cpu_brand: Option<&str>,
    ) -> (r: bool)
        ensures
            r == !old(self).active,
            final(self).active,
            !r ==> *final(self) == *old(self),
            r ==> counters_cleared(*final(self)) && final(self).os_name == os_name
                && final(self).desktop_manager == desktop_manager && final(self).gpu_name@
                == gpu_name_of(
                match gpu_adapter_name {
                    Some(n) => Some(n@),
                    None => None,
                },
            ) && final(self).cpu_name@ == cpu_name_of(
                match cpu_brand {
                    Some(b) => Some(b@),
                    None => None,
                },
            ),
    {
        if self.active {
            return false;
        }
        self.reset_for_start();
        self.active = true;
        self.os_name = os_name;
        self.desktop_manager = desktop_manager;
        self.gpu_name = gpu_name_for(gpu_adapter_name);
        self.cpu_name = cpu_name_for(cpu_brand);
        true
    }

    /// Ends a running benchmark; returns whether one was running (and its
    /// report is due). The counters stay for the report.
    pub fn stop(&mut self) -> (r: bool)
        ensures
            r == old(self).active,
            !final(self).active,
            *final(self) == (BenchmarkCounters { active: false, ..*old(self) }),
    {
        if !self.active {
            return false;
        }
        self.active = false;
        true
    }

    /// Records the process memory and VRAM readings of a system poll, with
    /// their peaks.
    pub fn record_system_metrics(&mut self, process_mem_bytes: u64, vram_bytes: Option<u64>, vram_total_bytes: Option<u64>)
        ensures
            *final(self) == (BenchmarkCounters {
                process_mem_bytes_latest: process_mem_bytes,
                process_mem_peak_bytes: max_u64(old(self).process_mem_peak_bytes, process_mem_bytes),
                vram_bytes_latest: vram_bytes,
                vram_total_bytes: vram_total_bytes,
                vram_peak_bytes: match vram_bytes {
                    Some(b) => max_u64(old(self).vram_peak_bytes, b),
                    None => old(self).vram_peak_bytes,
                },
                ..*old(self)
            }),
    {
        self.process_mem_bytes_latest = process_mem_bytes;
        self.process_mem_peak_bytes = larger_u64(self.process_mem_peak_bytes, process_mem_bytes);
        self.vram_bytes_latest = vram_bytes;
        self.vram_total_bytes = vram_total_bytes;
        match vram_bytes {
            Some(b) => {
                self.vram_peak_bytes = larger_u64(self.vram_peak_bytes, b);
            },
            None => {},
        }
    }

    /// Records one frame of a running benchmark; nothing changes while no run
    /// is active.
    pub fn record_frame(&mut self, sample: &BenchmarkFrameSample)
        ensures
            !old(self).active ==> *final(self) == *old(self),
            old(self).active ==> *final(self) == counters_after_frame(*old(self), *sample),
    {
        if !self.active {
            return;
        }
        let entity_count = sample.entity_count;
        self.frame_count = self.frame_count.saturating_add(1);
        if sample.over_16_ms {
            self.spike_16_count = self.spike_16_count.saturating_add(1);
        }
        if sample.over_33_ms {
            self.spike_33_count = self.spike_33_count.saturating_add(1);
        }
        if sample.gpu_load_known {
            self.gpu_frame_time_estimate_samples = self.gpu_frame_time_estimate_samples.saturating_add(1);
        }
        self.current_entity_count = entity_count;
        self.peak_entity_count = larger_usize(self.peak_entity_count, entity_count);
        match self.last_entity_count {
            Some(last) => {
                if entity_count > last {
                    let grew: usize = entity_count - last;
                    self.spawn_count_total = self.spawn_count_total.saturating_add(grew as u64);
                } else if last > entity_count {
                    let shrank: usize = last - entity_count;
                    self.despawn_count_total = self.despawn_count_total.saturating_add(shrank as u64);
                }
            },
            None => {},
        }
        self.last_entity_count = Some(entity_count);
        self.current_archetype_count = sample.archetype_count;
        self.peak_archetype_count = larger_usize(self.peak_archetype_count, sample.archetype_count);
        self.query_iterations_total = self.query_iterations_total.saturating_add(entity_count as u64);
        self.current_mesh_assets = sample.mesh_assets;
        self.peak_mesh_assets = larger_usize(self.peak_mesh_assets, sample.mesh_assets);
        self.current_texture_assets = sample.texture_assets;
        self.peak_texture_assets = larger_usize(self.peak_texture_assets, sample.texture_assets);
        self.approx_draw_calls_latest = sample.draw_calls;
        self.approx_draw_calls_peak = larger_u64(self.approx_draw_calls_peak, sample.draw_calls);
        self.approx_vertices_latest = 0;
        self.approx_vertices_peak = larger_u64(self.approx_vertices_peak, 0);
        self.approx_triangles_latest = 0;
        self.approx_triangles_peak = larger_u64(self.approx_triangles_peak, 0);
        if sample.chunk_telemetry {
            self.chunk_samples = self.chunk_samples.saturating_add(1);
        }
    }
}

/// After a recorded frame every peak is at least its current value, and a
/// long frame is counted as a spike.
pub proof fn lemma_frame_peaks_cover_current(c: BenchmarkCounters, s: BenchmarkFrameSample)
    ensures
        ({
            let n = counters_after_frame(c, s);
            &&& n.peak_entity_count >= n.current_entity_count
            &&& n.peak_archetype_count >= n.current_archetype_count
            &&& n.peak_mesh_assets >= n.current_mesh_assets
            &&& n.peak_texture_assets >= n.current_texture_assets
            &&& n.approx_draw_calls_peak >= n.approx_draw_calls_latest
            &&& n.frame_count >= c.frame_count
            &&& (s.over_16_ms && c.spike_16_count < u64::MAX ==> n.spike_16_count == c.spike_16_count + 1)
        }),
{
}

/// A frame over 33 ms is also over 16 ms, so the count of long spikes never
/// passes the count of short ones.
pub proof fn lemma_long_spikes_within_short(c: BenchmarkCounters, s: BenchmarkFrameSample)
    requires
        c.spike_33_count <= c.spike_16_count,
        s.over_33_ms ==> s.over_16_ms,
    ensures
        counters_after_frame(c, s).spike_33_count <= counters_after_frame(c, s).spike_16_count,
{
}

/// The benchmark border shows while a run is active.
pub fn benchmark_border_visibility(active: bool) -> (r: Visibility)
    ensures
        r == if active {
            Visibility::Inherited
        } else {
            Visibility::Hidden
        },
{
    if active {
        Visibility::Inherited
    } else {
        Visibility::Hidden
    }
}

/// One environment variable that may name the desktop session.
pub struct DesktopCandidate {
    pub key: String,
    pub value: Option<String>,
}

/// Index of the first candidate at or after `i` whose value is not blank.
pub open spec fn first_desktop_from(c: Seq<DesktopCandidate>, i: int) -> Option<int>
    decreases c.len() - i,
{
    if i < 0 || i >= c.len() {
        None
    } else if c[i].value matches Some(v) && trim_seq(v@).len() > 0 {
        Some(i)
    } else {
        first_desktop_from(c, i + 1)
    }
}

/// The desktop manager line: the first candidate variable with a non-blank
/// value, as `value (KEY)` with the value trimmed.
pub open spec fn desktop_manager_of(c: Seq<DesktopCandidate>) -> Option<Seq<char>> {
    match first_desktop_from(c, 0) {
        Some(k) => Some(trim_seq(c[k].value->0@) + " ("@ + c[k].key@ + ")"@),
        None => None,
    }
}

/// The desktop manager of a Linux session, from the values of its candidate
/// variables in order of preference.
pub fn desktop_manager_from(candidates: &Vec<DesktopCandidate>) -> (r: Option<String>)
    ensures
        match desktop_manager_of(candidates@) {
            Some(s) => r matches Some(x) && x@ == s,
            None => r is None,
        },
{
    let mut i: usize = 0;
    while i < candidates.len()
        invariant
            i <= candidates@.len(),
            first_desktop_from(candidates@, 0) == first_desktop_from(candidates@, i as int),
        decreases candidates@.len() - i,
    {
        match &candidates[i].value {
            Some(v) => {
                let t = trim(v.as_str());
                if t.unicode_len() > 0 {
                    let mut out = to_owned_string(t);
                    out.append(" (");
                    out.append(candidates[i].key.as_str());
                    out.append(")");
                    return Some(out);
                }
            },
            None => {},
        }
        i = i + 1;
    }
    None
}

} // verus!
