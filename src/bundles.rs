//! Bundles: fixed groups of entry records in their default configuration,
//! built in one call.

use vstd::prelude::*;
use crate::entry::{is_default_of, EntryKind, PerfUiEntry};
use crate::registry::{lemma_shown_all, predefined_kinds, shown};

verus! {

/// `es` are default records of the kinds `ks`, one for one.
pub open spec fn all_default(es: Seq<PerfUiEntry>, ks: Seq<EntryKind>) -> bool {
    &&& es.len() == ks.len()
    &&& forall|i: int| 0 <= i < es.len() ==> is_default_of(#[trigger] es[i], ks[i])
}

/// Every entry kind the library provides; the system-sampling ones only where
/// asked for.
pub struct PerfUiAllEntries {
    pub fps: PerfUiEntry,
    pub fps_worst: PerfUiEntry,
    pub frametime: PerfUiEntry,
    pub frametime_worst: PerfUiEntry,
    pub frame_count: PerfUiEntry,
    pub entity_count: PerfUiEntry,
    /// Present only where system sampling is wanted.
    pub cpu_usage: Option<PerfUiEntry>,
    /// Present only where system sampling is wanted.
    pub mem_usage: Option<PerfUiEntry>,
    pub fixed_timestep: PerfUiEntry,
    pub fixed_overstep: PerfUiEntry,
    pub time_running: PerfUiEntry,
    pub time_clock: PerfUiEntry,
    pub cursor_position: PerfUiEntry,
    pub window_resolution: PerfUiEntry,
    pub window_scale_factor: PerfUiEntry,
    pub window_mode: PerfUiEntry,
    pub window_present_mode: PerfUiEntry,
}

/// The optional record as a sequence of zero or one.
pub open spec fn opt_seq(o: Option<PerfUiEntry>) -> Seq<PerfUiEntry> {
    match o {
        Some(e) => seq![e],
        None => Seq::empty(),
    }
}

impl PerfUiAllEntries {
    /// The kinds of the records, in order.
    pub open spec fn kinds(system: bool) -> Seq<EntryKind> {
        seq![
            EntryKind::Fps,
            EntryKind::FpsWorst,
            EntryKind::FrameTime,
            EntryKind::FrameTimeWorst,
            EntryKind::FrameCount,
            EntryKind::EntityCount,
        ] + (if system {
            seq![EntryKind::CpuUsage, EntryKind::MemUsage]
        } else {
            Seq::empty()
        }) + seq![
            EntryKind::FixedTimeStep,
            EntryKind::FixedOverstep,
            EntryKind::RunningTime,
            EntryKind::Clock,
            EntryKind::CursorPosition,
            EntryKind::WindowResolution,
            EntryKind::WindowScaleFactor,
            EntryKind::WindowMode,
            EntryKind::WindowPresentMode,
        ]
    }

    /// The records, in order.
    pub open spec fn entries_spec(&self) -> Seq<PerfUiEntry> {
        seq![
            self.fps,
            self.fps_worst,
            self.frametime,
            self.frametime_worst,
            self.frame_count,
            self.entity_count,
        ] + opt_seq(self.cpu_usage) + opt_seq(self.mem_usage) + seq![
            self.fixed_timestep,
            self.fixed_overstep,
            self.time_running,
            self.time_clock,
            self.cursor_position,
            self.window_resolution,
            self.window_scale_factor,
            self.window_mode,
            self.window_present_mode,
        ]
    }

    /// Each record in its default configuration, the system-sampling ones
    /// only where `system` is set.
    pub fn new(system: bool) -> (r: Self)
        ensures
            all_default(r.entries_spec(), Self::kinds(system)),
    {
        PerfUiAllEntries {
            fps: PerfUiEntry::new(EntryKind::Fps),
            fps_worst: PerfUiEntry::new(EntryKind::FpsWorst),
            frametime: PerfUiEntry::new(EntryKind::FrameTime),
            frametime_worst: PerfUiEntry::new(EntryKind::FrameTimeWorst),
            frame_count: PerfUiEntry::new(EntryKind::FrameCount),
            entity_count: PerfUiEntry::new(EntryKind::EntityCount),
            cpu_usage: if system { Some(PerfUiEntry::new(EntryKind::CpuUsage)) } else { None },
            mem_usage: if system { Some(PerfUiEntry::new(EntryKind::MemUsage)) } else { None },
            fixed_timestep: PerfUiEntry::new(EntryKind::FixedTimeStep),
            fixed_overstep: PerfUiEntry::new(EntryKind::FixedOverstep),
            time_running: PerfUiEntry::new(EntryKind::RunningTime),
            time_clock: PerfUiEntry::new(EntryKind::Clock),
            cursor_position: PerfUiEntry::new(EntryKind::CursorPosition),
            window_resolution: PerfUiEntry::new(EntryKind::WindowResolution),
            window_scale_factor: PerfUiEntry::new(EntryKind::WindowScaleFactor),
            window_mode: PerfUiEntry::new(EntryKind::WindowMode),
            window_present_mode: PerfUiEntry::new(EntryKind::WindowPresentMode),
        }
    }

    /// The records, to attach to one display.
    pub fn into_entries(self) -> (r: Vec<PerfUiEntry>)
        ensures
            r@ == self.entries_spec(),
    {
        let ghost whole = self.entries_spec();
        let mut r: Vec<PerfUiEntry> = Vec::new();
        r.push(self.fps);
        r.push(self.fps_worst);
        r.push(self.frametime);
        r.push(self.frametime_worst);
        r.push(self.frame_count);
        r.push(self.entity_count);
        match self.cpu_usage {
            Some(e) => r.push(e),
            None => {},
        }
        match self.mem_usage {
            Some(e) => r.push(e),
            None => {},
        }
        r.push(self.fixed_timestep);
        r.push(self.fixed_overstep);
        r.push(self.time_running);
        r.push(self.time_clock);
        r.push(self.cursor_position);
        r.push(self.window_resolution);
        r.push(self.window_scale_factor);
        r.push(self.window_mode);
        r.push(self.window_present_mode);
        assert(r@ =~= whole);
        r
    }
}

impl Default for PerfUiAllEntries {
    /// Without the system-sampling records.
    fn default() -> (r: Self)
        ensures
            all_default(r.entries_spec(), Self::kinds(false)),
    {
        Self::new(false)
    }
}

/// The most useful entries: framerate, entity count, cursor and window size.
pub struct PerfUiDefaultEntries {
    pub fps: PerfUiEntry,
    pub fps_worst: PerfUiEntry,
    pub frametime: PerfUiEntry,
    pub frametime_worst: PerfUiEntry,
    pub entity_count: PerfUiEntry,
    pub cursor_position: PerfUiEntry,
    pub window_resolution: PerfUiEntry,
}

impl PerfUiDefaultEntries {
    /// The kinds of the records, in order.
    pub open spec fn kinds() -> Seq<EntryKind> {
        seq![
            EntryKind::Fps,
            EntryKind::FpsWorst,
            EntryKind::FrameTime,
            EntryKind::FrameTimeWorst,
            EntryKind::EntityCount,
            EntryKind::CursorPosition,
            EntryKind::WindowResolution,
        ]
    }

    /// The records, in order.
    pub open spec fn entries_spec(&self) -> Seq<PerfUiEntry> {
        seq![
            self.fps,
            self.fps_worst,
            self.frametime,
            self.frametime_worst,
            self.entity_count,
            self.cursor_position,
            self.window_resolution,
        ]
    }

    /// Each record in its default configuration.
    pub fn new() -> (r: Self)
        ensures
            all_default(r.entries_spec(), Self::kinds()),
    {
        PerfUiDefaultEntries {
            fps: PerfUiEntry::new(EntryKind::Fps),
            fps_worst: PerfUiEntry::new(EntryKind::FpsWorst),
            frametime: PerfUiEntry::new(EntryKind::FrameTime),
            frametime_worst: PerfUiEntry::new(EntryKind::FrameTimeWorst),
            entity_count: PerfUiEntry::new(EntryKind::EntityCount),
            cursor_position: PerfUiEntry::new(EntryKind::CursorPosition),
            window_resolution: PerfUiEntry::new(EntryKind::WindowResolution),
        }
    }

    /// The records, to attach to one display.
    pub fn into_entries(self) -> (r: Vec<PerfUiEntry>)
        ensures
            r@ == self.entries_spec(),
    {
        let mut r: Vec<PerfUiEntry> = Vec::new();
        r.push(self.fps);
        r.push(self.fps_worst);
        r.push(self.frametime);
        r.push(self.frametime_worst);
        r.push(self.entity_count);
        r.push(self.cursor_position);
        r.push(self.window_resolution);
        assert(r@ =~= self.entries_spec());
        r
    }
}

impl Default for PerfUiDefaultEntries {
    fn default() -> (r: Self)
        ensures
            all_default(r.entries_spec(), Self::kinds()),
    {
        Self::new()
    }
}

/// All entries related to framerate.
pub struct PerfUiFramerateEntries {
    pub fps: PerfUiEntry,
    pub fps_worst: PerfUiEntry,
    pub frametime: PerfUiEntry,
    pub frametime_worst: PerfUiEntry,
}

impl PerfUiFramerateEntries {
    /// The kinds of the records, in order.
    pub open spec fn kinds() -> Seq<EntryKind> {
        seq![
            EntryKind::Fps,
            EntryKind::FpsWorst,
            EntryKind::FrameTime,
            EntryKind::FrameTimeWorst,
        ]
    }

    /// The records, in order.
    pub open spec fn entries_spec(&self) -> Seq<PerfUiEntry> {
        seq![
            self.fps,
            self.fps_worst,
            self.frametime,
            self.frametime_worst,
        ]
    }

    /// Each record in its default configuration.
    pub fn new() -> (r: Self)
        ensures
            all_default(r.entries_spec(), Self::kinds()),
    {
        PerfUiFramerateEntries {
            fps: PerfUiEntry::new(EntryKind::Fps),
            fps_worst: PerfUiEntry::new(EntryKind::FpsWorst),
            frametime: PerfUiEntry::new(EntryKind::FrameTime),
            frametime_worst: PerfUiEntry::new(EntryKind::FrameTimeWorst),
        }
    }

    /// The records, to attach to one display.
    pub fn into_entries(self) -> (r: Vec<PerfUiEntry>)
        ensures
            r@ == self.entries_spec(),
    {
        let mut r: Vec<PerfUiEntry> = Vec::new();
        r.push(self.fps);
        r.push(self.fps_worst);
        r.push(self.frametime);
        r.push(self.frametime_worst);
        assert(r@ =~= self.entries_spec());
        r
    }
}

impl Default for PerfUiFramerateEntries {
    fn default() -> (r: Self)
        ensures
            all_default(r.entries_spec(), Self::kinds()),
    {
        Self::new()
    }
}

/// All entries related to system sampling.
pub struct PerfUiSystemEntries {
    pub cpu_usage: PerfUiEntry,
    pub mem_usage: PerfUiEntry,
}

impl PerfUiSystemEntries {
    /// The kinds of the records, in order.
    pub open spec fn kinds() -> Seq<EntryKind> {
        seq![
            EntryKind::CpuUsage,
            EntryKind::MemUsage,
        ]
    }

    /// The records, in order.
    pub open spec fn entries_spec(&self) -> Seq<PerfUiEntry> {
        seq![self.cpu_usage, self.mem_usage]
    }

    /// Each record in its default configuration.
    pub fn new() -> (r: Self)
        ensures
            all_default(r.entries_spec(), Self::kinds()),
    {
        PerfUiSystemEntries {
            cpu_usage: PerfUiEntry::new(EntryKind::CpuUsage),
            mem_usage: PerfUiEntry::new(EntryKind::MemUsage),
        }
    }

    /// The records, to attach to one display.
    pub fn into_entries(self) -> (r: Vec<PerfUiEntry>)
        ensures
            r@ == self.entries_spec(),
    {
        let mut r: Vec<PerfUiEntry> = Vec::new();
        r.push(self.cpu_usage);
        r.push(self.mem_usage);
        assert(r@ =~= self.entries_spec());
        r
    }
}

impl Default for PerfUiSystemEntries {
    fn default() -> (r: Self)
        ensures
            all_default(r.entries_spec(), Self::kinds()),
    {
        Self::new()
    }
}

/// All entries related to the fixed timestep.
pub struct PerfUiFixedTimeEntries {
    pub fixed_timestep: PerfUiEntry,
    pub fixed_overstep: PerfUiEntry,
}

impl PerfUiFixedTimeEntries {
    /// The kinds of the records, in order.
    pub open spec fn kinds() -> Seq<EntryKind> {
        seq![
            EntryKind::FixedTimeStep,
            EntryKind::FixedOverstep,
        ]
    }

    /// The records, in order.
    pub open spec fn entries_spec(&self) -> Seq<PerfUiEntry> {
        seq![self.fixed_timestep, self.fixed_overstep]
    }

    /// Each record in its default configuration.
    pub fn new() -> (r: Self)
        ensures
            all_default(r.entries_spec(), Self::kinds()),
    {
        PerfUiFixedTimeEntries {
            fixed_timestep: PerfUiEntry::new(EntryKind::FixedTimeStep),
            fixed_overstep: PerfUiEntry::new(EntryKind::FixedOverstep),
        }
    }

    /// The records, to attach to one display.
    pub fn into_entries(self) -> (r: Vec<PerfUiEntry>)
        ensures
            r@ == self.entries_spec(),
    {
        let mut r: Vec<PerfUiEntry> = Vec::new();
        r.push(self.fixed_timestep);
        r.push(self.fixed_overstep);
        assert(r@ =~= self.entries_spec());
        r
    }
}

impl Default for PerfUiFixedTimeEntries {
    fn default() -> (r: Self)
        ensures
            all_default(r.entries_spec(), Self::kinds()),
    {
        Self::new()
    }
}

/// All entries related to windowing.
pub struct PerfUiWindowEntries {
    pub cursor_position: PerfUiEntry,
    pub window_resolution: PerfUiEntry,
    pub window_scale_factor: PerfUiEntry,
    pub window_mode: PerfUiEntry,
    pub window_present_mode: PerfUiEntry,
}

impl PerfUiWindowEntries {
    /// The kinds of the records, in order.
    pub open spec fn kinds() -> Seq<EntryKind> {
        seq![
            EntryKind::CursorPosition,
            EntryKind::WindowResolution,
            EntryKind::WindowScaleFactor,
            EntryKind::WindowMode,
            EntryKind::WindowPresentMode,
        ]
    }

    /// The records, in order.
    pub open spec fn entries_spec(&self) -> Seq<PerfUiEntry> {
        seq![
            self.cursor_position,
            self.window_resolution,
            self.window_scale_factor,
            self.window_mode,
            self.window_present_mode,
        ]
    }

    /// Each record in its default configuration.
    pub fn new() -> (r: Self)
        ensures
            all_default(r.entries_spec(), Self::kinds()),
    {
        PerfUiWindowEntries {
            cursor_position: PerfUiEntry::new(EntryKind::CursorPosition),
            window_resolution: PerfUiEntry::new(EntryKind::WindowResolution),
            window_scale_factor: PerfUiEntry::new(EntryKind::WindowScaleFactor),
            window_mode: PerfUiEntry::new(EntryKind::WindowMode),
            window_present_mode: PerfUiEntry::new(EntryKind::WindowPresentMode),
        }
    }

    /// The records, to attach to one display.
    pub fn into_entries(self) -> (r: Vec<PerfUiEntry>)
        ensures
            r@ == self.entries_spec(),
    {
        let mut r: Vec<PerfUiEntry> = Vec::new();
        r.push(self.cursor_position);
        r.push(self.window_resolution);
        r.push(self.window_scale_factor);
        r.push(self.window_mode);
        r.push(self.window_present_mode);
        assert(r@ =~= self.entries_spec());
        r
    }
}

impl Default for PerfUiWindowEntries {
    fn default() -> (r: Self)
        ensures
            all_default(r.entries_spec(), Self::kinds()),
    {
        Self::new()
    }
}


/// A kind is predefined unless it samples the system and `system` is unset.
proof fn lemma_predefined_contains(system: bool, k: EntryKind)
    requires
        system || (k != EntryKind::CpuUsage && k != EntryKind::MemUsage),
    ensures
        predefined_kinds(system).contains(k),
{
    let p = predefined_kinds(system);
    let off: int = if system { 8 } else { 6 };
    match k {
            EntryKind::Fps => assert(p[0] == k),
            EntryKind::FrameTime => assert(p[1] == k),
            EntryKind::FpsWorst => assert(p[2] == k),
            EntryKind::FrameTimeWorst => assert(p[3] == k),
            EntryKind::FrameCount => assert(p[4] == k),
            EntryKind::EntityCount => assert(p[5] == k),
            EntryKind::CpuUsage => assert(p[6] == k),
            EntryKind::MemUsage => assert(p[7] == k),
            EntryKind::Clock => assert(p[off + 0] == k),
            EntryKind::RunningTime => assert(p[off + 1] == k),
            EntryKind::FixedTimeStep => assert(p[off + 2] == k),
            EntryKind::FixedOverstep => assert(p[off + 3] == k),
            EntryKind::WindowResolution => assert(p[off + 4] == k),
            EntryKind::WindowScaleFactor => assert(p[off + 5] == k),
            EntryKind::WindowMode => assert(p[off + 6] == k),
            EntryKind::WindowPresentMode => assert(p[off + 7] == k),
            EntryKind::CursorPosition => assert(p[off + 8] == k),
    }
}

/// Where every predefined kind is registered, a display carrying the records
/// of the all-entries bundle renders each of them: fifteen lines, or
/// seventeen with the system-sampling records.
pub proof fn lemma_all_entries_rendered(reg: Seq<EntryKind>, b: PerfUiAllEntries, system: bool)
    requires
        all_default(b.entries_spec(), PerfUiAllEntries::kinds(system)),
        forall|k: EntryKind| #[trigger] predefined_kinds(system).contains(k) ==> reg.contains(k),
    ensures
        shown(reg, b.entries_spec()) == b.entries_spec(),
        shown(reg, b.entries_spec()).len() == if system { 17nat } else { 15nat },
{
    let es = b.entries_spec();
    let ks = PerfUiAllEntries::kinds(system);
    assert forall|i: int| 0 <= i < es.len() implies reg.contains(#[trigger] es[i].kind) by {
        assert(is_default_of(es[i], ks[i]));
        if !system {
            assert(ks[i] != EntryKind::CpuUsage && ks[i] != EntryKind::MemUsage);
        }
        lemma_predefined_contains(system, ks[i]);
    }
    lemma_shown_all(reg, es);
}

} // verus!
