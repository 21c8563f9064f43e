//! Entry records: one per displayed metric, with its configuration, its last
//! reading, and the rules that turn them into a label, a text and a severity.

use vstd::prelude::*;
use vstd::string::StringExecFns;
use crate::text::{fixed_text, padded, push_fixed, push_padded, SCALE};

verus! {

/// The metrics an entry can show.
#[derive(Clone, Copy, Debug, PartialEq, Eq, Structural)]
pub enum EntryKind {
    Fps,
    FpsWorst,
    FrameTime,
    FrameTimeWorst,
    FrameCount,
    EntityCount,
    CpuUsage,
    MemUsage,
    Clock,
    RunningTime,
    FixedTimeStep,
    FixedOverstep,
    WindowResolution,
    WindowScaleFactor,
    WindowMode,
    WindowPresentMode,
    CursorPosition,
}

/// How a kind's reading is shaped and shown.
#[derive(Clone, Copy, Debug, PartialEq, Eq, Structural)]
pub enum Shape {
    /// One fixed-point number, shown with the entry's precision.
    Number,
    /// Time of day in millionths of a second since midnight, shown `HH:MM:SS`.
    TimeOfDay,
    /// Width and height, shown `WxH`.
    Size,
    /// Two coordinates, shown `X, Y`.
    Point,
    /// A name given by the source, shown as it is.
    Name,
}

/// How far a reading is past its entry's thresholds.
#[derive(Clone, Copy, Debug, PartialEq, Eq, Structural)]
pub enum Severity {
    Normal,
    Warning,
    Critical,
}

/// A value observed by an external source; numbers are in millionths.
#[derive(Clone, Debug)]
pub enum Reading {
    Scalar(i64),
    Pair(i64, i64),
    Name(String),
}

/// One displayed metric: its configuration and its last reading.
#[derive(Clone, Debug)]
pub struct PerfUiEntry {
    pub kind: EntryKind,
    pub label: String,
    /// Decimals shown (at most six are ever shown).
    pub precision: u8,
    /// `(warning, critical)` thresholds, in millionths.
    pub thresholds: Option<(i64, i64)>,
    /// `None` while the source has produced no value.
    pub reading: Option<Reading>,
}

/// A rendered line of a display.
#[derive(Clone, Debug)]
pub struct Row {
    pub label: String,
    pub value: String,
    pub severity: Severity,
}

pub open spec fn shape_of(k: EntryKind) -> Shape {
    match k {
        EntryKind::Clock => Shape::TimeOfDay,
        EntryKind::WindowResolution => Shape::Size,
        EntryKind::CursorPosition => Shape::Point,
        EntryKind::WindowMode | EntryKind::WindowPresentMode => Shape::Name,
        _ => Shape::Number,
    }
}

pub open spec fn default_label(k: EntryKind) -> Seq<char> {
    match k {
        EntryKind::Fps => "FPS"@,
        EntryKind::FpsWorst => "FPS (min)"@,
        EntryKind::FrameTime => "Frame Time"@,
        EntryKind::FrameTimeWorst => "Frame Time (max)"@,
        EntryKind::FrameCount => "Frame Count"@,
        EntryKind::EntityCount => "Entities"@,
        EntryKind::CpuUsage => "CPU Usage"@,
        EntryKind::MemUsage => "RAM Usage"@,
        EntryKind::Clock => "Clock"@,
        EntryKind::RunningTime => "Running Time"@,
        EntryKind::FixedTimeStep => "Fixed Timestep"@,
        EntryKind::FixedOverstep => "Fixed Overstep"@,
        EntryKind::WindowResolution => "Window Resolution"@,
        EntryKind::WindowScaleFactor => "Window Scale Factor"@,
        EntryKind::WindowMode => "Window Mode"@,
        EntryKind::WindowPresentMode => "Present Mode"@,
        EntryKind::CursorPosition => "Cursor Position"@,
    }
}

pub open spec fn default_precision(k: EntryKind) -> nat {
    match k {
        EntryKind::FrameTime | EntryKind::FrameTimeWorst | EntryKind::CpuUsage
        | EntryKind::MemUsage | EntryKind::FixedTimeStep | EntryKind::FixedOverstep
        | EntryKind::WindowScaleFactor => 2,
        EntryKind::RunningTime => 3,
        _ => 0,
    }
}

pub open spec fn default_thresholds(k: EntryKind) -> Option<(i64, i64)> {
    match k {
        EntryKind::Fps | EntryKind::FpsWorst => Some((60_000_000, 30_000_000)),
        EntryKind::FrameTime | EntryKind::FrameTimeWorst => Some((16_667_000, 33_334_000)),
        EntryKind::CpuUsage | EntryKind::MemUsage => Some((50_000_000, 75_000_000)),
        _ => None,
    }
}

/// `e` is the record that `PerfUiEntry::new(k)` builds.
pub open spec fn is_default_of(e: PerfUiEntry, k: EntryKind) -> bool {
    &&& e.kind == k
    &&& e.label@ == default_label(k)
    &&& e.precision as nat == default_precision(k)
    &&& e.thresholds == default_thresholds(k)
    &&& e.reading is None
}

/// Text shown where a value is missing or cannot be shown.
pub open spec fn placeholder() -> Seq<char> {
    "N/A"@
}

/// `HH:MM:SS` of a time of day given in millionths of a second.
pub open spec fn clock_text(v: nat) -> Seq<char> {
    let secs = v / (SCALE as nat);
    padded((secs / 3600) % 24, 2) + seq![':'] + padded((secs / 60) % 60, 2) + seq![':']
        + padded(secs % 60, 2)
}

/// What an entry shows for its reading.
pub open spec fn display_text(e: PerfUiEntry) -> Seq<char> {
    let p = e.precision as nat;
    match e.reading {
        None => placeholder(),
        Some(Reading::Scalar(v)) => match shape_of(e.kind) {
            Shape::Number => fixed_text(v as int, p),
            Shape::TimeOfDay => if v >= 0 { clock_text(v as nat) } else { placeholder() },
            _ => placeholder(),
        },
        Some(Reading::Pair(a, b)) => match shape_of(e.kind) {
            Shape::Size => fixed_text(a as int, p) + seq!['x'] + fixed_text(b as int, p),
            Shape::Point => fixed_text(a as int, p) + seq![',', ' '] + fixed_text(b as int, p),
            _ => placeholder(),
        },
        Some(Reading::Name(s)) => match shape_of(e.kind) {
            Shape::Name => s@,
            _ => placeholder(),
        },
    }
}

/// Severity of value `v` against thresholds `w` (warning) and `c` (critical).
/// With `w <= c` larger values are worse, otherwise smaller values are.
pub open spec fn classify_spec(v: int, w: int, c: int) -> Severity {
    if w <= c {
        if v < w {
            Severity::Normal
        } else if v < c {
            Severity::Warning
        } else {
            Severity::Critical
        }
    } else {
        if v > w {
            Severity::Normal
        } else if v > c {
            Severity::Warning
        } else {
            Severity::Critical
        }
    }
}

/// Severity of an entry: its number against its thresholds, `Normal` where it
/// has no thresholds or no number.
pub open spec fn severity_of(e: PerfUiEntry) -> Severity {
    match (e.thresholds, e.reading) {
        (Some((w, c)), Some(Reading::Scalar(v))) => if shape_of(e.kind) == Shape::Number {
            classify_spec(v as int, w as int, c as int)
        } else {
            Severity::Normal
        },
        _ => Severity::Normal,
    }
}

/// Severity of value `v` against thresholds `w` (warning) and `c` (critical).
pub fn classify(v: i64, w: i64, c: i64) -> (r: Severity)
    ensures
        r == classify_spec(v as int, w as int, c as int),
{
    if w <= c {
        if v < w {
            Severity::Normal
        } else if v < c {
            Severity::Warning
        } else {
            Severity::Critical
        }
    } else {
        if v > w {
            Severity::Normal
        } else if v > c {
            Severity::Warning
        } else {
            Severity::Critical
        }
    }
}

impl EntryKind {
    pub fn shape(&self) -> (r: Shape)
        ensures
            r == shape_of(*self),
    {
        match self {
            EntryKind::Clock => Shape::TimeOfDay,
            EntryKind::WindowResolution => Shape::Size,
            EntryKind::CursorPosition => Shape::Point,
            EntryKind::WindowMode | EntryKind::WindowPresentMode => Shape::Name,
            _ => Shape::Number,
        }
    }

    pub fn default_label(&self) -> (r: &'static str)
        ensures
            r@ == default_label(*self),
    {
        match self {
            EntryKind::Fps => "FPS",
            EntryKind::FpsWorst => "FPS (min)",
            EntryKind::FrameTime => "Frame Time",
            EntryKind::FrameTimeWorst => "Frame Time (max)",
            EntryKind::FrameCount => "Frame Count",
            EntryKind::EntityCount => "Entities",
            EntryKind::CpuUsage => "CPU Usage",
            EntryKind::MemUsage => "RAM Usage",
            EntryKind::Clock => "Clock",
            EntryKind::RunningTime => "Running Time",
            EntryKind::FixedTimeStep => "Fixed Timestep",
            EntryKind::FixedOverstep => "Fixed Overstep",
            EntryKind::WindowResolution => "Window Resolution",
            EntryKind::WindowScaleFactor => "Window Scale Factor",
            EntryKind::WindowMode => "Window Mode",
            EntryKind::WindowPresentMode => "Present Mode",
            EntryKind::CursorPosition => "Cursor Position",
        }
    }

    pub fn default_precision(&self) -> (r: u8)
        ensures
            r as nat == default_precision(*self),
    {
        match self {
            EntryKind::FrameTime | EntryKind::FrameTimeWorst | EntryKind::CpuUsage
            | EntryKind::MemUsage | EntryKind::FixedTimeStep | EntryKind::FixedOverstep
            | EntryKind::WindowScaleFactor => 2,
            EntryKind::RunningTime => 3,
            _ => 0,
        }
    }

    pub fn default_thresholds(&self) -> (r: Option<(i64, i64)>)
        ensures
            r == default_thresholds(*self),
    {
        match self {
            EntryKind::Fps | EntryKind::FpsWorst => Some((60_000_000, 30_000_000)),
            EntryKind::FrameTime | EntryKind::FrameTimeWorst => Some((16_667_000, 33_334_000)),
            EntryKind::CpuUsage | EntryKind::MemUsage => Some((50_000_000, 75_000_000)),
            _ => None,
        }
    }
}


/// Appends `clock_text(v)`.
fn push_clock(s: &mut String, v: u64)
    ensures
        final(s)@ == old(s)@ + clock_text(v as nat),
{
    let secs = v / SCALE;
    push_padded(s, (secs / 3600) % 24, 2);
    s.append(":");
    push_padded(s, (secs / 60) % 60, 2);
    s.append(":");
    push_padded(s, secs % 60, 2);
    proof {
        reveal_strlit(":");
        assert(final(s)@ =~= old(s)@ + clock_text(v as nat));
    }
}

impl PerfUiEntry {
    /// The record of kind `kind` with its default configuration and no reading.
    pub fn new(kind: EntryKind) -> (r: PerfUiEntry)
        ensures
            is_default_of(r, kind),
    {
        PerfUiEntry {
            kind,
            label: String::from_str(kind.default_label()),
            precision: kind.default_precision(),
            thresholds: kind.default_thresholds(),
            reading: None,
        }
    }

    /// One update cycle: stores what the source observed (`None` if nothing yet).
    pub fn update(&mut self, reading: Option<Reading>)
        ensures
            final(self).kind == old(self).kind,
            final(self).label == old(self).label,
            final(self).precision == old(self).precision,
            final(self).thresholds == old(self).thresholds,
            final(self).reading == reading,
    {
        self.reading = reading;
    }

    /// The text shown for the current reading.
    pub fn display(&self) -> (r: String)
        ensures
            r@ == display_text(*self),
    {
        proof {
            reveal_strlit("N/A");
            reveal_strlit("x");
            reveal_strlit(", ");
        }
        let p = self.precision;
        let mut s = String::new();
        match &self.reading {
            None => {
                s.append("N/A");
            },
            Some(Reading::Scalar(v)) => match self.kind.shape() {
                Shape::Number => {
                    push_fixed(&mut s, *v, p);
                },
                Shape::TimeOfDay => {
                    if *v >= 0 {
                        push_clock(&mut s, *v as u64);
                    } else {
                        s.append("N/A");
                    }
                },
                _ => {
                    s.append("N/A");
                },
            },
            Some(Reading::Pair(a, b)) => match self.kind.shape() {
                Shape::Size => {
                    push_fixed(&mut s, *a, p);
                    s.append("x");
                    push_fixed(&mut s, *b, p);
                },
                Shape::Point => {
                    push_fixed(&mut s, *a, p);
                    s.append(", ");
                    push_fixed(&mut s, *b, p);
                },
                _ => {
                    s.append("N/A");
                },
            },
            Some(Reading::Name(n)) => match self.kind.shape() {
                Shape::Name => {
                    s.append(n.as_str());
                },
                _ => {
                    s.append("N/A");
                },
            },
        }
        assert(s@ =~= display_text(*self));
        s
    }

    /// Severity of the current reading against the thresholds.
    pub fn severity(&self) -> (r: Severity)
        ensures
            r == severity_of(*self),
    {
        match (&self.thresholds, &self.reading) {
            (Some((w, c)), Some(Reading::Scalar(v))) => {
                if self.kind.shape() == Shape::Number {
                    classify(*v, *w, *c)
                } else {
                    Severity::Normal
                }
            },
            _ => Severity::Normal,
        }
    }

    /// The line this entry renders as.
    pub fn row(&self) -> (r: Row)
        ensures
            r.label@ == self.label@,
            r.value@ == display_text(*self),
            r.severity == severity_of(*self),
    {
        Row { label: self.label.clone(), value: self.display(), severity: self.severity() }
    }
}


/// A freshly built entry of any kind, after one update with a reading of the
/// kind's shape, shows that reading with the kind's default number of decimals.
pub proof fn lemma_fresh_entry_shows_reading(e: PerfUiEntry, k: EntryKind, r: Reading)
    requires
        is_default_of(e, k),
    ensures
        ({
            let u = PerfUiEntry { reading: Some(r), ..e };
            let p = default_precision(k);
            &&& (shape_of(k) == Shape::Number && r is Scalar) ==> display_text(u) == fixed_text(
                r->Scalar_0 as int,
                p,
            )
            &&& (shape_of(k) == Shape::TimeOfDay && r is Scalar && r->Scalar_0 >= 0)
                ==> display_text(u) == clock_text(r->Scalar_0 as nat)
            &&& (shape_of(k) == Shape::Size && r is Pair) ==> display_text(u) == fixed_text(
                r->Pair_0 as int,
                p,
            ) + seq!['x'] + fixed_text(r->Pair_1 as int, p)
            &&& (shape_of(k) == Shape::Point && r is Pair) ==> display_text(u) == fixed_text(
                r->Pair_0 as int,
                p,
            ) + seq![',', ' '] + fixed_text(r->Pair_1 as int, p)
            &&& (shape_of(k) == Shape::Name && r is Name) ==> display_text(u) == r->Name_0@
        }),
{
}

/// Whatever its kind and configuration, an entry whose source has produced no
/// value shows the placeholder.
pub proof fn lemma_missing_reading_shows_placeholder(e: PerfUiEntry)
    ensures
        display_text(PerfUiEntry { reading: None, ..e }) == placeholder(),
{
}

/// A frame time entry with warning threshold `w` below critical threshold `c`
/// is normal below `w`, a warning from `w` up to `c`, and critical from `c` on.
pub proof fn lemma_frame_time_severity(e: PerfUiEntry, w: i64, c: i64, v: i64)
    requires
        e.kind == EntryKind::FrameTime || e.kind == EntryKind::FrameTimeWorst,
        e.thresholds == Some((w, c)),
        w < c,
        e.reading == Some(Reading::Scalar(v)),
    ensures
        v < w ==> severity_of(e) == Severity::Normal,
        w <= v < c ==> severity_of(e) == Severity::Warning,
        c <= v ==> severity_of(e) == Severity::Critical,
{
}

} // verus!
