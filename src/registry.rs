//! The registry of entry kinds a display knows how to render, and the
//! rendering of the records attached to one display.

use vstd::prelude::*;
use crate::entry::{display_text, severity_of, EntryKind, PerfUiEntry, Row};

verus! {

/// The registry after `k` is registered into `s`: a kind is kept once.
pub open spec fn registered_after(s: Seq<EntryKind>, k: EntryKind) -> Seq<EntryKind> {
    if s.contains(k) {
        s
    } else {
        s.push(k)
    }
}

/// The records of `es`, in order, whose kind is registered in `reg`.
pub open spec fn shown(reg: Seq<EntryKind>, es: Seq<PerfUiEntry>) -> Seq<PerfUiEntry>
    decreases es.len(),
{
    if es.len() == 0 {
        Seq::empty()
    } else {
        let rest = shown(reg, es.drop_last());
        if reg.contains(es.last().kind) {
            rest.push(es.last())
        } else {
            rest
        }
    }
}

/// `row` is the rendered line of `e`.
pub open spec fn row_of(row: Row, e: PerfUiEntry) -> bool {
    &&& row.label@ == e.label@
    &&& row.value@ == display_text(e)
    &&& row.severity == severity_of(e)
}

/// `rows` are the rendered lines of `es`, one for one.
pub open spec fn rows_of(rows: Seq<Row>, es: Seq<PerfUiEntry>) -> bool {
    &&& rows.len() == es.len()
    &&& forall|i: int| 0 <= i < es.len() ==> row_of(#[trigger] rows[i], es[i])
}

/// The kinds that the library itself provides, in registration order; the two
/// system-sampling kinds only where `system` is set.
pub open spec fn predefined_kinds(system: bool) -> Seq<EntryKind> {
    let head = seq![
        EntryKind::Fps,
        EntryKind::FrameTime,
        EntryKind::FpsWorst,
        EntryKind::FrameTimeWorst,
        EntryKind::FrameCount,
        EntryKind::EntityCount,
    ];
    let sys = if system {
        seq![EntryKind::CpuUsage, EntryKind::MemUsage]
    } else {
        Seq::empty()
    };
    let tail = seq![
        EntryKind::Clock,
        EntryKind::RunningTime,
        EntryKind::FixedTimeStep,
        EntryKind::FixedOverstep,
        EntryKind::WindowResolution,
        EntryKind::WindowScaleFactor,
        EntryKind::WindowMode,
        EntryKind::WindowPresentMode,
        EntryKind::CursorPosition,
    ];
    head + sys + tail
}

/// The entry kinds known to a display, each once, in registration order.
pub struct PerfUiRegistry {
    kinds: Vec<EntryKind>,
}

impl View for PerfUiRegistry {
    type V = Seq<EntryKind>;

    closed spec fn view(&self) -> Seq<EntryKind> {
        self.kinds@
    }
}

impl PerfUiRegistry {
    /// No kind is listed twice.
    pub closed spec fn wf(&self) -> bool {
        self.kinds@.no_duplicates()
    }

    pub fn new() -> (r: PerfUiRegistry)
        ensures
            r.wf(),
            r@ == Seq::<EntryKind>::empty(),
    {
        PerfUiRegistry { kinds: Vec::new() }
    }

    pub fn is_registered(&self, k: EntryKind) -> (r: bool)
        ensures
            r == self@.contains(k),
    {
        let mut i: usize = 0;
        while i < self.kinds.len()
            invariant
                i <= self.kinds@.len(),
                forall|j: int| 0 <= j < i ==> self.kinds@[j] != k,
            decreases self.kinds@.len() - i,
        {
            if self.kinds[i] == k {
                return true;
            }
            i = i + 1;
        }
        false
    }

    /// Registers kind `k`; registering a kind already known changes nothing.
    pub fn register(&mut self, k: EntryKind)
        requires
            old(self).wf(),
        ensures
            final(self).wf(),
            final(self)@ == registered_after(old(self)@, k),
    {
        if !self.is_registered(k) {
            self.kinds.push(k);
        }
    }

    /// The lines of a display carrying records `entries`: one per record whose
    /// kind is registered, in the records' order.
    pub fn render(&self, entries: &Vec<PerfUiEntry>) -> (r: Vec<Row>)
        ensures
            rows_of(r@, shown(self@, entries@)),
    {
        let mut rows: Vec<Row> = Vec::new();
        let mut i: usize = 0;
        while i < entries.len()
            invariant
                i <= entries@.len(),
                rows_of(rows@, shown(self@, entries@.take(i as int))),
            decreases entries@.len() - i,
        {
            let e = &entries[i];
            let ghost ts = entries@.take(i as int + 1);
            assert(ts.drop_last() =~= entries@.take(i as int));
            assert(ts.last() == *e);
            let ghost rest = shown(self@, entries@.take(i as int));
            assert(shown(self@, ts) == if self@.contains(e.kind) {
                rest.push(*e)
            } else {
                rest
            });
            let ghost prev = rows@;
            if self.is_registered(e.kind) {
                rows.push(e.row());
                let ghost es = rest.push(*e);
                assert forall|j: int| 0 <= j < es.len() implies row_of(#[trigger] rows@[j], es[j]) by {
                    if j < prev.len() {
                        assert(rows@[j] == prev[j]);
                        assert(row_of(prev[j], rest[j]));
                    }
                }
            }
            i = i + 1;
        }
        assert(entries@.take(entries@.len() as int) =~= entries@);
        rows
    }
}

proof fn lemma_push_contains(s: Seq<EntryKind>, x: EntryKind, q: EntryKind)
    ensures
        s.push(x).contains(q) <==> (s.contains(q) || q == x),
{
    if s.contains(q) {
        let j = choose|j: int| 0 <= j < s.len() && s[j] == q;
        assert(s.push(x)[j] == q);
    }
    if q == x {
        assert(s.push(x)[s.len() as int] == q);
    }
    if s.push(x).contains(q) && q != x {
        let j = choose|j: int| 0 <= j < s.len() + 1 && s.push(x)[j] == q;
        assert(s[j] == q);
    }
}

/// Registers into `registry` every kind that the library provides (the two
/// system-sampling kinds only where `system` is set).
pub fn predefined_entries_plugin(registry: &mut PerfUiRegistry, system: bool)
    requires
        old(registry).wf(),
    ensures
        final(registry).wf(),
        forall|k: EntryKind|
            #[trigger] final(registry)@.contains(k) <==> (old(registry)@.contains(k)
                || predefined_kinds(system).contains(k)),
{
    let mut kinds: Vec<EntryKind> = vec![
        EntryKind::Fps,
        EntryKind::FrameTime,
        EntryKind::FpsWorst,
        EntryKind::FrameTimeWorst,
        EntryKind::FrameCount,
        EntryKind::EntityCount,
    ];
    if system {
        kinds.push(EntryKind::CpuUsage);
        kinds.push(EntryKind::MemUsage);
    }
    kinds.push(EntryKind::Clock);
    kinds.push(EntryKind::RunningTime);
    kinds.push(EntryKind::FixedTimeStep);
    kinds.push(EntryKind::FixedOverstep);
    kinds.push(EntryKind::WindowResolution);
    kinds.push(EntryKind::WindowScaleFactor);
    kinds.push(EntryKind::WindowMode);
    kinds.push(EntryKind::WindowPresentMode);
    kinds.push(EntryKind::CursorPosition);
    assert(kinds@ =~= predefined_kinds(system));
    let ghost start = registry@;
    let mut i: usize = 0;
    while i < kinds.len()
        invariant
            i <= kinds@.len(),
            kinds@ == predefined_kinds(system),
            registry.wf(),
            forall|k: EntryKind|
                #[trigger] registry@.contains(k) <==> (start.contains(k) || kinds@.take(
                    i as int,
                ).contains(k)),
        decreases kinds@.len() - i,
    {
        let k = kinds[i];
        let ghost before = registry@;
        registry.register(k);
        proof {
            let done = kinds@.take(i as int);
            assert(kinds@.take(i as int + 1) =~= done.push(k));
            assert forall|q: EntryKind|
                #[trigger] registry@.contains(q) <==> (start.contains(q) || kinds@.take(
                    i as int + 1,
                ).contains(q)) by {
                lemma_push_contains(done, k, q);
                lemma_push_contains(before, k, q);
            }
        }
        i = i + 1;
    }
    assert(kinds@.take(kinds@.len() as int) =~= kinds@);
}


/// A display whose records are all of registered kinds renders every record,
/// in order.
pub proof fn lemma_shown_all(reg: Seq<EntryKind>, es: Seq<PerfUiEntry>)
    requires
        forall|i: int| 0 <= i < es.len() ==> reg.contains(#[trigger] es[i].kind),
    ensures
        shown(reg, es) == es,
    decreases es.len(),
{
    if es.len() > 0 {
        let init = es.drop_last();
        assert forall|i: int| 0 <= i < init.len() implies reg.contains(#[trigger] init[i].kind) by {
            assert(init[i] == es[i]);
        }
        lemma_shown_all(reg, init);
        assert(es.last() == es[es.len() - 1]);
        assert(init.push(es.last()) =~= es);
    }
}

/// Registering the same kind twice leaves the registry, and so every display,
/// as registering it once does: no record is rendered twice.
pub proof fn lemma_register_twice(s: Seq<EntryKind>, k: EntryKind, es: Seq<PerfUiEntry>)
    ensures
        registered_after(registered_after(s, k), k) == registered_after(s, k),
        shown(registered_after(registered_after(s, k), k), es) == shown(
            registered_after(s, k),
            es,
        ),
{
    assert(registered_after(s, k).contains(k)) by {
        if !s.contains(k) {
            assert(s.push(k)[s.len() as int] == k);
        }
    }
}

} // verus!
