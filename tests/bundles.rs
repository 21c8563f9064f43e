use perf_ui::bundles::{
    PerfUiAllEntries, PerfUiDefaultEntries, PerfUiFixedTimeEntries, PerfUiFramerateEntries,
    PerfUiSystemEntries, PerfUiWindowEntries,
};
use perf_ui::entry::{EntryKind, PerfUiEntry};
use perf_ui::registry::{predefined_entries_plugin, PerfUiRegistry};

fn kinds(es: &[PerfUiEntry]) -> Vec<EntryKind> {
    es.iter().map(|e| e.kind).collect()
}

fn assert_fresh(es: &[PerfUiEntry]) {
    for e in es {
        let d = PerfUiEntry::new(e.kind);
        assert_eq!(e.label, d.label);
        assert_eq!(e.precision, d.precision);
        assert_eq!(e.thresholds, d.thresholds);
        assert!(e.reading.is_none());
    }
}

#[test]
fn framerate_bundle_is_fixed_set() {
    let es = PerfUiFramerateEntries::default().into_entries();
    assert_eq!(
        kinds(&es),
        vec![EntryKind::Fps, EntryKind::FpsWorst, EntryKind::FrameTime, EntryKind::FrameTimeWorst]
    );
    assert_fresh(&es);
}

#[test]
fn default_bundle_is_fixed_set() {
    let es = PerfUiDefaultEntries::new().into_entries();
    assert_eq!(
        kinds(&es),
        vec![
            EntryKind::Fps,
            EntryKind::FpsWorst,
            EntryKind::FrameTime,
            EntryKind::FrameTimeWorst,
            EntryKind::EntityCount,
            EntryKind::CursorPosition,
            EntryKind::WindowResolution,
        ]
    );
    assert_fresh(&es);
}

#[test]
fn small_bundles_are_fixed_sets() {
    let es = PerfUiSystemEntries::default().into_entries();
    assert_eq!(kinds(&es), vec![EntryKind::CpuUsage, EntryKind::MemUsage]);
    assert_fresh(&es);
    let es = PerfUiFixedTimeEntries::default().into_entries();
    assert_eq!(kinds(&es), vec![EntryKind::FixedTimeStep, EntryKind::FixedOverstep]);
    assert_fresh(&es);
    let es = PerfUiWindowEntries::default().into_entries();
    assert_eq!(
        kinds(&es),
        vec![
            EntryKind::CursorPosition,
            EntryKind::WindowResolution,
            EntryKind::WindowScaleFactor,
            EntryKind::WindowMode,
            EntryKind::WindowPresentMode,
        ]
    );
    assert_fresh(&es);
}

#[test]
fn all_entries_counts() {
    let es = PerfUiAllEntries::default().into_entries();
    assert_eq!(es.len(), 15);
    assert!(!kinds(&es).contains(&EntryKind::CpuUsage));
    assert_fresh(&es);
    let es = PerfUiAllEntries::new(true).into_entries();
    assert_eq!(es.len(), 17);
    assert_eq!(es[6].kind, EntryKind::CpuUsage);
    assert_eq!(es[7].kind, EntryKind::MemUsage);
    assert_fresh(&es);
}

#[test]
fn registering_twice_renders_once() {
    let mut once = PerfUiRegistry::new();
    once.register(EntryKind::Fps);
    let mut twice = PerfUiRegistry::new();
    twice.register(EntryKind::Fps);
    twice.register(EntryKind::Fps);
    let es = PerfUiFramerateEntries::new().into_entries();
    let a = once.render(&es);
    let b = twice.render(&es);
    assert_eq!(a.len(), 1);
    assert_eq!(b.len(), 1);
    assert_eq!(a[0].label, b[0].label);
    assert_eq!(b[0].label, "FPS");
    assert_eq!(b[0].value, "N/A");
}

#[test]
fn unregistered_kinds_are_not_rendered() {
    let reg = PerfUiRegistry::new();
    assert!(!reg.is_registered(EntryKind::Clock));
    let es = PerfUiAllEntries::default().into_entries();
    assert_eq!(reg.render(&es).len(), 0);
}

#[test]
fn all_entries_render_fully() {
    let mut reg = PerfUiRegistry::new();
    predefined_entries_plugin(&mut reg, false);
    assert!(reg.is_registered(EntryKind::CursorPosition));
    assert!(!reg.is_registered(EntryKind::CpuUsage));
    let rows = reg.render(&PerfUiAllEntries::default().into_entries());
    assert_eq!(rows.len(), 15);
    assert_eq!(rows[0].label, "FPS");
    assert_eq!(rows[14].label, "Present Mode");

    let mut reg = PerfUiRegistry::new();
    predefined_entries_plugin(&mut reg, true);
    predefined_entries_plugin(&mut reg, true);
    assert!(reg.is_registered(EntryKind::MemUsage));
    let rows = reg.render(&PerfUiAllEntries::new(true).into_entries());
    assert_eq!(rows.len(), 17);
}

#[test]
fn render_keeps_record_order_and_values() {
    let mut reg = PerfUiRegistry::new();
    predefined_entries_plugin(&mut reg, false);
    let mut ft = PerfUiEntry::new(EntryKind::FrameTime);
    ft.update(Some(perf_ui::entry::Reading::Scalar(20_000_000)));
    let es = vec![PerfUiEntry::new(EntryKind::CpuUsage), ft, PerfUiEntry::new(EntryKind::Clock)];
    let rows = reg.render(&es);
    assert_eq!(rows.len(), 2);
    assert_eq!(rows[0].value, "20.00");
    assert_eq!(rows[0].severity, perf_ui::entry::Severity::Warning);
    assert_eq!(rows[1].label, "Clock");
}
