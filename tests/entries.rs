use perf_ui::entry::{classify, EntryKind, PerfUiEntry, Reading, Severity};
use perf_ui::text::fixed_string;

const ALL_KINDS: [EntryKind; 17] = [
    EntryKind::Fps,
    EntryKind::FpsWorst,
    EntryKind::FrameTime,
    EntryKind::FrameTimeWorst,
    EntryKind::FrameCount,
    EntryKind::EntityCount,
    EntryKind::CpuUsage,
    EntryKind::MemUsage,
    EntryKind::Clock,
    EntryKind::RunningTime,
    EntryKind::FixedTimeStep,
    EntryKind::FixedOverstep,
    EntryKind::WindowResolution,
    EntryKind::WindowScaleFactor,
    EntryKind::WindowMode,
    EntryKind::WindowPresentMode,
    EntryKind::CursorPosition,
];

fn updated(kind: EntryKind, reading: Reading) -> PerfUiEntry {
    let mut e = PerfUiEntry::new(kind);
    e.update(Some(reading));
    e
}

#[test]
fn frame_time_shows_configured_precision() {
    let e = updated(EntryKind::FrameTime, Reading::Scalar(16_667_000));
    assert_eq!(e.precision, 2);
    assert_eq!(e.display(), "16.67");
}

#[test]
fn fps_shows_whole_number() {
    let e = updated(EntryKind::Fps, Reading::Scalar(59_600_000));
    assert_eq!(e.display(), "60");
}

#[test]
fn running_time_three_decimals() {
    let e = updated(EntryKind::RunningTime, Reading::Scalar(12_345_678));
    assert_eq!(e.display(), "12.346");
}

#[test]
fn fixed_text_rounds_half_away_from_zero() {
    assert_eq!(fixed_string(2_500_000, 0), "3");
    assert_eq!(fixed_string(-2_500_000, 0), "-3");
    assert_eq!(fixed_string(1_005_000, 2), "1.01");
    assert_eq!(fixed_string(1_004_999, 2), "1.00");
}

#[test]
fn fixed_text_carries_into_whole_part() {
    assert_eq!(fixed_string(999_999_600, 3), "1000.000");
    assert_eq!(fixed_string(9_999_999, 0), "10");
}

#[test]
fn fixed_text_small_negative_has_no_sign() {
    assert_eq!(fixed_string(-4_000, 2), "0.00");
    assert_eq!(fixed_string(-6_000, 2), "-0.01");
    assert_eq!(fixed_string(0, 0), "0");
}

#[test]
fn fixed_text_pads_decimals() {
    assert_eq!(fixed_string(3_050_000, 3), "3.050");
    assert_eq!(fixed_string(7, 6), "0.000007");
}

#[test]
fn fixed_text_caps_precision_at_six() {
    assert_eq!(fixed_string(1_234_567, 9), "1.234567");
}

#[test]
fn fixed_text_extremes() {
    assert_eq!(fixed_string(i64::MAX, 0), "9223372036855");
    assert_eq!(fixed_string(i64::MIN, 6), "-9223372036854.775808");
}

#[test]
fn missing_value_shows_placeholder_for_every_kind() {
    for kind in ALL_KINDS {
        let mut e = PerfUiEntry::new(kind);
        assert_eq!(e.display(), "N/A");
        e.update(Some(Reading::Scalar(1_000_000)));
        e.update(None);
        assert_eq!(e.display(), "N/A");
    }
}

#[test]
fn clock_shows_time_of_day() {
    let e = updated(EntryKind::Clock, Reading::Scalar(3_661_500_000));
    assert_eq!(e.display(), "01:01:01");
    let e = updated(EntryKind::Clock, Reading::Scalar(86_399_000_000));
    assert_eq!(e.display(), "23:59:59");
    let e = updated(EntryKind::Clock, Reading::Scalar(-1));
    assert_eq!(e.display(), "N/A");
}

#[test]
fn window_resolution_and_cursor() {
    let e = updated(EntryKind::WindowResolution, Reading::Pair(1_920_000_000, 1_080_000_000));
    assert_eq!(e.display(), "1920x1080");
    let e = updated(EntryKind::CursorPosition, Reading::Pair(12_500_000, 7_000_000));
    assert_eq!(e.display(), "13, 7");
    let e = updated(EntryKind::WindowScaleFactor, Reading::Scalar(1_250_000));
    assert_eq!(e.display(), "1.25");
}

#[test]
fn window_mode_shows_name() {
    let e = updated(EntryKind::WindowMode, Reading::Name("Windowed".to_string()));
    assert_eq!(e.display(), "Windowed");
    let e = updated(EntryKind::WindowPresentMode, Reading::Name("AutoVsync".to_string()));
    assert_eq!(e.display(), "AutoVsync");
}

#[test]
fn mismatched_reading_shows_placeholder() {
    let e = updated(EntryKind::Fps, Reading::Name("fast".to_string()));
    assert_eq!(e.display(), "N/A");
    let e = updated(EntryKind::WindowMode, Reading::Scalar(1));
    assert_eq!(e.display(), "N/A");
    let e = updated(EntryKind::CursorPosition, Reading::Scalar(1));
    assert_eq!(e.display(), "N/A");
}

#[test]
fn default_configuration() {
    let e = PerfUiEntry::new(EntryKind::FrameTimeWorst);
    assert_eq!(e.kind, EntryKind::FrameTimeWorst);
    assert_eq!(e.label, "Frame Time (max)");
    assert_eq!(e.precision, 2);
    assert_eq!(e.thresholds, Some((16_667_000, 33_334_000)));
    assert!(e.reading.is_none());
    assert_eq!(PerfUiEntry::new(EntryKind::Fps).label, "FPS");
    assert_eq!(PerfUiEntry::new(EntryKind::Clock).thresholds, None);
}

#[test]
fn frame_time_severity_bands() {
    let sev = |v: i64| updated(EntryKind::FrameTime, Reading::Scalar(v)).severity();
    assert_eq!(sev(16_666_999), Severity::Normal);
    assert_eq!(sev(16_667_000), Severity::Warning);
    assert_eq!(sev(33_333_999), Severity::Warning);
    assert_eq!(sev(33_334_000), Severity::Critical);
    assert_eq!(sev(100_000_000), Severity::Critical);
}

#[test]
fn fps_severity_lower_is_worse() {
    let sev = |v: i64| updated(EntryKind::Fps, Reading::Scalar(v)).severity();
    assert_eq!(sev(120_000_000), Severity::Normal);
    assert_eq!(sev(60_000_000), Severity::Warning);
    assert_eq!(sev(45_000_000), Severity::Warning);
    assert_eq!(sev(30_000_000), Severity::Critical);
}

#[test]
fn severity_without_thresholds_or_value_is_normal() {
    assert_eq!(PerfUiEntry::new(EntryKind::FrameTime).severity(), Severity::Normal);
    let e = updated(EntryKind::FrameCount, Reading::Scalar(i64::MAX));
    assert_eq!(e.severity(), Severity::Normal);
}

#[test]
fn classify_bands() {
    assert_eq!(classify(9, 10, 20), Severity::Normal);
    assert_eq!(classify(10, 10, 20), Severity::Warning);
    assert_eq!(classify(19, 10, 20), Severity::Warning);
    assert_eq!(classify(20, 10, 20), Severity::Critical);
    assert_eq!(classify(5, 10, 10), Severity::Normal);
    assert_eq!(classify(10, 10, 10), Severity::Critical);
    assert_eq!(classify(21, 20, 10), Severity::Normal);
    assert_eq!(classify(20, 20, 10), Severity::Warning);
    assert_eq!(classify(10, 20, 10), Severity::Critical);
}

#[test]
fn row_carries_label_value_and_severity() {
    let e = updated(EntryKind::FrameTime, Reading::Scalar(40_000_000));
    let r = e.row();
    assert_eq!(r.label, "Frame Time");
    assert_eq!(r.value, "40.00");
    assert_eq!(r.severity, Severity::Critical);
}
