use scene_bench::bench::{frames_per_phase, BenchmarkHarness, TickAction, Waypoint};

#[test]
fn phase_length_at_60_fps() {
    assert_eq!(frames_per_phase(16_666_666), 120);
}

#[test]
fn phase_length_floor_of_30() {
    assert_eq!(frames_per_phase(1_000_000_000), 30);
    assert_eq!(frames_per_phase(500_000_000), 30);
    assert_eq!(frames_per_phase(66_666_667), 30);
    assert_eq!(frames_per_phase(33_333_333), 60);
    assert_eq!(frames_per_phase(1), 2_000_000_000);
}

#[test]
fn run_at_30_fps_reports_once() {
    let mut h = BenchmarkHarness::new();
    assert_eq!(h.start(1_000, 33_333_333), Some(60));
    let mut reports = Vec::new();
    let mut moves = Vec::new();
    let mut now = 1_000u64;
    let mut tick_of_report = 0u32;
    for t in 1..=240u32 {
        now += 10_000_000;
        match h.tick(now, true) {
            TickAction::Report(r) => {
                reports.push(r);
                tick_of_report = t;
            }
            TickAction::MoveCamera(w) => moves.push((t, w)),
            _ => {}
        }
        if !h.is_running() {
            break;
        }
    }
    assert_eq!(reports.len(), 1);
    assert_eq!(tick_of_report, 181);
    let r = reports[0];
    assert_eq!(r.frames, 180);
    assert_eq!(r.elapsed_nanos, 181 * 10_000_000);
    assert_eq!(r.average_frame_nanos, 181 * 10_000_000 / 180);
    assert_eq!(
        moves,
        vec![(1, Waypoint::First), (61, Waypoint::Second), (121, Waypoint::Third)]
    );
    assert!(!h.is_running());
    assert_eq!(h.tick(now + 1, true), TickAction::Skip);
    assert_eq!(h.start(now + 2, 1_000_000_000), Some(30));
}

#[test]
fn start_ignored_mid_run() {
    let mut h = BenchmarkHarness::new();
    assert_eq!(h.start(0, 16_666_666), Some(120));
    assert_eq!(h.tick(5, true), TickAction::MoveCamera(Waypoint::First));
    let before = h;
    assert_eq!(h.start(10, 1_000_000_000), None);
    assert_eq!(h, before);
    assert_eq!(h.tick(15, true), TickAction::Hold);
}

#[test]
fn tick_without_camera_is_skipped() {
    let mut h = BenchmarkHarness::new();
    assert_eq!(h.tick(1, true), TickAction::Skip);
    h.start(0, 16_666_666);
    let before = h;
    assert_eq!(h.tick(5, false), TickAction::Skip);
    assert_eq!(h, before);
    assert_eq!(h.tick(6, true), TickAction::MoveCamera(Waypoint::First));
}

#[test]
fn clock_that_does_not_advance_gives_zero_elapsed() {
    let mut h = BenchmarkHarness::new();
    h.start(1_000, 1_000_000_000);
    for _ in 0..90 {
        assert_ne!(h.tick(2_000, true), TickAction::Skip);
    }
    match h.tick(500, true) {
        TickAction::Report(r) => {
            assert_eq!(r.frames, 90);
            assert_eq!(r.elapsed_nanos, 0);
            assert_eq!(r.average_frame_nanos, 0);
        }
        other => panic!("expected a report, got {:?}", other),
    }
}
