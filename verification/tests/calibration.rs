use joy::calibration::{CalibrationStep, CalibrationTracker, WindowState};

#[test]
fn calibration_keeps_longest_rest() {
    let mut t = CalibrationTracker::new();
    assert_eq!(t.push(false, 0, 100), CalibrationStep::Nothing);
    assert_eq!(t.push(true, 10, 100), CalibrationStep::Start);
    assert_eq!(t.push(true, 20, 100), CalibrationStep::Add { finished: false });
    assert_eq!(t.push(true, 30, 100), CalibrationStep::Add { finished: false });
    assert_eq!(t.push(false, 40, 100), CalibrationStep::Keep);
    assert_eq!(t.last_count, 2);
    assert_eq!(t.push(true, 50, 100), CalibrationStep::Start);
    assert_eq!(t.push(true, 60, 100), CalibrationStep::Add { finished: false });
    assert_eq!(t.push(false, 70, 100), CalibrationStep::Drop);
    assert_eq!(t.last_count, 2);
    assert_eq!(t.total_nb_samples, 8);
    assert_eq!(t.state, WindowState::Moving);
    assert_eq!(t.finish(), (false, 2));
}

#[test]
fn calibration_finishes_after_limit() {
    let mut t = CalibrationTracker::new();
    t.push(true, 1000, 500);
    assert_eq!(t.push(true, 1400, 500), CalibrationStep::Add { finished: false });
    assert_eq!(t.push(true, 1500, 500), CalibrationStep::Add { finished: true });
    assert_eq!(t.state, WindowState::Static { count: 2, start: 1000 });
    assert_eq!(t.finish(), (true, 2));
}

#[test]
fn calibration_clock_going_back() {
    let mut t = CalibrationTracker::new();
    t.push(true, 1000, 0);
    assert_eq!(t.push(true, 900, 0), CalibrationStep::Add { finished: true });
    let mut u = CalibrationTracker::new();
    u.push(true, 1000, 10);
    assert_eq!(u.push(true, 900, 10), CalibrationStep::Add { finished: false });
}
