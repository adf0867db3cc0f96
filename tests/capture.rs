use posture_sense::capture::{
    cadence_sleep_ms, CameraDirective, CaptureController, CaptureState, StartDirective, TARGET_PERIOD_MS,
};

fn state(camera_open: bool, tracking: bool, loop_running: bool) -> CaptureState {
    CaptureState { camera_open, tracking, loop_running }
}

#[test]
fn new_controller_is_idle() {
    let c = CaptureController::new();
    assert_eq!(c.state(), state(false, false, false));
    assert_eq!(c.init_camera(), CameraDirective::OpenDevice);
}

#[test]
fn init_camera_twice_is_already_active() {
    let mut c = CaptureController::new();
    assert_eq!(c.init_camera(), CameraDirective::OpenDevice);
    c.camera_opened();
    assert_eq!(c.init_camera(), CameraDirective::AlreadyActive);
    assert_eq!(c.state(), state(true, false, false));
}

#[test]
fn start_from_idle_opens_camera_implicitly() {
    let mut c = CaptureController::new();
    assert_eq!(c.start_tracking(), StartDirective::OpenDevice);
    c.camera_opened();
    assert_eq!(c.start_tracking(), StartDirective::SpawnLoop);
    assert_eq!(c.state(), state(true, true, true));
    assert_eq!(c.start_tracking(), StartDirective::AlreadyTracking);
}

#[test]
fn kill_releases_camera_and_allows_restart() {
    let mut c = CaptureController::new();
    c.camera_opened();
    assert_eq!(c.start_tracking(), StartDirective::SpawnLoop);
    assert!(c.kill_camera());
    assert_eq!(c.state(), state(false, false, true));
    assert!(!c.loop_should_continue());
    assert_eq!(c.state(), state(false, false, false));
    assert_eq!(c.start_tracking(), StartDirective::OpenDevice);
    c.camera_opened();
    assert_eq!(c.start_tracking(), StartDirective::SpawnLoop);
    assert!(c.is_tracking());
}

#[test]
fn kill_with_nothing_held_reports_false() {
    let mut c = CaptureController::new();
    assert!(!c.kill_camera());
    assert!(!c.kill_camera());
    assert_eq!(c.state(), state(false, false, false));
}

#[test]
fn stop_then_start_resumes_without_reopening() {
    let mut c = CaptureController::new();
    c.camera_opened();
    assert_eq!(c.start_tracking(), StartDirective::SpawnLoop);
    c.stop_tracking();
    assert!(c.camera_open());
    assert_eq!(c.start_tracking(), StartDirective::Resume);
    assert!(c.loop_should_continue());
    c.stop_tracking();
    assert!(!c.loop_should_continue());
    assert_eq!(c.state(), state(true, false, false));
    assert_eq!(c.start_tracking(), StartDirective::SpawnLoop);
}

#[test]
fn kill_during_loop_iteration_leaves_slot_empty() {
    let mut c = CaptureController::new();
    c.camera_opened();
    c.start_tracking();
    assert!(c.loop_should_continue());
    assert!(c.kill_camera());
    assert!(!c.loop_should_continue());
    assert!(!c.camera_open());
    assert!(!c.kill_camera());
}

#[test]
fn cadence_sleeps_for_rest_of_period() {
    assert_eq!(TARGET_PERIOD_MS, 66);
    assert_eq!(cadence_sleep_ms(0), 66);
    assert_eq!(cadence_sleep_ms(20), 46);
    assert_eq!(cadence_sleep_ms(66), 0);
    assert_eq!(cadence_sleep_ms(500), 0);
}
