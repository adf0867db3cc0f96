//! The capture controller's lifecycle: which camera and sampling-loop actions
//! each command calls for, and how the controller's state moves.
//!
//! The controller holds no device itself. Its owner keeps the camera handle
//! and the sampling loop, performs the action that each call names, and
//! reports back when a device has been opened. The sampling loop asks
//! `loop_should_continue` at the top of every iteration.
use vstd::prelude::*;

verus! {

/// Target period of one sampling-loop iteration, in milliseconds (about 15 Hz).
pub const TARGET_PERIOD_MS: u64 = 66;

/// The controller's state: whether a camera handle is held, whether tracking
/// is wanted, and whether a sampling loop is alive.
#[derive(Debug, Clone, Copy, PartialEq, Eq, Structural)]
pub struct CaptureState {
    pub camera_open: bool,
    pub tracking: bool,
    pub loop_running: bool,
}

/// What `init_camera` asks of the owner.
#[derive(Debug, Clone, Copy, PartialEq, Eq, Structural)]
pub enum CameraDirective {
    /// A camera handle is already held; nothing to do.
    AlreadyActive,
    /// Open device 0, then report it with `camera_opened`.
    OpenDevice,
}

/// What `start_tracking` asks of the owner.
#[derive(Debug, Clone, Copy, PartialEq, Eq, Structural)]
pub enum StartDirective {
    /// Tracking is already on; nothing to do.
    AlreadyTracking,
    /// No camera handle is held: open device 0, report it with
    /// `camera_opened`, and call `start_tracking` again.
    OpenDevice,
    /// Tracking is on; spawn the one sampling loop.
    SpawnLoop,
    /// Tracking is on again; the sampling loop is still alive and carries on.
    Resume,
}

impl CaptureState {
    /// No camera, no tracking, no loop.
    pub open spec fn idle() -> CaptureState {
        CaptureState { camera_open: false, tracking: false, loop_running: false }
    }

    /// Tracking needs a camera handle and a live sampling loop.
    pub open spec fn wf(self) -> bool {
        self.tracking ==> self.camera_open && self.loop_running
    }

    /// The directive of `init_camera`.
    pub open spec fn init_directive(self) -> CameraDirective {
        if self.camera_open {
            CameraDirective::AlreadyActive
        } else {
            CameraDirective::OpenDevice
        }
    }

    /// The state once a camera handle is held.
    pub open spec fn with_camera(self) -> CaptureState {
        CaptureState { camera_open: true, ..self }
    }

    /// The state and directive after `start_tracking`.
    pub open spec fn start(self) -> (CaptureState, StartDirective) {
        if self.tracking {
            (self, StartDirective::AlreadyTracking)
        } else if !self.camera_open {
            (self, StartDirective::OpenDevice)
        } else if self.loop_running {
            (CaptureState { tracking: true, ..self }, StartDirective::Resume)
        } else {
            (CaptureState { tracking: true, loop_running: true, ..self }, StartDirective::SpawnLoop)
        }
    }

    /// The state after `stop_tracking`: the flag is cleared, the camera kept.
    pub open spec fn stop(self) -> CaptureState {
        CaptureState { tracking: false, ..self }
    }

    /// The state after `kill_camera`, and whether a handle was released.
    pub open spec fn kill(self) -> (CaptureState, bool) {
        (CaptureState { camera_open: false, tracking: false, ..self }, self.camera_open)
    }

    /// The state after the sampling loop's check, and whether it goes on.
    pub open spec fn loop_check(self) -> (CaptureState, bool) {
        if self.tracking {
            (self, true)
        } else {
            (CaptureState { loop_running: false, ..self }, false)
        }
    }
}

/// The capture lifecycle: `Idle` (no camera), `CameraOpen` (camera, no
/// tracking) and `Tracking` (camera, tracking, loop alive).
pub struct CaptureController {
    state: CaptureState,
}

impl View for CaptureController {
    type V = CaptureState;

    closed spec fn view(&self) -> CaptureState {
        self.state
    }
}

impl CaptureController {
    /// A controller in `Idle`.
    pub fn new() -> (c: Self)
        ensures
            c@ == CaptureState::idle(),
    {
        CaptureController { state: CaptureState { camera_open: false, tracking: false, loop_running: false } }
    }

    /// The current state.
    pub fn state(&self) -> (s: CaptureState)
        ensures
            s == self@,
    {
        self.state
    }

    /// Whether a camera handle is held.
    pub fn camera_open(&self) -> (r: bool)
        ensures
            r == self@.camera_open,
    {
        self.state.camera_open
    }

    /// Whether tracking is on.
    pub fn is_tracking(&self) -> (r: bool)
        ensures
            r == self@.tracking,
    {
        self.state.tracking
    }

    /// Asks for a camera: nothing to do when a handle is held, otherwise
    /// open one. The state changes only once the owner reports the open.
    pub fn init_camera(&self) -> (d: CameraDirective)
        ensures
            d == self@.init_directive(),
    {
        if self.state.camera_open {
            CameraDirective::AlreadyActive
        } else {
            CameraDirective::OpenDevice
        }
    }

    /// Records that the owner now holds a camera handle.
    pub fn camera_opened(&mut self)
        requires
            old(self)@.wf(),
        ensures
            final(self)@ == old(self)@.with_camera(),
            final(self)@.wf(),
    {
        self.state.camera_open = true;
    }

    /// Turns tracking on, opening the camera first if no handle is held, and
    /// spawning a sampling loop only if none is alive.
    pub fn start_tracking(&mut self) -> (d: StartDirective)
        requires
            old(self)@.wf(),
        ensures
            (final(self)@, d) == old(self)@.start(),
            final(self)@.wf(),
    {
        if self.state.tracking {
            StartDirective::AlreadyTracking
        } else if !self.state.camera_open {
            StartDirective::OpenDevice
        } else if self.state.loop_running {
            self.state.tracking = true;
            StartDirective::Resume
        } else {
            self.state.tracking = true;
            self.state.loop_running = true;
            StartDirective::SpawnLoop
        }
    }

    /// Clears the tracking flag; the camera handle is kept.
    pub fn stop_tracking(&mut self)
        requires
            old(self)@.wf(),
        ensures
            final(self)@ == old(self)@.stop(),
            final(self)@.wf(),
    {
        self.state.tracking = false;
    }

    /// The kill switch: clears the tracking flag and gives up the camera
    /// handle, from any state. Returns whether a handle was held, which the
    /// owner then closes and drops.
    pub fn kill_camera(&mut self) -> (released: bool)
        requires
            old(self)@.wf(),
        ensures
            (final(self)@, released) == old(self)@.kill(),
            final(self)@.wf(),
    {
        let released = self.state.camera_open;
        self.state.camera_open = false;
        self.state.tracking = false;
        released
    }

    /// The sampling loop's check at the top of each iteration: go on while
    /// tracking is on; otherwise the loop ends and is recorded as gone.
    pub fn loop_should_continue(&mut self) -> (go_on: bool)
        requires
            old(self)@.wf(),
        ensures
            (final(self)@, go_on) == old(self)@.loop_check(),
            final(self)@.wf(),
    {
        if self.state.tracking {
            true
        } else {
            self.state.loop_running = false;
            false
        }
    }
}

/// How long the sampling loop sleeps after an iteration that took
/// `elapsed_ms`: the rest of the target period, or nothing.
pub fn cadence_sleep_ms(elapsed_ms: u64) -> (sleep_ms: u64)
    ensures
        sleep_ms == if elapsed_ms < TARGET_PERIOD_MS { TARGET_PERIOD_MS - elapsed_ms } else { 0 },
{
    if elapsed_ms < TARGET_PERIOD_MS {
        TARGET_PERIOD_MS - elapsed_ms
    } else {
        0
    }
}

/// Starting from `Idle` opens the camera implicitly: the first call asks for
/// the device, and once it is open the second call turns tracking on and
/// spawns the loop.
pub proof fn lemma_start_from_idle()
    ensures
        CaptureState::idle().start() == (CaptureState::idle(), StartDirective::OpenDevice),
        CaptureState::idle().with_camera().start() == (
            CaptureState { camera_open: true, tracking: true, loop_running: true },
            StartDirective::SpawnLoop,
        ),
{
}

/// After the kill switch, from any state, no camera handle is held, tracking
/// is off, the loop ends at its next check, and starting again goes through
/// opening a device before tracking is back on.
pub proof fn lemma_kill_then_start(s: CaptureState)
    requires
        s.wf(),
    ensures
        !s.kill().0.camera_open,
        !s.kill().0.tracking,
        !s.kill().0.loop_check().1,
        s.kill().0.start().1 == StartDirective::OpenDevice,
        s.kill().0.with_camera().start().0.tracking,
        s.kill().0.loop_check().0.with_camera().start() == (
            CaptureState { camera_open: true, tracking: true, loop_running: true },
            StartDirective::SpawnLoop,
        ),
{
}

/// Stopping keeps the camera handle: starting again turns tracking back on
/// without opening a device, whether or not the loop has ended in between.
pub proof fn lemma_stop_then_start(s: CaptureState)
    requires
        s.wf(),
        s.camera_open,
    ensures
        s.stop().start().0.tracking,
        s.stop().start().1 != StartDirective::OpenDevice,
        s.stop().loop_check().0.start().0.tracking,
        s.stop().loop_check().0.start().1 == StartDirective::SpawnLoop,
{
}

/// Every transition keeps the state well formed, and the sampling loop's
/// check never gives a camera back: once the kill switch has run, the slot
/// stays empty whatever the loop does, until a device is opened again.
pub proof fn lemma_transitions_consistent(s: CaptureState)
    requires
        s.wf(),
    ensures
        s.with_camera().wf(),
        s.start().0.wf(),
        s.stop().wf(),
        s.kill().0.wf(),
        s.loop_check().0.wf(),
        s.loop_check().0.camera_open == s.camera_open,
        !s.kill().0.loop_check().0.camera_open,
        !s.loop_check().0.kill().0.camera_open,
{
}

} // verus!
