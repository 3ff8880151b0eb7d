use vstd::prelude::*;
use crate::camera::{clamp_pitch, wrap_yaw, Camera3D};
use crate::timestep::{FixedTimestep, TICK_PERIOD_NANOS};

verus! {

/// Each movement key press moves the camera a tenth of a world unit, here
/// stated in thousandths of a unit.
pub const MOVE_STEP_MILLIUNITS: u64 = 100;

/// The keys the loop reacts to. Anything else -- unrecognised codes and
/// synthetic presses included -- arrives as `Other` and is ignored.
#[derive(Clone, Copy, Debug, PartialEq, Eq, Structural)]
pub enum KeyInput {
    KeyW,
    KeyA,
    KeyS,
    KeyD,
    KeyE,
    KeyQ,
    Escape,
    Other,
}

/// A camera-local direction as an integer unit vector: x points right,
/// y up, z forward.
#[derive(Clone, Copy, Debug, PartialEq, Eq, Structural)]
pub struct MoveDirection {
    pub x: i8,
    pub y: i8,
    pub z: i8,
}

/// The closed set of window and input events the loop dispatches on,
/// delivered serially by the external window system.
#[derive(Clone, Copy, Debug, PartialEq, Eq, Structural)]
pub enum EngineEvent {
    CloseRequested,
    Resized { width: u32, height: u32 },
    Focused { focused: bool },
    MouseButton,
    Keyboard { key: KeyInput },
    RedrawRequested { elapsed_nanos: u64 },
}

/// What the loop asks its surroundings to do in response to one event.
/// Everything that touches the window system or the GPU device -- ending the
/// process, reconfiguring the surface, grabbing the cursor, moving the
/// camera in floating point, drawing -- is performed outside, as told here.
#[derive(Clone, Copy, Debug, PartialEq, Eq, Structural)]
pub enum EngineAction {
    Exit,
    ResizeSurface { width: u32, height: u32 },
    ReleaseCursor,
    CaptureCursor,
    MoveCamera { direction: MoveDirection },
    RenderFrame { ticks: u64 },
    Ignore,
}

/// The fixed dispatch of one key press: the six movement keys map to the six
/// camera-local unit directions (W and S along the forward axis, A and D
/// along the right axis, Q and E along the up axis), Escape ends the loop,
/// anything else is ignored.
pub open spec fn key_action(key: KeyInput) -> EngineAction {
    match key {
        KeyInput::KeyW => EngineAction::MoveCamera {
            direction: MoveDirection { x: 0i8, y: 0i8, z: -1i8 },
        },
        KeyInput::KeyS => EngineAction::MoveCamera {
            direction: MoveDirection { x: 0i8, y: 0i8, z: 1i8 },
        },
        KeyInput::KeyA => EngineAction::MoveCamera {
            direction: MoveDirection { x: -1i8, y: 0i8, z: 0i8 },
        },
        KeyInput::KeyD => EngineAction::MoveCamera {
            direction: MoveDirection { x: 1i8, y: 0i8, z: 0i8 },
        },
        KeyInput::KeyQ => EngineAction::MoveCamera {
            direction: MoveDirection { x: 0i8, y: -1i8, z: 0i8 },
        },
        KeyInput::KeyE => EngineAction::MoveCamera {
            direction: MoveDirection { x: 0i8, y: 1i8, z: 0i8 },
        },
        KeyInput::Escape => EngineAction::Exit,
        KeyInput::Other => EngineAction::Ignore,
    }
}

/// What the presentation layer can report when acquiring the next image
/// fails.
#[derive(Clone, Copy, Debug, PartialEq, Eq, Structural)]
pub enum SurfaceIssue {
    Timeout,
    Outdated,
    Lost,
    OutOfMemory,
}

/// The frame-level reaction to a failed acquisition: transient conditions
/// skip the frame and retry on the next redraw, an invalidated surface is
/// reconfigured at the last known size, and out-of-memory is fatal.
#[derive(Clone, Copy, Debug, PartialEq, Eq, Structural)]
pub enum FrameRecovery {
    SkipFrame,
    Reconfigure,
    Exit,
}

pub open spec fn recovery_for(issue: SurfaceIssue) -> FrameRecovery {
    match issue {
        SurfaceIssue::Lost => FrameRecovery::Reconfigure,
        SurfaceIssue::OutOfMemory => FrameRecovery::Exit,
        SurfaceIssue::Timeout => FrameRecovery::SkipFrame,
        SurfaceIssue::Outdated => FrameRecovery::SkipFrame,
    }
}

/// Pick the recovery for a failed image acquisition.
pub fn recover_from(issue: SurfaceIssue) -> (r: FrameRecovery)
    ensures
        r == recovery_for(issue),
{
    match issue {
        SurfaceIssue::Lost => FrameRecovery::Reconfigure,
        SurfaceIssue::OutOfMemory => FrameRecovery::Exit,
        SurfaceIssue::Timeout => FrameRecovery::SkipFrame,
        SurfaceIssue::Outdated => FrameRecovery::SkipFrame,
    }
}

/// The game loop's own state: the camera orientation, the fixed-timestep
/// accumulator, and the two-state GPU lifecycle flag -- the device state
/// exists only once the window does, and until then every operation that
/// would need it is a no-op rather than a crash.
pub struct WindowGame {
    pub ready: bool,
    pub camera: Camera3D,
    pub timestep: FixedTimestep,
}

impl WindowGame {
    pub open spec fn wf(&self) -> bool {
        &&& self.camera.wf()
        &&& self.timestep.wf()
    }

    /// A fresh loop: not yet ready, camera at the identity orientation,
    /// simulation at sixty ticks per second with an empty accumulator.
    pub fn new() -> (g: WindowGame)
        ensures
            !g.ready,
            g.camera.yaw == 0,
            g.camera.pitch == 0,
            g.timestep.period_nanos == TICK_PERIOD_NANOS,
            g.timestep.accumulator_nanos == 0,
            g.timestep.ticks == 0,
            g.wf(),
    {
        WindowGame {
            ready: false,
            camera: Camera3D::new(),
            timestep: FixedTimestep::new(TICK_PERIOD_NANOS),
        }
    }

    /// Record whether the GPU device state exists.
    pub fn set_ready(&mut self, ready: bool)
        ensures
            final(self).ready == ready,
            final(self).camera == old(self).camera,
            final(self).timestep == old(self).timestep,
    {
        self.ready = ready;
    }

    /// Raw pointer motion turns the view and touches nothing else.
    pub fn on_mouse_motion(&mut self, delta_x: i64, delta_y: i64)
        requires
            old(self).wf(),
        ensures
            final(self).camera.yaw == wrap_yaw(old(self).camera.yaw - delta_x),
            final(self).camera.pitch == clamp_pitch(old(self).camera.pitch - delta_y),
            final(self).ready == old(self).ready,
            final(self).timestep == old(self).timestep,
            final(self).wf(),
    {
        self.camera.rotate_xy(delta_x, delta_y);
    }

    /// Dispatch one window event. Only a redraw mutates the loop's state (it
    /// runs every simulation tick now due); everything else either maps to an
    /// outward action or is ignored. Resizing, cursor capture and cursor
    /// release are downgraded to no-ops while the device state is absent.
    pub fn handle_window_event(&mut self, event: EngineEvent) -> (a: EngineAction)
        requires
            old(self).wf(),
            event matches EngineEvent::RedrawRequested { elapsed_nanos } ==> old(
                self,
            ).timestep.accumulator_nanos + elapsed_nanos <= u64::MAX && old(self).timestep.ticks + (
            old(self).timestep.accumulator_nanos + elapsed_nanos) / (
            old(self).timestep.period_nanos as int) <= u64::MAX,
        ensures
            final(self).wf(),
            final(self).ready == old(self).ready,
            final(self).camera == old(self).camera,
            match event {
                EngineEvent::CloseRequested => a == EngineAction::Exit && final(self).timestep
                    == old(self).timestep,
                EngineEvent::Resized { width, height } => {
                    &&& a == if old(self).ready {
                        (EngineAction::ResizeSurface { width, height })
                    } else {
                        EngineAction::Ignore
                    }
                    &&& final(self).timestep == old(self).timestep
                },
                EngineEvent::Focused { focused } => {
                    &&& a == if !focused && old(self).ready {
                        EngineAction::ReleaseCursor
                    } else {
                        EngineAction::Ignore
                    }
                    &&& final(self).timestep == old(self).timestep
                },
                EngineEvent::MouseButton => {
                    &&& a == if old(self).ready {
                        EngineAction::CaptureCursor
                    } else {
                        EngineAction::Ignore
                    }
                    &&& final(self).timestep == old(self).timestep
                },
                EngineEvent::Keyboard { key } => a == key_action(key) && final(self).timestep
                    == old(self).timestep,
                EngineEvent::RedrawRequested { elapsed_nanos } => {
                    if old(self).ready {
                        &&& final(self).timestep.period_nanos == old(self).timestep.period_nanos
                        &&& final(self).timestep.ticks == old(self).timestep.ticks + (old(
                            self,
                        ).timestep.accumulator_nanos + elapsed_nanos) / (
                        old(self).timestep.period_nanos as int)
                        &&& final(self).timestep.accumulator_nanos == (old(
                            self,
                        ).timestep.accumulator_nanos + elapsed_nanos) % (
                        old(self).timestep.period_nanos as int)
                        &&& (a matches EngineAction::RenderFrame { ticks } && ticks == (old(
                            self,
                        ).timestep.accumulator_nanos + elapsed_nanos) / (
                        old(self).timestep.period_nanos as int))
                    } else {
                        a == EngineAction::Ignore && final(self).timestep == old(self).timestep
                    }
                },
            },
    {
        match event {
            EngineEvent::CloseRequested => EngineAction::Exit,
            EngineEvent::Resized { width, height } => {
                if self.ready {
                    EngineAction::ResizeSurface { width, height }
                } else {
                    EngineAction::Ignore
                }
            },
            EngineEvent::Focused { focused } => {
                if !focused && self.ready {
                    EngineAction::ReleaseCursor
                } else {
                    EngineAction::Ignore
                }
            },
            EngineEvent::MouseButton => {
                if self.ready {
                    EngineAction::CaptureCursor
                } else {
                    EngineAction::Ignore
                }
            },
            EngineEvent::Keyboard { key } => {
                match key {
                    KeyInput::KeyW => EngineAction::MoveCamera {
                        direction: MoveDirection { x: 0, y: 0, z: -1 },
                    },
                    KeyInput::KeyS => EngineAction::MoveCamera {
                        direction: MoveDirection { x: 0, y: 0, z: 1 },
                    },
                    KeyInput::KeyA => EngineAction::MoveCamera {
                        direction: MoveDirection { x: -1, y: 0, z: 0 },
                    },
                    KeyInput::KeyD => EngineAction::MoveCamera {
                        direction: MoveDirection { x: 1, y: 0, z: 0 },
                    },
                    KeyInput::KeyQ => EngineAction::MoveCamera {
                        direction: MoveDirection { x: 0, y: -1, z: 0 },
                    },
                    KeyInput::KeyE => EngineAction::MoveCamera {
                        direction: MoveDirection { x: 0, y: 1, z: 0 },
                    },
                    KeyInput::Escape => EngineAction::Exit,
                    KeyInput::Other => EngineAction::Ignore,
                }
            },
            EngineEvent::RedrawRequested { elapsed_nanos } => {
                if self.ready {
                    let ticks: u64 = self.timestep.advance(elapsed_nanos);
                    EngineAction::RenderFrame { ticks }
                } else {
                    EngineAction::Ignore
                }
            },
        }
    }
}

} // verus!

