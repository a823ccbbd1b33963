//! The canvas that hosts the context: it starts the context once, keeps the
//! held keys, and on every tick feeds the direction to the context, renders and
//! settles the frame.
//!
//! The canvas decides; its caller creates the context, runs the timer, talks to
//! the GPU and hands back what came of it.

use vstd::prelude::*;
use crate::context::{reconfigure_steps, Step, WgpuContext};
use crate::controls::{axis, ControlMsg, ControlState};
use crate::driver::{recovery, recovery_of, settle, Recovery, Verdict};
use crate::pipeline::{frame_commands, Command};
use crate::surface::SurfaceError;

verus! {

/// The width of the canvas in pixels.
pub const CANVAS_WIDTH: u32 = 500;

/// The height of the canvas in pixels.
pub const CANVAS_HEIGHT: u32 = 500;

/// The time between two ticks in milliseconds.
pub const TICK_MILLIS: u32 = 30;

/// What the canvas is told.
#[derive(Debug, PartialEq, Eq)]
pub enum WgpuCanvasMsg {
    /// Start to create the context.
    Initializing,
    /// The context was created.
    Initialized(WgpuContext),
    /// A movement key went down or came up.
    Control(ControlMsg),
    /// A tick of the timer.
    Update,
}

/// What the caller does after a message.
#[derive(Debug, PartialEq, Eq)]
pub enum Effect {
    Nothing,
    /// Give the canvas this size and create a context for it.
    CreateContext { width: u32, height: u32 },
    /// Send `Update` every `millis` milliseconds from now on.
    StartTimer { millis: u32 },
    /// Carry out the steps, ask for a redraw, acquire the surface's next image
    /// and call `present` with what the acquisition gave.
    Frame(Vec<Step>),
}

/// What is left to do at the end of a frame, and whether the session goes on.
#[derive(Debug, PartialEq, Eq)]
pub struct FrameEnd {
    pub verdict: Verdict,
    /// The recovery that the frame calls for, if an error ended it.
    pub recovery: Option<Recovery>,
    /// The commands of the frame; none where no image was acquired.
    pub commands: Vec<Command>,
    /// The steps of the recovery; none where there is nothing to recover from.
    pub steps: Vec<Step>,
}

/// The canvas: the context once it is there, whether its creation was started,
/// and the held keys.
#[derive(Debug)]
pub struct WgpuCanvas {
    context: Option<WgpuContext>,
    initialize_sent: bool,
    control_state: ControlState,
}

/// The steps of a tick while `state` is held: move the eye by the direction of
/// the keys, then write the uniform.
pub open spec fn tick_steps(state: ControlState) -> Seq<Step> {
    seq![
        Step::MoveEye {
            forward: axis(state.up, state.down) as i8,
            strafe: axis(state.right, state.left) as i8,
        },
        Step::WriteCameraUniform,
    ]
}

impl WgpuCanvas {
    pub closed spec fn context(&self) -> Option<WgpuContext> {
        self.context
    }

    pub closed spec fn initialize_sent(&self) -> bool {
        self.initialize_sent
    }

    pub closed spec fn spec_control_state(&self) -> ControlState {
        self.control_state
    }

    /// A canvas without a context, with no key held.
    pub fn create() -> (r: WgpuCanvas)
        ensures
            r.context().is_none(),
            !r.initialize_sent(),
            r.control_state() == (ControlState {
                up: false,
                down: false,
                left: false,
                right: false,
            }),
    {
        WgpuCanvas { context: None, initialize_sent: false, control_state: ControlState::default() }
    }

    /// The held keys.
    #[verifier::when_used_as_spec(spec_control_state)]
    pub fn control_state(&self) -> (r: ControlState)
        ensures
            r == self.control_state(),
    {
        self.control_state
    }

    /// Whether the context is there.
    pub fn has_context(&self) -> (r: bool)
        ensures
            r == self.context().is_some(),
    {
        self.context.is_some()
    }

    /// Whether `Initializing` is to be sent: there is no context and its creation
    /// was not started yet.
    pub fn needs_initialize(&self) -> (r: bool)
        ensures
            r == (self.context().is_none() && !self.initialize_sent()),
    {
        self.context.is_none() && !self.initialize_sent
    }

    /// Takes a message. Returns whether the canvas is to be drawn anew, and what
    /// the caller does next.
    pub fn update(&mut self, msg: WgpuCanvasMsg) -> (r: (bool, Effect))
        ensures
            match msg {
                WgpuCanvasMsg::Initializing => {
                    &&& final(self).initialize_sent()
                    &&& final(self).context() == old(self).context()
                    &&& final(self).control_state() == old(self).control_state()
                    &&& r.0
                    &&& r.1 == (Effect::CreateContext {
                        width: CANVAS_WIDTH,
                        height: CANVAS_HEIGHT,
                    })
                },
                WgpuCanvasMsg::Initialized(context) => {
                    &&& final(self).context() == Some(context)
                    &&& final(self).initialize_sent() == old(self).initialize_sent()
                    &&& final(self).control_state() == old(self).control_state()
                    &&& r.0
                    &&& r.1 == (Effect::StartTimer { millis: TICK_MILLIS })
                },
                WgpuCanvasMsg::Control(key) => {
                    &&& final(self).control_state() == old(self).control_state().after(key)
                    &&& final(self).context() == old(self).context()
                    &&& final(self).initialize_sent() == old(self).initialize_sent()
                    &&& !r.0
                    &&& r.1 == Effect::Nothing
                },
                WgpuCanvasMsg::Update => {
                    &&& *final(self) == *old(self)
                    &&& r.0 == old(self).context().is_some()
                    &&& match r.1 {
                        Effect::Frame(steps) => old(self).context().is_some() && steps@
                            == tick_steps(old(self).control_state()),
                        Effect::Nothing => old(self).context().is_none(),
                        _ => false,
                    }
                },
            },
    {
        match msg {
            WgpuCanvasMsg::Initializing => {
                self.initialize_sent = true;
                (true, Effect::CreateContext { width: CANVAS_WIDTH, height: CANVAS_HEIGHT })
            },
            WgpuCanvasMsg::Initialized(context) => {
                self.context = Some(context);
                (true, Effect::StartTimer { millis: TICK_MILLIS })
            },
            WgpuCanvasMsg::Control(key) => {
                self.control_state.apply(key);
                (false, Effect::Nothing)
            },
            WgpuCanvasMsg::Update => {
                let input = self.control_state.get_2d_vec();
                match &mut self.context {
                    Some(context) => {
                        let steps = context.update(input);
                        assert(steps@ =~= tick_steps(self.control_state));
                        (true, Effect::Frame(steps))
                    },
                    None => (false, Effect::Nothing),
                }
            },
        }
    }

    /// Ends the frame that the last `Update` began, on what the acquisition of
    /// the surface's next image gave. Without a context nothing happens. With an
    /// image, the commands of the frame are returned. After a lost or outdated
    /// surface the steps that configure it again at its size are returned; a
    /// timeout is passed over; want of memory and any other error end the
    /// session. The canvas and its context stay as they are in every case.
    pub fn present(&mut self, acquired: Result<(), SurfaceError>) -> (r: FrameEnd)
        ensures
            *final(self) == *old(self),
            r.verdict == Verdict::Terminate <==> old(self).context().is_some() && acquired.is_err()
                && recovery_of(acquired.unwrap_err()) == Recovery::Terminate,
            r.verdict == Verdict::Continue <==> r.verdict != Verdict::Terminate,
            r.recovery == if old(self).context().is_some() && acquired.is_err() {
                Some(recovery_of(acquired.unwrap_err()))
            } else {
                None::<Recovery>
            },
            r.commands@ == if old(self).context().is_some() && acquired.is_ok() {
                frame_commands(old(self).context().unwrap().spec_mesh().indices@.len() as u32)
            } else {
                Seq::<Command>::empty()
            },
            r.steps@ == if old(self).context().is_some() && acquired.is_err() && recovery_of(
                acquired.unwrap_err(),
            ) == Recovery::Reconfigure {
                reconfigure_steps(old(self).context().unwrap().config())
            } else {
                Seq::<Step>::empty()
            },
    {
        match &mut self.context {
            None => FrameEnd {
                verdict: Verdict::Continue,
                recovery: None,
                commands: Vec::new(),
                steps: Vec::new(),
            },
            Some(context) => {
                match context.render(acquired) {
                    Ok(commands) => FrameEnd {
                        verdict: Verdict::Continue,
                        recovery: None,
                        commands,
                        steps: Vec::new(),
                    },
                    Err(error) => {
                        let (verdict, steps) = settle(context, Err(error));
                        FrameEnd {
                            verdict,
                            recovery: Some(recovery(error)),
                            commands: Vec::new(),
                            steps,
                        }
                    },
                }
            },
        }
    }
}

} // verus!
