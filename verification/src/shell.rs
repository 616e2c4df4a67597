//! The application shell: an event-driven, single-threaded state machine.
//!
//! The platform layer owns the OS window and the event loop; it feeds each
//! platform event in delivery order into [`Shell::handle_event`] and
//! performs the [`Action`] handed back — create the window and negotiate a
//! surface, render and present a frame, reconfigure, or exit. Every
//! decision is the pure step function [`spec_step`] of the current state
//! and the event, and the exec entry point is pinned to it.

use vstd::prelude::*;

use crate::surface::{
    spec_configuration, spec_retry_action, retry_action, RetryAction, SurfaceCapabilities,
    SurfaceContext, SurfaceError, SurfaceLifecycle,
};
use crate::vertex::Vertex;
use crate::widget::{draw_node, hit_test_node, spec_draw, spec_hit, Constraints, WidgetNode};

verus! {

/// How many times a transient frame-acquisition failure is retried before
/// it escalates to a fatal error.
pub const MAX_ACQUIRE_RETRIES: u32 = 3;

/// The lifecycle of the shell: created, window up but surface still being
/// negotiated, running, or shutting down.
#[derive(Clone, Copy, Debug, PartialEq, Eq, Structural)]
pub enum ShellPhase {
    Created,
    Resumed,
    Running,
    Exiting,
}

/// One event handed to the shell, in delivery order: the platform's
/// resume, resize, redraw and close notifications, the completion of the
/// asynchronous surface negotiation, pointer input, and the outcomes of
/// the frame cycle the platform layer runs.
#[derive(Debug, PartialEq)]
pub enum Event {
    /// The platform resumed the application; the window is created now.
    Resumed,
    /// Surface negotiation finished: the backend's capabilities and the
    /// window's physical size.
    SurfaceReady { caps: SurfaceCapabilities, width: u32, height: u32 },
    /// The window's physical size changed.
    Resized { width: u32, height: u32 },
    /// The platform asks for a redraw.
    RedrawRequested,
    /// The frame most recently rendered was presented.
    FramePresented,
    /// Acquiring the current frame failed.
    AcquireFailed { error: SurfaceError },
    /// A pointer event at the given position, in surface coordinates.
    PointerInput { x: i64, y: i64 },
    /// The platform asks the application to close.
    CloseRequested,
}

/// What the platform layer must do after an event was handled.
#[derive(Debug, PartialEq)]
pub enum Action {
    /// Create the OS window and negotiate the GPU surface; hand the result
    /// back as [`Event::SurfaceReady`].
    CreateWindowAndSurface,
    /// Render a frame and present it; hand back [`Event::FramePresented`].
    Render,
    /// Reconfigure the real surface to the given size.
    Reconfigure { width: u32, height: u32 },
    /// Acquire the frame again as-is.
    RetryAcquire,
    /// Reconfigure the real surface, then acquire again.
    ReconfigureAndRetryAcquire,
    /// Deliver the input to the widget with the given identity, if any
    /// widget's bounds contained the event's position.
    DeliverInput { target: Option<u64> },
    /// Tear everything down and leave the event loop.
    Exit,
    /// Nothing to do.
    Idle,
}

/// The application shell: owns the retained widget tree and the model of
/// the one window and surface, created together on resume and released
/// together on exit. The counters record how often a window was created
/// and released and how many frames were presented.
#[derive(Debug)]
pub struct Shell {
    pub phase: ShellPhase,
    pub root: WidgetNode,
    pub surface: Option<SurfaceContext>,
    pub windows_created: u64,
    pub windows_released: u64,
    pub frames_presented: u64,
    pub retry_attempts: u32,
    pub max_retry_attempts: u32,
}

/// `x + 1`, saturating at the type's maximum.
pub open spec fn sat_inc(x: u64) -> u64 {
    if x < u64::MAX {
        (x + 1) as u64
    } else {
        x
    }
}

/// The shell's structural invariant: the window and surface are created
/// together exactly once and released together exactly once, and a held
/// surface is configured.
pub open spec fn shell_inv(s: Shell) -> bool {
    &&& s.windows_created <= 1
    &&& s.windows_released <= s.windows_created
    &&& (s.phase == ShellPhase::Created ==> s.windows_created == 0 && s.surface is None)
    &&& (s.phase == ShellPhase::Resumed ==> s.windows_created == 1 && s.windows_released == 0
        && s.surface is None)
    &&& (s.phase == ShellPhase::Running ==> s.windows_created == 1 && s.windows_released == 0
        && s.surface is Some)
    &&& (s.phase == ShellPhase::Exiting ==> s.windows_released == s.windows_created && s.surface
        is None)
    &&& (s.surface is Some ==> s.surface.unwrap().lifecycle == SurfaceLifecycle::Configured)
}

/// The shell's step function: the next state and the action the platform
/// layer must perform, as a pure function of the current state and the
/// event. Events that do not apply in the current phase leave the state
/// unchanged and ask for nothing.
pub open spec fn spec_step(s: Shell, e: Event) -> (Shell, Action) {
    match e {
        Event::Resumed => {
            if s.phase == ShellPhase::Created {
                (
                    Shell {
                        phase: ShellPhase::Resumed,
                        windows_created: (s.windows_created + 1) as u64,
                        ..s
                    },
                    Action::CreateWindowAndSurface,
                )
            } else {
                (s, Action::Idle)
            }
        },
        Event::SurfaceReady { caps, width, height } => {
            if s.phase == ShellPhase::Resumed {
                if caps.formats@.len() > 0 && caps.present_modes@.len() > 0
                    && caps.alpha_modes@.len() > 0 {
                    (
                        Shell {
                            phase: ShellPhase::Running,
                            surface: Some(
                                SurfaceContext {
                                    config: spec_configuration(caps, width, height),
                                    lifecycle: SurfaceLifecycle::Configured,
                                },
                            ),
                            ..s
                        },
                        Action::Idle,
                    )
                } else {
                    // A backend without a single format, present mode or
                    // alpha mode is no compatible backend: fatal.
                    (
                        Shell {
                            phase: ShellPhase::Exiting,
                            surface: None,
                            windows_released: (s.windows_released + 1) as u64,
                            ..s
                        },
                        Action::Exit,
                    )
                }
            } else {
                (s, Action::Idle)
            }
        },
        Event::Resized { width, height } => {
            if s.phase == ShellPhase::Running && s.surface is Some {
                (
                    Shell {
                        surface: Some(
                            SurfaceContext {
                                config: crate::surface::SurfaceConfiguration {
                                    width,
                                    height,
                                    ..s.surface.unwrap().config
                                },
                                lifecycle: s.surface.unwrap().lifecycle,
                            },
                        ),
                        ..s
                    },
                    Action::Reconfigure { width, height },
                )
            } else {
                (s, Action::Idle)
            }
        },
        Event::RedrawRequested => {
            if s.phase == ShellPhase::Running {
                (s, Action::Render)
            } else {
                (s, Action::Idle)
            }
        },
        Event::FramePresented => {
            if s.phase == ShellPhase::Running {
                (
                    Shell { frames_presented: sat_inc(s.frames_presented), retry_attempts: 0, ..s },
                    Action::Idle,
                )
            } else {
                (s, Action::Idle)
            }
        },
        Event::AcquireFailed { error } => {
            if s.phase == ShellPhase::Running {
                match spec_retry_action(error, s.retry_attempts, s.max_retry_attempts) {
                    RetryAction::Fatal => (
                        Shell {
                            phase: ShellPhase::Exiting,
                            surface: None,
                            windows_released: (s.windows_released + 1) as u64,
                            ..s
                        },
                        Action::Exit,
                    ),
                    RetryAction::ReconfigureAndRetry => (
                        Shell { retry_attempts: (s.retry_attempts + 1) as u32, ..s },
                        Action::ReconfigureAndRetryAcquire,
                    ),
                    RetryAction::Retry => (
                        Shell { retry_attempts: (s.retry_attempts + 1) as u32, ..s },
                        Action::RetryAcquire,
                    ),
                }
            } else {
                (s, Action::Idle)
            }
        },
        Event::PointerInput { x, y } => {
            if s.phase == ShellPhase::Running && s.surface is Some {
                let config = s.surface.unwrap().config;
                let c = Constraints { max_width: config.width, max_height: config.height };
                (s, Action::DeliverInput { target: spec_hit(s.root, 0, 0, c, x, y) })
            } else {
                (s, Action::Idle)
            }
        },
        Event::CloseRequested => {
            match s.phase {
                ShellPhase::Created => (Shell { phase: ShellPhase::Exiting, ..s }, Action::Exit),
                ShellPhase::Resumed | ShellPhase::Running => (
                    Shell {
                        phase: ShellPhase::Exiting,
                        surface: None,
                        windows_released: (s.windows_released + 1) as u64,
                        ..s
                    },
                    Action::Exit,
                ),
                ShellPhase::Exiting => (s, Action::Idle),
            }
        },
    }
}

/// How rendering a frame can be refused.
#[derive(Clone, Copy, Debug, PartialEq, Eq, Structural)]
pub enum RenderError {
    /// The shell is not in the running phase: nothing may be drawn before
    /// the surface exists or after close was processed.
    NotRunning,
    /// The configured surface size does not match the window's current
    /// size; reconfigure first, never draw with a stale configuration.
    SizeMismatch,
}

/// What rendering returns: the frame's vertex batch, drawn from the root
/// over the whole surface, or the reason it was refused.
pub open spec fn spec_render_frame(s: Shell, width: u32, height: u32) -> Result<
    Seq<Vertex>,
    RenderError,
> {
    if s.phase != ShellPhase::Running || !(s.surface is Some) {
        Err(RenderError::NotRunning)
    } else if s.surface.unwrap().config.width != width || s.surface.unwrap().config.height
        != height {
        Err(RenderError::SizeMismatch)
    } else {
        Ok(spec_draw(s.root, 0, 0, Constraints { max_width: width, max_height: height }))
    }
}

impl Shell {
    /// A fresh shell over the given widget tree: no window, no surface,
    /// nothing created, released or presented yet.
    pub fn new(root: WidgetNode) -> (s: Shell)
        ensures
            s.phase == ShellPhase::Created,
            s.root == root,
            s.surface is None,
            s.windows_created == 0,
            s.windows_released == 0,
            s.frames_presented == 0,
            s.retry_attempts == 0,
            s.max_retry_attempts == MAX_ACQUIRE_RETRIES,
            shell_inv(s),
    {
        Shell {
            phase: ShellPhase::Created,
            root,
            surface: None,
            windows_created: 0,
            windows_released: 0,
            frames_presented: 0,
            retry_attempts: 0,
            max_retry_attempts: MAX_ACQUIRE_RETRIES,
        }
    }

    /// Evaluates the shell's invariant at run time, so that unverified
    /// callers can check it before handing an event in.
    pub fn invariant_holds(&self) -> (b: bool)
        ensures
            b == shell_inv(*self),
    {
        let counters_ok = self.windows_created <= 1 && self.windows_released
            <= self.windows_created;
        let phase_ok = match self.phase {
            ShellPhase::Created => self.windows_created == 0 && self.surface.is_none(),
            ShellPhase::Resumed => self.windows_created == 1 && self.windows_released == 0
                && self.surface.is_none(),
            ShellPhase::Running => self.windows_created == 1 && self.windows_released == 0
                && self.surface.is_some(),
            ShellPhase::Exiting => self.windows_released == self.windows_created
                && self.surface.is_none(),
        };
        let surface_ok = match &self.surface {
            Some(ctx) => ctx.lifecycle == SurfaceLifecycle::Configured,
            None => true,
        };
        counters_ok && phase_ok && surface_ok
    }

    /// Handles one platform event: steps the state machine and returns the
    /// action the platform layer must perform, exactly as [`spec_step`]
    /// says.
    pub fn handle_event(&mut self, event: Event) -> (a: Action)
        requires
            shell_inv(*old(self)),
        ensures
            *final(self) == spec_step(*old(self), event).0,
            a == spec_step(*old(self), event).1,
            shell_inv(*final(self)),
    {
        match event {
            Event::Resumed => {
                if self.phase == ShellPhase::Created {
                    self.phase = ShellPhase::Resumed;
                    self.windows_created = self.windows_created + 1;
                    Action::CreateWindowAndSurface
                } else {
                    Action::Idle
                }
            },
            Event::SurfaceReady { caps, width, height } => {
                if self.phase == ShellPhase::Resumed {
                    if caps.formats.len() > 0 && caps.present_modes.len() > 0
                        && caps.alpha_modes.len() > 0 {
                        let ctx = SurfaceContext::configure(&caps, width, height);
                        self.surface = Some(ctx);
                        self.phase = ShellPhase::Running;
                        Action::Idle
                    } else {
                        self.phase = ShellPhase::Exiting;
                        self.surface = None;
                        self.windows_released = self.windows_released + 1;
                        Action::Exit
                    }
                } else {
                    Action::Idle
                }
            },
            Event::Resized { width, height } => {
                if self.phase == ShellPhase::Running {
                    match self.surface {
                        Some(mut ctx) => {
                            ctx.reconfigure(width, height);
                            self.surface = Some(ctx);
                            Action::Reconfigure { width, height }
                        },
                        None => Action::Idle,
                    }
                } else {
                    Action::Idle
                }
            },
            Event::RedrawRequested => {
                if self.phase == ShellPhase::Running {
                    Action::Render
                } else {
                    Action::Idle
                }
            },
            Event::FramePresented => {
                if self.phase == ShellPhase::Running {
                    if self.frames_presented < u64::MAX {
                        self.frames_presented = self.frames_presented + 1;
                    }
                    self.retry_attempts = 0;
                    Action::Idle
                } else {
                    Action::Idle
                }
            },
            Event::AcquireFailed { error } => {
                if self.phase == ShellPhase::Running {
                    let act = retry_action(&error, self.retry_attempts, self.max_retry_attempts);
                    match act {
                        RetryAction::Fatal => {
                            self.phase = ShellPhase::Exiting;
                            self.surface = None;
                            self.windows_released = self.windows_released + 1;
                            Action::Exit
                        },
                        RetryAction::ReconfigureAndRetry => {
                            self.retry_attempts = self.retry_attempts + 1;
                            Action::ReconfigureAndRetryAcquire
                        },
                        RetryAction::Retry => {
                            self.retry_attempts = self.retry_attempts + 1;
                            Action::RetryAcquire
                        },
                    }
                } else {
                    Action::Idle
                }
            },
            Event::PointerInput { x, y } => {
                if self.phase == ShellPhase::Running {
                    match &self.surface {
                        Some(ctx) => {
                            let c = Constraints {
                                max_width: ctx.config.width,
                                max_height: ctx.config.height,
                            };
                            let target = hit_test_node(&self.root, 0, 0, c, x, y);
                            Action::DeliverInput { target }
                        },
                        None => Action::Idle,
                    }
                } else {
                    Action::Idle
                }
            },
            Event::CloseRequested => {
                match self.phase {
                    ShellPhase::Created => {
                        self.phase = ShellPhase::Exiting;
                        Action::Exit
                    },
                    ShellPhase::Resumed | ShellPhase::Running => {
                        self.phase = ShellPhase::Exiting;
                        self.surface = None;
                        self.windows_released = self.windows_released + 1;
                        Action::Exit
                    },
                    ShellPhase::Exiting => Action::Idle,
                }
            },
        }
    }

    /// Renders a frame for a window of the given physical size: runs the
    /// layout and draw passes over the retained tree and returns the
    /// frame's vertices. Refused unless the shell is running, and refused
    /// with [`RenderError::SizeMismatch`] whenever the configured surface
    /// size differs from the window's size: drawing with a stale
    /// configuration is impossible, not silently wrong.
    pub fn render_frame(&self, window_width: u32, window_height: u32) -> (r: Result<
        Vec<Vertex>,
        RenderError,
    >)
        ensures
            (match (r, spec_render_frame(*self, window_width, window_height)) {
                (Ok(v), Ok(sv)) => v@ == sv,
                (Err(e), Err(se)) => e == se,
                _ => false,
            }),
    {
        if self.phase != ShellPhase::Running {
            return Err(RenderError::NotRunning);
        }
        match &self.surface {
            None => Err(RenderError::NotRunning),
            Some(ctx) => {
                if !ctx.size_matches(window_width, window_height) {
                    return Err(RenderError::SizeMismatch);
                }
                let c = Constraints { max_width: window_width, max_height: window_height };
                let mut out: Vec<Vertex> = Vec::new();
                draw_node(&self.root, 0, 0, c, &mut out);
                assert(out@ =~= spec_draw(self.root, 0, 0, c));
                Ok(out)
            },
        }
    }
}

/// Every event preserves the shell's invariant: however the loop runs, the
/// window and surface are created at most once, never released more often
/// than created, and a held surface is configured.
pub proof fn lemma_step_preserves_inv(s: Shell, e: Event)
    requires
        shell_inv(s),
    ensures
        shell_inv(spec_step(s, e).0),
{
}

/// The window is created exactly once: after the shell has left the
/// Created phase, no event raises the creation count again.
pub proof fn lemma_window_created_once(s: Shell, e: Event)
    requires
        s.phase != ShellPhase::Created,
    ensures
        spec_step(s, e).0.windows_created == s.windows_created,
{
}

/// Exit is final: once close was processed, every further event leaves the
/// shell exactly as it is and asks for nothing — in particular, no frame
/// is rendered or presented and nothing is released twice.
pub proof fn lemma_exit_is_final(s: Shell, e: Event)
    requires
        s.phase == ShellPhase::Exiting,
    ensures
        spec_step(s, e).0 == s,
        spec_step(s, e).1 == Action::Idle,
{
}

/// Nothing is rendered after close: once the shell is no longer running,
/// rendering is refused rather than drawing into a released surface.
pub proof fn lemma_no_render_after_exit(s: Shell, width: u32, height: u32)
    requires
        s.phase == ShellPhase::Exiting,
    ensures
        spec_render_frame(s, width, height) == Err::<Seq<Vertex>, RenderError>(
            RenderError::NotRunning,
        ),
{
}

} // verus!
