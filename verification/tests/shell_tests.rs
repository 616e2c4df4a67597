use helium_ui::shell::{Action, Event, RenderError, Shell, ShellPhase};
use helium_ui::surface::{SurfaceCapabilities, SurfaceError, SurfaceFormat};
use helium_ui::vertex::Rgba;
use helium_ui::widget::WidgetNode;

fn root() -> WidgetNode {
    WidgetNode::Panel { id: 1, width: 800, height: 600, color: Rgba { r: 0, g: 0, b: 0, a: 1 } }
}

fn good_caps() -> SurfaceCapabilities {
    SurfaceCapabilities {
        formats: vec![
            SurfaceFormat { srgb: false, code: 5 },
            SurfaceFormat { srgb: true, code: 6 },
        ],
        present_modes: vec![2],
        alpha_modes: vec![4],
    }
}

fn running_shell() -> Shell {
    let mut sh = Shell::new(root());
    sh.handle_event(Event::Resumed);
    sh.handle_event(Event::SurfaceReady { caps: good_caps(), width: 800, height: 600 });
    sh
}

#[test]
fn resume_creates_the_window_once() {
    let mut sh = Shell::new(root());
    assert_eq!(sh.phase, ShellPhase::Created);
    assert_eq!(sh.windows_created, 0);
    let a = sh.handle_event(Event::Resumed);
    assert_eq!(a, Action::CreateWindowAndSurface);
    assert_eq!(sh.phase, ShellPhase::Resumed);
    assert_eq!(sh.windows_created, 1);
    // A second resume creates nothing.
    let a = sh.handle_event(Event::Resumed);
    assert_eq!(a, Action::Idle);
    assert_eq!(sh.windows_created, 1);
}

#[test]
fn surface_ready_configures_and_starts_running() {
    let sh = running_shell();
    assert_eq!(sh.phase, ShellPhase::Running);
    let ctx = sh.surface.expect("surface should be configured");
    assert_eq!(ctx.config.format, SurfaceFormat { srgb: true, code: 6 });
    assert_eq!(ctx.config.width, 800);
    assert_eq!(ctx.config.height, 600);
}

#[test]
fn empty_capabilities_are_fatal() {
    let mut sh = Shell::new(root());
    sh.handle_event(Event::Resumed);
    let caps = SurfaceCapabilities { formats: vec![], present_modes: vec![2], alpha_modes: vec![4] };
    let a = sh.handle_event(Event::SurfaceReady { caps, width: 800, height: 600 });
    assert_eq!(a, Action::Exit);
    assert_eq!(sh.phase, ShellPhase::Exiting);
    assert_eq!(sh.windows_released, 1);
}

#[test]
fn end_to_end_resume_redraw_close() {
    let mut sh = Shell::new(root());

    let a = sh.handle_event(Event::Resumed);
    assert_eq!(a, Action::CreateWindowAndSurface);
    let a = sh.handle_event(Event::SurfaceReady { caps: good_caps(), width: 800, height: 600 });
    assert_eq!(a, Action::Idle);
    assert_eq!(sh.windows_created, 1);
    assert_eq!(sh.windows_released, 0);

    let a = sh.handle_event(Event::RedrawRequested);
    assert_eq!(a, Action::Render);
    let frame = sh.render_frame(800, 600).expect("running shell must render");
    assert_eq!(frame.len(), 6);
    let a = sh.handle_event(Event::FramePresented);
    assert_eq!(a, Action::Idle);
    assert_eq!(sh.frames_presented, 1);

    let a = sh.handle_event(Event::CloseRequested);
    assert_eq!(a, Action::Exit);
    assert_eq!(sh.phase, ShellPhase::Exiting);
    assert_eq!(sh.windows_created, 1);
    assert_eq!(sh.windows_released, 1);
    assert!(sh.surface.is_none());

    // Nothing is rendered or presented after close was processed.
    let a = sh.handle_event(Event::RedrawRequested);
    assert_eq!(a, Action::Idle);
    assert_eq!(sh.render_frame(800, 600), Err(RenderError::NotRunning));
    let a = sh.handle_event(Event::FramePresented);
    assert_eq!(a, Action::Idle);
    assert_eq!(sh.frames_presented, 1);
    // Close again releases nothing twice.
    let a = sh.handle_event(Event::CloseRequested);
    assert_eq!(a, Action::Idle);
    assert_eq!(sh.windows_released, 1);
}

#[test]
fn render_with_stale_configuration_is_rejected() {
    let mut sh = running_shell();
    // The window grew but no resize was processed: rendering is refused.
    assert_eq!(sh.render_frame(1024, 768), Err(RenderError::SizeMismatch));
    // After the resize event reconfigures, rendering succeeds.
    let a = sh.handle_event(Event::Resized { width: 1024, height: 768 });
    assert_eq!(a, Action::Reconfigure { width: 1024, height: 768 });
    assert!(sh.render_frame(1024, 768).is_ok());
    assert_eq!(sh.render_frame(800, 600), Err(RenderError::SizeMismatch));
}

#[test]
fn render_before_running_is_rejected() {
    let mut sh = Shell::new(root());
    assert_eq!(sh.render_frame(800, 600), Err(RenderError::NotRunning));
    sh.handle_event(Event::Resumed);
    assert_eq!(sh.render_frame(800, 600), Err(RenderError::NotRunning));
}

#[test]
fn transient_acquire_failures_retry_then_escalate() {
    let mut sh = running_shell();
    let a = sh.handle_event(Event::AcquireFailed { error: SurfaceError::Timeout });
    assert_eq!(a, Action::RetryAcquire);
    let a = sh.handle_event(Event::AcquireFailed { error: SurfaceError::Lost });
    assert_eq!(a, Action::ReconfigureAndRetryAcquire);
    let a = sh.handle_event(Event::AcquireFailed { error: SurfaceError::Outdated });
    assert_eq!(a, Action::ReconfigureAndRetryAcquire);
    assert_eq!(sh.retry_attempts, 3);
    // The bound is exhausted: the next failure is fatal.
    let a = sh.handle_event(Event::AcquireFailed { error: SurfaceError::Timeout });
    assert_eq!(a, Action::Exit);
    assert_eq!(sh.phase, ShellPhase::Exiting);
    assert_eq!(sh.windows_released, 1);
}

#[test]
fn out_of_memory_is_immediately_fatal() {
    let mut sh = running_shell();
    let a = sh.handle_event(Event::AcquireFailed { error: SurfaceError::OutOfMemory });
    assert_eq!(a, Action::Exit);
    assert_eq!(sh.phase, ShellPhase::Exiting);
}

#[test]
fn a_presented_frame_resets_the_retry_counter() {
    let mut sh = running_shell();
    sh.handle_event(Event::AcquireFailed { error: SurfaceError::Timeout });
    sh.handle_event(Event::AcquireFailed { error: SurfaceError::Timeout });
    assert_eq!(sh.retry_attempts, 2);
    sh.handle_event(Event::FramePresented);
    assert_eq!(sh.retry_attempts, 0);
    assert_eq!(sh.frames_presented, 1);
}

#[test]
fn pointer_input_is_delivered_to_the_topmost_widget() {
    let tree = WidgetNode::Column {
        id: 1,
        children: vec![
            WidgetNode::Panel { id: 2, width: 800, height: 100, color: Rgba { r: 0, g: 0, b: 0, a: 1 } },
            WidgetNode::Panel { id: 3, width: 800, height: 100, color: Rgba { r: 0, g: 0, b: 0, a: 1 } },
        ],
    };
    let mut sh = Shell::new(tree);
    sh.handle_event(Event::Resumed);
    sh.handle_event(Event::SurfaceReady { caps: good_caps(), width: 800, height: 600 });
    let a = sh.handle_event(Event::PointerInput { x: 10, y: 150 });
    assert_eq!(a, Action::DeliverInput { target: Some(3) });
    let a = sh.handle_event(Event::PointerInput { x: 10, y: 50 });
    assert_eq!(a, Action::DeliverInput { target: Some(2) });
    let a = sh.handle_event(Event::PointerInput { x: 10, y: 500 });
    assert_eq!(a, Action::DeliverInput { target: None });
}

#[test]
fn the_invariant_holds_through_the_whole_lifecycle() {
    let mut sh = Shell::new(root());
    assert!(sh.invariant_holds());
    sh.handle_event(Event::Resumed);
    assert!(sh.invariant_holds());
    sh.handle_event(Event::SurfaceReady { caps: good_caps(), width: 800, height: 600 });
    assert!(sh.invariant_holds());
    sh.handle_event(Event::CloseRequested);
    assert!(sh.invariant_holds());
}

#[test]
fn input_before_running_is_ignored() {
    let mut sh = Shell::new(root());
    let a = sh.handle_event(Event::PointerInput { x: 1, y: 1 });
    assert_eq!(a, Action::Idle);
}
