use helium_ui::surface::{
    choose_format, retry_action, RetryAction, SurfaceCapabilities, SurfaceContext, SurfaceError,
    SurfaceFormat, SurfaceLifecycle,
};

fn caps(formats: Vec<SurfaceFormat>) -> SurfaceCapabilities {
    SurfaceCapabilities { formats, present_modes: vec![2, 9], alpha_modes: vec![4, 7] }
}

#[test]
fn format_selection_prefers_first_srgb() {
    let formats = vec![
        SurfaceFormat { srgb: false, code: 7 },
        SurfaceFormat { srgb: true, code: 9 },
        SurfaceFormat { srgb: true, code: 11 },
    ];
    let chosen = choose_format(&formats);
    assert!(chosen.srgb);
    assert_eq!(chosen.code, 9);
}

#[test]
fn format_selection_falls_back_to_first_entry() {
    let formats = vec![
        SurfaceFormat { srgb: false, code: 7 },
        SurfaceFormat { srgb: false, code: 3 },
    ];
    let chosen = choose_format(&formats);
    assert!(!chosen.srgb);
    assert_eq!(chosen.code, 7);
}

#[test]
fn configure_takes_format_size_and_first_modes() {
    let c = caps(vec![
        SurfaceFormat { srgb: false, code: 5 },
        SurfaceFormat { srgb: true, code: 6 },
    ]);
    let ctx = SurfaceContext::configure(&c, 800, 600);
    assert_eq!(ctx.lifecycle, SurfaceLifecycle::Configured);
    assert_eq!(ctx.config.format, SurfaceFormat { srgb: true, code: 6 });
    assert_eq!(ctx.config.width, 800);
    assert_eq!(ctx.config.height, 600);
    assert_eq!(ctx.config.present_mode, 2);
    assert_eq!(ctx.config.alpha_mode, 4);
}

#[test]
fn reconfigure_changes_only_the_size() {
    let c = caps(vec![SurfaceFormat { srgb: true, code: 6 }]);
    let mut ctx = SurfaceContext::configure(&c, 800, 600);
    let before = ctx.config;
    ctx.reconfigure(1024, 768);
    assert_eq!(ctx.config.width, 1024);
    assert_eq!(ctx.config.height, 768);
    assert_eq!(ctx.config.format, before.format);
    assert_eq!(ctx.config.present_mode, before.present_mode);
    assert_eq!(ctx.config.alpha_mode, before.alpha_mode);
    assert_eq!(ctx.lifecycle, SurfaceLifecycle::Configured);
}

#[test]
fn size_matches_compares_configured_size() {
    let c = caps(vec![SurfaceFormat { srgb: true, code: 6 }]);
    let ctx = SurfaceContext::configure(&c, 800, 600);
    assert!(ctx.size_matches(800, 600));
    assert!(!ctx.size_matches(800, 601));
    assert!(!ctx.size_matches(400, 600));
}

#[test]
fn lifecycle_suspend_resume_destroy() {
    let c = caps(vec![SurfaceFormat { srgb: true, code: 6 }]);
    let mut ctx = SurfaceContext::configure(&c, 100, 100);
    let config = ctx.config;
    ctx.suspend();
    assert_eq!(ctx.lifecycle, SurfaceLifecycle::Suspended);
    assert_eq!(ctx.config, config);
    ctx.resume();
    assert_eq!(ctx.lifecycle, SurfaceLifecycle::Configured);
    ctx.destroy();
    assert_eq!(ctx.lifecycle, SurfaceLifecycle::Destroyed);
}

#[test]
fn transient_errors_retry_within_the_bound() {
    assert_eq!(retry_action(&SurfaceError::Lost, 0, 3), RetryAction::ReconfigureAndRetry);
    assert_eq!(retry_action(&SurfaceError::Outdated, 2, 3), RetryAction::ReconfigureAndRetry);
    assert_eq!(retry_action(&SurfaceError::Timeout, 1, 3), RetryAction::Retry);
}

#[test]
fn exhausted_retries_escalate_to_fatal() {
    assert_eq!(retry_action(&SurfaceError::Lost, 3, 3), RetryAction::Fatal);
    assert_eq!(retry_action(&SurfaceError::Outdated, 3, 3), RetryAction::Fatal);
    assert_eq!(retry_action(&SurfaceError::Timeout, 5, 3), RetryAction::Fatal);
}

#[test]
fn out_of_memory_is_always_fatal() {
    assert_eq!(retry_action(&SurfaceError::OutOfMemory, 0, 3), RetryAction::Fatal);
}
