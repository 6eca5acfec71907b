use surface_host::config::{
    generate_config, FormatCaps, SurfaceCaps, WindowSize, RENDER_ATTACHMENT_USAGE,
};
use surface_host::error::{GuiError, RenderError};
use surface_host::frame::{frame_plan, AcquireOutcome};
use surface_host::state::{EventDirective, GuiEvent, GuiState, LoopDirective};

fn caps_with_formats(formats: Vec<FormatCaps>) -> SurfaceCaps {
    SurfaceCaps {
        formats,
        present_modes: vec![0, 1],
        alpha_modes: vec![0, 1, 2],
    }
}

fn simple_state(width: u32, height: u32) -> GuiState {
    let caps = caps_with_formats(vec![FormatCaps { id: 0, srgb: true }]);
    GuiState::new(WindowSize::new(width, height), &caps)
}

#[test]
fn initialize_800_600_selects_first_srgb_format() {
    let caps = caps_with_formats(vec![
        FormatCaps { id: 0, srgb: false },
        FormatCaps { id: 1, srgb: true },
        FormatCaps { id: 2, srgb: true },
    ]);
    let state = GuiState::new(WindowSize::new(800, 600), &caps);
    assert_eq!(state.config.width, 800);
    assert_eq!(state.config.height, 600);
    assert_eq!(state.config.usage, RENDER_ATTACHMENT_USAGE);
    assert_eq!(state.config.format, FormatCaps { id: 1, srgb: true });
    assert_eq!(state.size, WindowSize::new(800, 600));
}

#[test]
fn no_srgb_candidate_falls_back_to_first_format() {
    let caps = caps_with_formats(vec![
        FormatCaps { id: 0, srgb: false },
        FormatCaps { id: 1, srgb: false },
    ]);
    let config = generate_config(&caps, WindowSize::new(100, 100));
    assert_eq!(config.format, FormatCaps { id: 0, srgb: false });
}

#[test]
fn config_takes_first_present_and_alpha_modes() {
    let caps = SurfaceCaps {
        formats: vec![FormatCaps { id: 0, srgb: true }],
        present_modes: vec![4, 2, 3],
        alpha_modes: vec![9, 8],
    };
    let config = generate_config(&caps, WindowSize::new(5, 6));
    assert_eq!(config.present_mode, 4);
    assert_eq!(config.alpha_mode, 9);
    assert_eq!(config.width, 5);
    assert_eq!(config.height, 6);
}

#[test]
fn resize_then_render_keeps_resized_dimensions() {
    let mut state = simple_state(800, 600);
    let reapply = state.resize(WindowSize::new(1024, 768));
    assert!(reapply.is_some());
    let directive = state.redraw(AcquireOutcome::Frame);
    assert_eq!(directive, LoopDirective::SubmitFrame(frame_plan()));
    assert_eq!(state.config.width, 1024);
    assert_eq!(state.config.height, 768);
    assert_eq!(state.size, WindowSize::new(1024, 768));
}

#[test]
fn resize_zero_width_is_a_noop() {
    let mut state = simple_state(800, 600);
    let before = state;
    let reapply = state.resize(WindowSize::new(0, 450));
    assert!(reapply.is_none());
    assert_eq!(state, before);
}

#[test]
fn resize_zero_height_is_a_noop() {
    let mut state = simple_state(800, 600);
    let before = state;
    let reapply = state.resize(WindowSize::new(450, 0));
    assert!(reapply.is_none());
    assert_eq!(state, before);
}

#[test]
fn resize_twice_with_same_size_is_idempotent() {
    let mut state = simple_state(800, 600);
    state.resize(WindowSize::new(640, 480));
    let after_first = state;
    let reapply = state.resize(WindowSize::new(640, 480));
    assert_eq!(state, after_first);
    assert_eq!(reapply, Some(after_first.config));
}

#[test]
fn redraw_on_lost_surface_reconfigures_with_last_valid_size() {
    let mut state = simple_state(800, 600);
    let before = state;
    let directive = state.redraw(AcquireOutcome::Lost);
    match directive {
        LoopDirective::Reconfigure(config) => {
            assert_eq!(config, before.config);
            assert_eq!(config.width, 800);
            assert_eq!(config.height, 600);
        }
        other => panic!("expected a reconfiguration, got {:?}", other),
    }
    assert_ne!(directive, LoopDirective::Exit);
    assert_eq!(state, before);
}

#[test]
fn redraw_on_out_of_memory_exits_without_submitting() {
    let mut state = simple_state(800, 600);
    let directive = state.redraw(AcquireOutcome::OutOfMemory);
    assert_eq!(directive, LoopDirective::Exit);
    assert!(!matches!(directive, LoopDirective::SubmitFrame(_)));
}

#[test]
fn redraw_on_generic_error_changes_nothing_and_continues() {
    let mut state = simple_state(800, 600);
    let before = state;
    let directive = state.redraw(AcquireOutcome::Other);
    assert_eq!(directive, LoopDirective::LogAndContinue);
    assert_eq!(state, before);
}

#[test]
fn render_maps_each_acquire_failure_to_its_error() {
    let mut state = simple_state(320, 200);
    assert!(matches!(
        state.render(AcquireOutcome::Lost),
        Err(GuiError::Render(RenderError::Lost))
    ));
    assert!(matches!(
        state.render(AcquireOutcome::OutOfMemory),
        Err(GuiError::Render(RenderError::OutOfMemory))
    ));
    assert!(matches!(
        state.render(AcquireOutcome::Other),
        Err(GuiError::Render(RenderError::Other))
    ));
    assert_eq!(state.render(AcquireOutcome::Frame), Ok(frame_plan()));
}

#[test]
fn frame_plan_clears_to_the_fixed_color_and_stores() {
    let plan = frame_plan();
    assert_eq!(plan.clear.red_milli, 100);
    assert_eq!(plan.clear.green_milli, 200);
    assert_eq!(plan.clear.blue_milli, 0);
    assert_eq!(plan.clear.alpha_milli, 1000);
    assert!(plan.store);
    assert!(!plan.has_resolve_target);
    assert!(!plan.has_depth_stencil);
}

#[test]
fn dispatch_redraw_requested_asks_for_a_frame() {
    let mut state = simple_state(800, 600);
    let before = state;
    assert_eq!(
        state.dispatch(GuiEvent::RedrawRequested),
        EventDirective::AcquireFrame
    );
    assert_eq!(state, before);
}

#[test]
fn dispatch_main_events_cleared_requests_redraw() {
    let mut state = simple_state(800, 600);
    assert_eq!(
        state.dispatch(GuiEvent::MainEventsCleared),
        EventDirective::RequestRedraw
    );
}

#[test]
fn dispatch_close_requested_exits() {
    let mut state = simple_state(800, 600);
    assert_eq!(state.dispatch(GuiEvent::CloseRequested), EventDirective::Exit);
}

#[test]
fn dispatch_resized_applies_the_new_configuration() {
    let mut state = simple_state(800, 600);
    let directive = state.dispatch(GuiEvent::Resized(WindowSize::new(300, 200)));
    assert_eq!(directive, EventDirective::ApplyConfig(state.config));
    assert_eq!(state.config.width, 300);
    assert_eq!(state.config.height, 200);
}

#[test]
fn dispatch_zero_area_resize_does_nothing() {
    let mut state = simple_state(800, 600);
    let before = state;
    let directive = state.dispatch(GuiEvent::Resized(WindowSize::new(0, 0)));
    assert_eq!(directive, EventDirective::Nothing);
    assert_eq!(state, before);
}

#[test]
fn dispatch_scale_factor_change_applies_the_new_configuration() {
    let mut state = simple_state(800, 600);
    let directive = state.dispatch(GuiEvent::ScaleFactorChanged(WindowSize::new(1600, 1200)));
    assert_eq!(directive, EventDirective::ApplyConfig(state.config));
    assert_eq!(state.size, WindowSize::new(1600, 1200));
}

#[test]
fn dispatch_other_events_do_nothing() {
    let mut state = simple_state(800, 600);
    let before = state;
    assert_eq!(
        state.dispatch(GuiEvent::OtherWindowEvent),
        EventDirective::Nothing
    );
    assert_eq!(state.dispatch(GuiEvent::Other), EventDirective::Nothing);
    assert_eq!(state, before);
}

#[test]
fn input_consumes_nothing_and_update_changes_nothing() {
    let mut state = simple_state(800, 600);
    let before = state;
    assert!(!state.input(&GuiEvent::CloseRequested));
    state.update();
    assert_eq!(state, before);
}
