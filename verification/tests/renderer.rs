use rust_game_engine::events::{AppAction, AppEvent, KeyState, Lifecycle, HEIGHT, WIDTH};
use rust_game_engine::mesh::create_vertices_for_quads;
use rust_game_engine::renderer::{
    choose_surface_format, frame_action, frame_draws, primitive_settings, quad_draw,
    AcquireOutcome, Face, FrameAction, FrontFace, PrimitiveSettings, QuadDraw, SurfaceSize,
    NUMBER_QUADS,
};
use rust_game_engine::sampler::SamplerKind;

#[test]
fn surface_size_is_never_zero() {
    let mut size = SurfaceSize::new(0, 0);
    assert_eq!((size.width(), size.height()), (1, 1));
    let size2 = SurfaceSize::new(WIDTH, HEIGHT);
    assert_eq!((size2.width(), size2.height()), (1280, 720));
    assert!(size.resize(800, 600));
    assert_eq!((size.width(), size.height()), (800, 600));
    assert!(!size.resize(0, 600));
    assert!(!size.resize(800, 0));
    assert_eq!((size.width(), size.height()), (800, 600));
}

#[test]
fn picks_the_first_srgb_format_or_else_the_first() {
    assert_eq!(choose_surface_format(&[false, true, true]), 1);
    assert_eq!(choose_surface_format(&[true, false]), 0);
    assert_eq!(choose_surface_format(&[false, false, false]), 0);
}

#[test]
fn each_quad_is_drawn_with_its_own_sampler() {
    assert_eq!(
        quad_draw(0),
        QuadDraw { first_index: 0, end_index: 6, sampler: SamplerKind::RepeatNearest }
    );
    assert_eq!(
        quad_draw(3),
        QuadDraw { first_index: 18, end_index: 24, sampler: SamplerKind::ClampLinear }
    );
    let draws = frame_draws();
    let samplers: Vec<SamplerKind> = draws.iter().map(|d| d.sampler).collect();
    assert_eq!(
        samplers,
        vec![
            SamplerKind::RepeatNearest,
            SamplerKind::MirrorNearest,
            SamplerKind::RepeatLinear,
            SamplerKind::ClampLinear
        ]
    );
}

#[test]
fn a_frame_draws_the_whole_index_buffer_once() {
    let (_, indices) = create_vertices_for_quads(NUMBER_QUADS);
    let draws = frame_draws();
    assert_eq!(draws.len(), NUMBER_QUADS as usize);
    let mut next = 0;
    for draw in &draws {
        assert_eq!(draw.first_index, next);
        assert_eq!(draw.end_index, draw.first_index + 6);
        next = draw.end_index;
    }
    assert_eq!(next as usize, indices.len());
}

#[test]
fn lost_or_outdated_surfaces_are_reconfigured() {
    assert_eq!(frame_action(AcquireOutcome::Acquired), FrameAction::Draw);
    assert_eq!(frame_action(AcquireOutcome::Lost), FrameAction::ReconfigureAndSkip);
    assert_eq!(frame_action(AcquireOutcome::Outdated), FrameAction::ReconfigureAndSkip);
    assert_eq!(frame_action(AcquireOutcome::Timeout), FrameAction::ReportAndSkip);
    assert_eq!(frame_action(AcquireOutcome::OutOfMemory), FrameAction::ReportAndSkip);
    assert_eq!(frame_action(AcquireOutcome::Other), FrameAction::ReportAndSkip);
}

#[test]
fn the_renderer_is_created_on_the_first_resume_only() {
    let mut lifecycle = Lifecycle::new();
    assert!(lifecycle.resumed());
    assert!(!lifecycle.resumed());
    assert!(lifecycle.renderer_created);
}

#[test]
fn window_events_are_routed() {
    let before = Lifecycle::new();
    assert_eq!(before.window_event_action(AppEvent::CloseRequested), AppAction::Exit);
    assert_eq!(before.window_event_action(AppEvent::RedrawRequested), AppAction::Ignore);
    assert_eq!(
        before.window_event_action(AppEvent::Resized { width: 3, height: 4 }),
        AppAction::Ignore
    );
    let mut after = Lifecycle::new();
    after.resumed();
    assert_eq!(after.window_event_action(AppEvent::RedrawRequested), AppAction::Render);
    assert_eq!(
        after.window_event_action(AppEvent::Resized { width: 3, height: 4 }),
        AppAction::Resize { width: 3, height: 4 }
    );
    assert_eq!(
        after.window_event_action(AppEvent::Keyboard { state: KeyState::Pressed, escape: true }),
        AppAction::Exit
    );
    assert_eq!(
        after.window_event_action(AppEvent::Keyboard { state: KeyState::Released, escape: true }),
        AppAction::Ignore
    );
    assert_eq!(
        after.window_event_action(AppEvent::Keyboard { state: KeyState::Pressed, escape: false }),
        AppAction::Ignore
    );
    assert_eq!(after.window_event_action(AppEvent::Other), AppAction::Ignore);
}

#[test]
fn counter_clockwise_triangles_face_the_viewer_and_back_faces_are_culled() {
    assert_eq!(
        primitive_settings(),
        PrimitiveSettings { front_face: FrontFace::Ccw, cull_mode: Some(Face::Back) }
    );
}
