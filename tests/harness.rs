use viewport::demos::{
    check_indices, pentagon_indices, MandelbrotDresser, PentagonDresser, TriangleDresser,
    PENTAGON_VERTEX_COUNT,
};
use viewport::event_loop::{
    handle_event, handle_frame_result, ControlFlow, Event, Key, KeyState, LoopAction, WindowEvent,
};
use viewport::format::{preferred_index, select_surface_format};
use viewport::frame::{clear_color, DrawCommand, FrameOp, IndexFormat, Span, SurfaceError};
use viewport::size::Size;
use viewport::viewport::Viewport;
use wgpu::{CompositeAlphaMode, PresentMode, TextureFormat};

fn viewport(width: u32, height: u32) -> Viewport {
    Viewport::new(
        Size::new(width, height),
        &vec![TextureFormat::Bgra8Unorm, TextureFormat::Bgra8UnormSrgb],
        &vec![PresentMode::Fifo, PresentMode::Mailbox],
        &vec![CompositeAlphaMode::Opaque],
    )
    .unwrap()
}

fn span(start: u32, end: u32) -> Span {
    Span { start, end }
}

fn commands(ops: &[FrameOp]) -> Vec<DrawCommand> {
    ops.iter()
        .filter_map(|op| match op {
            FrameOp::Command { command } => Some(*command),
            _ => None,
        })
        .collect()
}

#[test]
fn preferred_index_takes_first_marked() {
    assert_eq!(preferred_index(&vec![false, true, true]), Some(1));
    assert_eq!(preferred_index(&vec![true, false]), Some(0));
}

#[test]
fn preferred_index_falls_back_to_first() {
    assert_eq!(preferred_index(&vec![false, false, false]), Some(0));
    assert_eq!(preferred_index(&vec![]), None);
}

#[test]
fn surface_format_prefers_first_srgb() {
    let formats = vec![
        TextureFormat::Rgba8Unorm,
        TextureFormat::Bgra8Unorm,
        TextureFormat::Bgra8UnormSrgb,
        TextureFormat::Rgba8UnormSrgb,
    ];
    assert_eq!(select_surface_format(&formats), Some(TextureFormat::Bgra8UnormSrgb));
}

#[test]
fn surface_format_without_srgb_takes_first() {
    let formats = vec![TextureFormat::Rgba16Float, TextureFormat::Bgra8Unorm];
    assert_eq!(select_surface_format(&formats), Some(TextureFormat::Rgba16Float));
    assert_eq!(select_surface_format(&vec![]), None);
}

#[test]
fn new_viewport_configures_at_its_size() {
    let v = viewport(1000, 800);
    assert_eq!(v.size(), Size::new(1000, 800));
    assert_eq!(v.surface_format(), TextureFormat::Bgra8UnormSrgb);
    let c = v.config();
    assert_eq!((c.width, c.height), (1000, 800));
    assert_eq!(c.format, TextureFormat::Bgra8UnormSrgb);
    assert_eq!(c.present_mode, PresentMode::Fifo);
    assert_eq!(c.alpha_mode, CompositeAlphaMode::Opaque);
    assert_eq!(v.frames(), 0);
}

#[test]
fn new_viewport_refuses_missing_capabilities() {
    let formats = vec![TextureFormat::Bgra8Unorm];
    let modes = vec![PresentMode::Fifo];
    let alphas = vec![CompositeAlphaMode::Opaque];
    assert!(Viewport::new(Size::new(0, 10), &formats, &modes, &alphas).is_none());
    assert!(Viewport::new(Size::new(10, 10), &vec![], &modes, &alphas).is_none());
    assert!(Viewport::new(Size::new(10, 10), &formats, &vec![], &alphas).is_none());
    assert!(Viewport::new(Size::new(10, 10), &formats, &modes, &vec![]).is_none());
    assert!(Viewport::new(Size::new(10, 10), &formats, &modes, &alphas).is_some());
}

#[test]
fn resize_keeps_last_drawable_size() {
    let mut v = viewport(1000, 1000);
    let requests = [(640, 480), (0, 300), (800, 600), (200, 0), (0, 0)];
    for (w, h) in requests {
        v.resize(Size::new(w, h));
    }
    assert_eq!(v.size(), Size::new(800, 600));
    let c = v.config();
    assert_eq!((c.width, c.height), (800, 600));
}

#[test]
fn resize_to_zero_changes_nothing() {
    let mut v = viewport(1000, 700);
    assert!(v.resize(Size::new(0, 700)).is_none());
    assert!(v.resize(Size::new(1000, 0)).is_none());
    assert_eq!(v.size(), Size::new(1000, 700));
    let c = v.config();
    assert_eq!((c.width, c.height), (1000, 700));
}

#[test]
fn resize_returns_configuration_to_apply() {
    let mut v = viewport(1000, 700);
    let c = v.resize(Size::new(320, 240)).unwrap();
    assert_eq!((c.width, c.height), (320, 240));
    assert_eq!(c.format, TextureFormat::Bgra8UnormSrgb);
}

#[test]
fn failed_acquisition_submits_nothing() {
    let mut v = viewport(100, 100);
    let dresser = TriangleDresser::new(3);
    for e in [
        SurfaceError::Timeout,
        SurfaceError::Outdated,
        SurfaceError::Lost,
        SurfaceError::OutOfMemory,
    ] {
        assert_eq!(v.render(Err(e), &dresser), Err(e));
    }
    assert_eq!(v.frames(), 0);
}

#[test]
fn frame_opens_one_pass_then_submits_and_presents() {
    let mut v = viewport(100, 100);
    let ops = v.render(Ok(()), &MandelbrotDresser::new()).unwrap();
    assert_eq!(ops.len(), 6);
    assert_eq!(ops[0], FrameOp::BeginPass { clear: clear_color() });
    assert_eq!(ops[3], FrameOp::EndPass);
    assert_eq!(ops[4], FrameOp::Submit);
    assert_eq!(ops[5], FrameOp::Present);
    let begins = ops.iter().filter(|op| matches!(op, FrameOp::BeginPass { .. })).count();
    assert_eq!(begins, 1);
    assert_eq!(v.frames(), 1);
    v.render(Ok(()), &MandelbrotDresser::new()).unwrap();
    assert_eq!(v.frames(), 2);
}

#[test]
fn clear_color_is_dark_blue_gray() {
    let c = clear_color();
    assert_eq!((c.r, c.g, c.b, c.a), (100, 200, 300, 1000));
}

#[test]
fn triangle_frame_draws_three_vertices() {
    let mut v = viewport(1000, 1000);
    let ops = v.render(Ok(()), &TriangleDresser::new(3)).unwrap();
    assert_eq!(
        commands(&ops),
        vec![
            DrawCommand::SetPipeline { pipeline: 0 },
            DrawCommand::SetVertexBuffer { slot: 0, buffer: 0 },
            DrawCommand::Draw { vertices: span(0, 3), instances: span(0, 1) },
        ]
    );
}

#[test]
fn pentagon_frame_binds_texture_before_indexed_draw() {
    let indices = pentagon_indices();
    assert_eq!(indices, vec![0, 1, 4, 1, 2, 4, 2, 3, 4]);
    let mut v = viewport(1000, 1000);
    let ops = v.render(Ok(()), &PentagonDresser::new(indices.len() as u32)).unwrap();
    assert_eq!(
        commands(&ops),
        vec![
            DrawCommand::SetPipeline { pipeline: 0 },
            DrawCommand::SetBindGroup { index: 0, group: 0 },
            DrawCommand::SetVertexBuffer { slot: 0, buffer: 0 },
            DrawCommand::SetIndexBuffer { buffer: 1, format: IndexFormat::Uint16 },
            DrawCommand::DrawIndexed { indices: span(0, 9), base_vertex: 0, instances: span(0, 1) },
        ]
    );
}

#[test]
fn pentagon_indices_name_its_vertices() {
    assert!(check_indices(&pentagon_indices(), PENTAGON_VERTEX_COUNT));
    assert!(!check_indices(&pentagon_indices(), 4));
    assert!(check_indices(&vec![], 0));
}

#[test]
fn lost_surface_is_configured_at_last_size() {
    let mut v = viewport(1000, 1000);
    v.resize(Size::new(640, 480));
    v.resize(Size::new(0, 480));
    let mut cf = ControlFlow::Running;
    match handle_frame_result(&mut v, &mut cf, Err(SurfaceError::Lost)) {
        LoopAction::Configure { config } => assert_eq!((config.width, config.height), (640, 480)),
        other => panic!("unexpected action {:?}", other),
    }
    assert_eq!(cf, ControlFlow::Running);
    assert_eq!(v.size(), Size::new(640, 480));
}

#[test]
fn out_of_memory_terminates() {
    let mut v = viewport(10, 10);
    let mut cf = ControlFlow::Running;
    let a = handle_frame_result(&mut v, &mut cf, Err(SurfaceError::OutOfMemory));
    assert!(matches!(a, LoopAction::Nothing));
    assert_eq!(cf, ControlFlow::Exit);
}

#[test]
fn transient_errors_are_reported() {
    let mut v = viewport(10, 10);
    let mut cf = ControlFlow::Running;
    for e in [SurfaceError::Timeout, SurfaceError::Outdated] {
        let a = handle_frame_result(&mut v, &mut cf, Err(e));
        assert!(matches!(a, LoopAction::Report { error } if error == e));
    }
    assert!(matches!(handle_frame_result(&mut v, &mut cf, Ok(())), LoopAction::Nothing));
    assert_eq!(cf, ControlFlow::Running);
}

#[test]
fn resize_events_configure_drawable_sizes() {
    let mut v = viewport(10, 10);
    let mut cf = ControlFlow::Running;
    let e = Event::WindowEvent {
        own_window: true,
        event: WindowEvent::Resized { size: Size::new(30, 20) },
    };
    match handle_event(&mut v, &mut cf, e) {
        LoopAction::Configure { config } => assert_eq!((config.width, config.height), (30, 20)),
        other => panic!("unexpected action {:?}", other),
    }
    let e = Event::WindowEvent {
        own_window: true,
        event: WindowEvent::ScaleFactorChanged { new_inner_size: Size::new(0, 20) },
    };
    assert!(matches!(handle_event(&mut v, &mut cf, e), LoopAction::Nothing));
    assert_eq!(v.size(), Size::new(30, 20));
    let e = Event::WindowEvent {
        own_window: false,
        event: WindowEvent::Resized { size: Size::new(50, 50) },
    };
    assert!(matches!(handle_event(&mut v, &mut cf, e), LoopAction::Nothing));
    assert_eq!(v.size(), Size::new(30, 20));
}

#[test]
fn escape_and_close_terminate() {
    let mut v = viewport(10, 10);
    let mut cf = ControlFlow::Running;
    let released = Event::WindowEvent {
        own_window: true,
        event: WindowEvent::KeyboardInput { state: KeyState::Released, key: Some(Key::Escape) },
    };
    handle_event(&mut v, &mut cf, released);
    assert_eq!(cf, ControlFlow::Running);
    let other = Event::WindowEvent {
        own_window: true,
        event: WindowEvent::KeyboardInput { state: KeyState::Pressed, key: Some(Key::Other) },
    };
    handle_event(&mut v, &mut cf, other);
    assert_eq!(cf, ControlFlow::Running);
    let escape = Event::WindowEvent {
        own_window: true,
        event: WindowEvent::KeyboardInput { state: KeyState::Pressed, key: Some(Key::Escape) },
    };
    handle_event(&mut v, &mut cf, escape);
    assert_eq!(cf, ControlFlow::Exit);

    let mut cf = ControlFlow::Running;
    let close = Event::WindowEvent { own_window: true, event: WindowEvent::CloseRequested };
    handle_event(&mut v, &mut cf, close);
    assert_eq!(cf, ControlFlow::Exit);
}

#[test]
fn terminating_loop_ignores_events() {
    let mut v = viewport(10, 10);
    let mut cf = ControlFlow::Exit;
    assert!(matches!(
        handle_event(&mut v, &mut cf, Event::RedrawRequested { own_window: true }),
        LoopAction::Nothing
    ));
    assert!(matches!(handle_event(&mut v, &mut cf, Event::MainEventsCleared), LoopAction::Nothing));
    assert_eq!(cf, ControlFlow::Exit);
}

#[test]
fn redraw_and_cleared_events_drive_frames() {
    let mut v = viewport(10, 10);
    let mut cf = ControlFlow::Running;
    assert!(matches!(
        handle_event(&mut v, &mut cf, Event::RedrawRequested { own_window: true }),
        LoopAction::DrawFrame
    ));
    assert!(matches!(
        handle_event(&mut v, &mut cf, Event::RedrawRequested { own_window: false }),
        LoopAction::Nothing
    ));
    assert!(matches!(
        handle_event(&mut v, &mut cf, Event::MainEventsCleared),
        LoopAction::RequestRedraw
    ));
    assert!(matches!(handle_event(&mut v, &mut cf, Event::Other), LoopAction::Nothing));
    assert_eq!(cf, ControlFlow::Running);
}

#[test]
fn input_and_update_change_nothing() {
    let mut v = viewport(10, 10);
    assert!(!v.input(&WindowEvent::CloseRequested));
    v.update();
    assert_eq!(v.size(), Size::new(10, 10));
}

#[test]
fn resize_accepts_largest_size() {
    let mut v = viewport(1, 1);
    let c = v.resize(Size::new(u32::MAX, u32::MAX)).unwrap();
    assert_eq!((c.width, c.height), (u32::MAX, u32::MAX));
    assert!(v.resize(Size::new(u32::MAX, 0)).is_none());
    assert_eq!(v.size(), Size::new(u32::MAX, u32::MAX));
}

#[test]
fn drawable_needs_both_dimensions() {
    assert!(Size::new(1, 1).drawable());
    assert!(!Size::new(0, 1).drawable());
    assert!(!Size::new(1, 0).drawable());
}
