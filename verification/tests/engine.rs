use game_engine::control::{LoopAction, LoopState, SurfaceError};
use game_engine::event::{ElementState, PhysicalKey, WindowEvent};
use game_engine::game::{Test, UpdateReport, KEY_SPACE, KEY_TAB};
use game_engine::input::Input;
use game_engine::render::{pass_calls, IndexFormat, PassCall, RenderCommand, RenderContext};
use game_engine::state::{choose_surface_format, PhysicalSize, State, SurfaceCapabilities, RENDER_ATTACHMENT};

fn press(key: u32) -> WindowEvent {
    WindowEvent::KeyboardInput { state: ElementState::Pressed, physical_key: PhysicalKey::Code(key) }
}

fn release(key: u32) -> WindowEvent {
    WindowEvent::KeyboardInput { state: ElementState::Released, physical_key: PhysicalKey::Code(key) }
}

fn caps(srgb: Vec<bool>) -> SurfaceCapabilities {
    SurfaceCapabilities { format_is_srgb: srgb, present_mode_count: 1, alpha_mode_count: 1 }
}

fn size(width: u32, height: u32) -> PhysicalSize {
    PhysicalSize { width, height }
}

#[test]
fn new_input_holds_no_key() {
    let input = Input::new();
    assert!(!input.is_key_pressed(0));
    assert!(!input.is_key_pressed(KEY_SPACE));
}

#[test]
fn press_then_release() {
    let mut input = Input::new();
    input.update_keys(&press(10));
    assert!(input.is_key_pressed(10));
    assert!(!input.is_key_pressed(11));
    input.update_keys(&press(10));
    assert!(input.is_key_pressed(10));
    input.update_keys(&release(10));
    assert!(!input.is_key_pressed(10));
}

#[test]
fn release_of_unheld_key_is_harmless() {
    let mut input = Input::new();
    input.update_keys(&press(3));
    input.update_keys(&release(4));
    assert!(input.is_key_pressed(3));
    assert!(!input.is_key_pressed(4));
}

#[test]
fn last_event_about_a_key_decides() {
    let mut input = Input::new();
    for e in [press(1), press(2), release(1), press(1), release(2), WindowEvent::RedrawRequested] {
        input.update_keys(&e);
    }
    assert!(input.is_key_pressed(1));
    assert!(!input.is_key_pressed(2));
}

#[test]
fn other_events_leave_keys_alone() {
    let mut input = Input::new();
    input.update_keys(&press(7));
    let unidentified = WindowEvent::KeyboardInput {
        state: ElementState::Released,
        physical_key: PhysicalKey::Unidentified,
    };
    for e in [
        unidentified,
        WindowEvent::Resized { width: 1, height: 1 },
        WindowEvent::CloseRequested,
        WindowEvent::RedrawRequested,
        WindowEvent::Other,
    ] {
        input.update_keys(&e);
    }
    assert!(input.is_key_pressed(7));
}

#[test]
fn format_prefers_first_srgb() {
    assert_eq!(choose_surface_format(&vec![false, true, true]), 1);
    assert_eq!(choose_surface_format(&vec![true, false]), 0);
    assert_eq!(choose_surface_format(&vec![false, false, false]), 0);
    assert_eq!(choose_surface_format(&vec![false]), 0);
}

#[test]
fn new_state_configuration() {
    let st = State::new(size(640, 480), &caps(vec![false, false, true]));
    let c = st.config();
    assert_eq!(st.size(), size(640, 480));
    assert_eq!(c.format, 2);
    assert_eq!(c.present_mode, 0);
    assert_eq!(c.alpha_mode, 0);
    assert_eq!((c.width, c.height), (640, 480));
    assert_eq!(c.desired_maximum_frame_latency, 2);
    assert_eq!(c.usage, RENDER_ATTACHMENT);
    assert_eq!(c.usage, 16);
    assert!(c.view_formats.is_empty());
}

#[test]
fn resize_ignores_zero_sides() {
    let mut st = State::new(size(640, 480), &caps(vec![true]));
    assert!(!st.resize(size(0, 100)));
    assert!(!st.resize(size(100, 0)));
    assert!(!st.resize(size(0, 0)));
    assert_eq!(st.size(), size(640, 480));
    assert_eq!((st.config().width, st.config().height), (640, 480));
}

#[test]
fn resize_takes_new_size() {
    let mut st = State::new(size(640, 480), &caps(vec![false, true]));
    assert!(st.resize(size(800, 600)));
    assert_eq!(st.size(), size(800, 600));
    let c = st.config();
    assert_eq!((c.width, c.height, c.format), (800, 600, 1));
}

#[test]
fn resize_to_same_size_changes_nothing() {
    let mut st = State::new(size(320, 200), &caps(vec![true]));
    let before = st.config().clone();
    assert!(st.resize(size(320, 200)));
    assert_eq!(st.config(), &before);
    assert_eq!(st.size(), size(320, 200));
}

#[test]
fn state_consumes_no_event() {
    let mut st = State::new(size(1, 1), &caps(vec![true]));
    assert!(!st.input(&WindowEvent::CloseRequested));
    assert!(!st.input(&press(1)));
}

fn new_loop() -> LoopState {
    LoopState::new(State::new(size(0, 0), &caps(vec![true])))
}

#[test]
fn redraw_before_resize_does_nothing() {
    let mut l = new_loop();
    assert!(!l.surface_configured());
    assert_eq!(l.window_event(WindowEvent::RedrawRequested), LoopAction::Nothing);
    assert_eq!(l.window_event(press(4)), LoopAction::Nothing);
    assert_eq!(l.window_event(WindowEvent::RedrawRequested), LoopAction::Nothing);
}

#[test]
fn resize_then_redraw_renders() {
    let mut l = new_loop();
    assert_eq!(l.window_event(WindowEvent::Resized { width: 800, height: 600 }), LoopAction::Configure);
    let c = l.state().config();
    assert_eq!((c.width, c.height), (800, 600));
    assert!(l.surface_configured());
    assert_eq!(l.window_event(WindowEvent::RedrawRequested), LoopAction::Render);
}

#[test]
fn zero_resize_still_marks_configured() {
    let mut l = new_loop();
    assert_eq!(l.window_event(WindowEvent::Resized { width: 0, height: 600 }), LoopAction::Nothing);
    assert!(l.surface_configured());
    assert_eq!(l.window_event(WindowEvent::RedrawRequested), LoopAction::Render);
}

#[test]
fn close_request_exits() {
    let mut l = new_loop();
    assert_eq!(l.window_event(WindowEvent::CloseRequested), LoopAction::Exit);
    assert_eq!(l.window_event(WindowEvent::Other), LoopAction::Nothing);
}

#[test]
fn loop_tracks_keys() {
    let mut l = new_loop();
    l.window_event(press(9));
    assert!(l.input().is_key_pressed(9));
    l.window_event(release(9));
    assert!(!l.input().is_key_pressed(9));
}

#[test]
fn render_results() {
    let mut l = new_loop();
    l.window_event(WindowEvent::Resized { width: 30, height: 40 });
    assert_eq!(l.render_result(Ok(())), LoopAction::Nothing);
    assert_eq!(l.render_result(Err(SurfaceError::Timeout)), LoopAction::Nothing);
    assert_eq!(l.render_result(Err(SurfaceError::OutOfMemory)), LoopAction::Exit);
    assert_eq!(l.render_result(Err(SurfaceError::Other)), LoopAction::Exit);
    for e in [SurfaceError::Lost, SurfaceError::Outdated] {
        assert_eq!(l.render_result(Err(e)), LoopAction::Configure);
        let c = l.state().config();
        assert_eq!((c.width, c.height), (30, 40));
    }
    assert_eq!(l.state().size(), size(30, 40));
}

#[test]
fn lost_surface_of_zero_size_is_not_configured() {
    let mut l = new_loop();
    assert_eq!(l.render_result(Err(SurfaceError::Lost)), LoopAction::Nothing);
}

fn draw(p: usize, b: usize, v: usize, i: usize, n: u32) -> RenderCommand {
    RenderCommand::DrawObject { pipeline: p, bind_group: b, vertex_buffer: v, index_buffer: i, num_indices: n }
}

#[test]
fn context_queues_and_clears() {
    let mut ctx = RenderContext::new();
    assert!(ctx.commands().is_empty());
    ctx.add(draw(1, 2, 3, 4, 6));
    ctx.add(draw(5, 6, 7, 8, 9));
    assert_eq!(ctx.commands(), &[draw(1, 2, 3, 4, 6), draw(5, 6, 7, 8, 9)]);
    ctx.execute();
    assert!(ctx.commands().is_empty());
}

#[test]
fn pass_calls_per_command() {
    let calls = pass_calls(&[draw(1, 2, 3, 4, 6), draw(5, 6, 7, 8, 9)]);
    assert_eq!(calls.len(), 10);
    assert_eq!(
        calls[..5],
        [
            PassCall::SetPipeline { pipeline: 1 },
            PassCall::SetBindGroup { index: 0, bind_group: 2 },
            PassCall::SetVertexBuffer { slot: 0, buffer: 3 },
            PassCall::SetIndexBuffer { buffer: 4, format: IndexFormat::Uint16 },
            PassCall::DrawIndexed { first_index: 0, end_index: 6, base_vertex: 0, first_instance: 0, end_instance: 1 },
        ]
    );
    assert_eq!(calls[5], PassCall::SetPipeline { pipeline: 5 });
    assert_eq!(
        calls[9],
        PassCall::DrawIndexed { first_index: 0, end_index: 9, base_vertex: 0, first_instance: 0, end_instance: 1 }
    );
    assert!(pass_calls(&[]).is_empty());
}

#[test]
fn game_counts_while_space_held() {
    let mut game = Test::new();
    assert_eq!(game.counter(), 0);
    let mut input = Input::new();
    assert_eq!(game.update(&input), UpdateReport { id: None, tab_pressed: false });
    input.update_keys(&press(KEY_SPACE));
    assert_eq!(game.update(&input), UpdateReport { id: Some(1), tab_pressed: false });
    assert_eq!(game.update(&input), UpdateReport { id: Some(2), tab_pressed: false });
    input.update_keys(&press(KEY_TAB));
    input.update_keys(&release(KEY_SPACE));
    assert_eq!(game.update(&input), UpdateReport { id: None, tab_pressed: true });
    assert_eq!(game.counter(), 2);
}

#[test]
fn calls_of_joined_commands_are_joined_calls() {
    let a = [draw(1, 1, 1, 1, 3)];
    let b = [draw(2, 2, 2, 2, 6), draw(3, 3, 3, 3, 9)];
    let mut joined = pass_calls(&a);
    joined.extend(pass_calls(&b));
    assert_eq!(pass_calls(&[a[0], b[0], b[1]]), joined);
    assert_eq!(joined.len(), 15);
}

#[test]
fn last_drawable_resize_wins() {
    let mut st = State::new(size(10, 10), &caps(vec![true]));
    st.resize(size(50, 60));
    st.resize(size(0, 70));
    st.resize(size(70, 80));
    assert_eq!(st.size(), size(70, 80));
    assert_eq!((st.config().width, st.config().height), (70, 80));
}
