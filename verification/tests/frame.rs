use render_harness::diagnostics::ErrorQueue;
use render_harness::frame::{
    check_commands, opaque_black, ColorBits, FrameLoop, GpuCommand, InputEvent, LoopPhase,
    RenderState,
};
use render_harness::geometry::GeometryBuffer;
use render_harness::shader::link_outcome;

fn test_render_state() -> RenderState {
    RenderState {
        program: link_outcome(3, 1, String::new()).unwrap(),
        geometry: GeometryBuffer { vbo: 1, vao: 2, vertex_count: 3 },
        uniform_location: -1,
    }
}

#[test]
fn escape_sets_the_close_flag_once() {
    let mut lp = FrameLoop::new(800, 600);
    lp.start();
    assert!(!lp.close_requested);
    assert!(lp.should_continue());

    let cmd = lp.process_event(&InputEvent::EscapePressed);
    assert_eq!(cmd, None);
    assert!(lp.close_requested);
    assert_eq!(lp.phase, LoopPhase::Closing);
    assert!(!lp.should_continue());

    let again = lp;
    let cmd = lp.process_event(&InputEvent::EscapePressed);
    assert_eq!(cmd, None);
    assert_eq!(lp, again);
}

#[test]
fn other_events_are_ignored() {
    let mut lp = FrameLoop::new(800, 600);
    lp.start();
    let before = lp;
    let cmd = lp.process_event(&InputEvent::Other);
    assert_eq!(cmd, None);
    assert_eq!(lp, before);
}

#[test]
fn resize_updates_the_viewport_exactly() {
    let mut lp = FrameLoop::new(800, 600);
    lp.start();
    let cmd = lp.process_event(&InputEvent::FramebufferResized { width: 1024, height: 768 });
    assert_eq!(
        cmd,
        Some(GpuCommand::Viewport { x: 0, y: 0, width: 1024, height: 768 })
    );
    assert_eq!(lp.viewport_width, 1024);
    assert_eq!(lp.viewport_height, 768);
}

#[test]
fn resize_command_precedes_the_clear_in_a_frame() {
    let mut lp = FrameLoop::new(800, 600);
    lp.start();
    let events = vec![
        InputEvent::Other,
        InputEvent::FramebufferResized { width: 640, height: 480 },
    ];
    let cmds = lp.frame(&events, &test_render_state(), None);
    let viewport_at = cmds
        .iter()
        .position(|c| *c == GpuCommand::Viewport { x: 0, y: 0, width: 640, height: 480 })
        .expect("the resize must emit a viewport update");
    let clear_at = cmds
        .iter()
        .position(|c| *c == GpuCommand::Clear)
        .expect("a frame must clear");
    assert!(viewport_at < clear_at);
}

#[test]
fn frame_emits_the_fixed_tail_in_order() {
    let mut lp = FrameLoop::new(800, 600);
    lp.start();
    let events: Vec<InputEvent> = Vec::new();
    let cmds = lp.frame(&events, &test_render_state(), None);
    assert_eq!(
        cmds,
        vec![
            GpuCommand::ClearColor { color: opaque_black() },
            GpuCommand::Clear,
            GpuCommand::UseProgram { program: 3 },
            GpuCommand::BindVertexArray { array: 2 },
            GpuCommand::DrawTriangles { first: 0, count: 3 },
            GpuCommand::SwapBuffers,
        ]
    );
}

#[test]
fn frame_refreshes_the_uniform_after_binding_the_program() {
    let mut lp = FrameLoop::new(800, 600);
    lp.start();
    let events: Vec<InputEvent> = Vec::new();
    let color = ColorBits {
        red_bits: 0.25f32.to_bits(),
        green_bits: 0.5f32.to_bits(),
        blue_bits: 0.75f32.to_bits(),
        alpha_bits: 1.0f32.to_bits(),
    };
    let mut render = test_render_state();
    render.uniform_location = 4;
    let cmds = lp.frame(&events, &render, Some(color));
    assert_eq!(cmds.len(), 7);
    assert_eq!(cmds[2], GpuCommand::UseProgram { program: 3 });
    assert_eq!(cmds[3], GpuCommand::Uniform4 { location: 4, color });
}

#[test]
fn close_request_finishes_the_current_frame() {
    let mut lp = FrameLoop::new(800, 600);
    lp.start();
    let events = vec![InputEvent::EscapePressed];
    let cmds = lp.frame(&events, &test_render_state(), None);
    assert_eq!(*cmds.last().unwrap(), GpuCommand::SwapBuffers);
    assert!(!lp.should_continue());
    lp.finish();
    assert_eq!(lp.phase, LoopPhase::Terminated);
}

#[test]
fn opaque_black_has_unit_alpha() {
    let c = opaque_black();
    assert_eq!(f32::from_bits(c.red_bits), 0.0);
    assert_eq!(f32::from_bits(c.green_bits), 0.0);
    assert_eq!(f32::from_bits(c.blue_bits), 0.0);
    assert_eq!(f32::from_bits(c.alpha_bits), 1.0);
}

#[test]
fn refused_commands_queue_their_error_codes() {
    let render = test_render_state();
    let mut queue = ErrorQueue::new();
    let cmds = vec![
        GpuCommand::Viewport { x: 0, y: 0, width: -1, height: 480 },
        GpuCommand::UseProgram { program: 99 },
        GpuCommand::DrawTriangles { first: 0, count: 4 },
    ];
    check_commands(&cmds, &render, &mut queue);
    let diags = queue.drain();
    assert_eq!(diags.len(), 3);
}
