//! End-to-end scenario: one whole frame over uploaded triangle geometry and
//! a linked pass-through pipeline, leaving no residual GPU error.

use render_harness::config::ContextConfig;
use render_harness::diagnostics::ErrorQueue;
use render_harness::frame::{check_commands, opaque_black, FrameLoop, GpuCommand, InputEvent, RenderState};
use render_harness::geometry::{upload, HandleAllocator, VertexLayout};
use render_harness::shader::{compile_outcome, link_outcome, pass_through_units, plan_link};

#[test]
fn one_frame_over_a_triangle() {
    // The host-side triangle, three position-only vertices.
    let vertices: Vec<u32> = [-0.5f32, -0.5, 0.0, 0.5, -0.5, 0.0, 0.0, 0.5, 0.0]
        .iter()
        .map(|v| v.to_bits())
        .collect();

    // Upload: one buffer object, one vertex-array object, three vertices.
    let mut alloc = HandleAllocator::new();
    let layout = VertexLayout::position_only();
    let geometry = upload(&mut alloc, &vertices, &layout).unwrap();
    assert_eq!(geometry.vertex_count, 3);

    // Compile both pass-through units (the driver reports success for each),
    // admit them for linking, and link the program.
    let units = pass_through_units();
    assert_eq!(units.len(), 2);
    let outcomes = vec![
        compile_outcome(10, 1, String::new()),
        compile_outcome(11, 1, String::new()),
    ];
    let handles = plan_link(outcomes).unwrap();
    assert_eq!(handles, vec![10, 11]);
    let program = link_outcome(12, 1, String::new()).unwrap();

    // One frame iteration with no pending events.
    let config = ContextConfig::standard();
    let mut lp = FrameLoop::new(config.width as i32, config.height as i32);
    lp.start();
    let render = RenderState { program, geometry, uniform_location: -1 };
    let events: Vec<InputEvent> = Vec::new();
    let cmds = lp.frame(&events, &render, None);

    // The frame clears, binds the program, draws exactly three vertices as a
    // triangle list, and swaps, in that order.
    assert_eq!(
        cmds,
        vec![
            GpuCommand::ClearColor { color: opaque_black() },
            GpuCommand::Clear,
            GpuCommand::UseProgram { program: 12 },
            GpuCommand::BindVertexArray { array: geometry.vao },
            GpuCommand::DrawTriangles { first: 0, count: 3 },
            GpuCommand::SwapBuffers,
        ]
    );

    // Replaying the frame against the driver's acceptance rules queues no
    // error code: the error queue stays empty.
    let mut queue = ErrorQueue::new();
    check_commands(&cmds, &render, &mut queue);
    let diags = queue.drain();
    assert!(diags.is_empty());

    // The loop is still running; nothing requested a close.
    assert!(lp.should_continue());
    assert!(!lp.close_requested);
}
