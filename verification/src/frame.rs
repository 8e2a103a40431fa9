//! The frame loop: event projection, the ordered per-frame command sequence,
//! and the model of how the driver receives it.
//!
//! Each iteration the loop projects the pending input events onto its single
//! state transition (escape raises the close request) and onto viewport
//! updates (a framebuffer resize), then emits the fixed tail: clear to the
//! background, bind the program, refresh the animated uniform when one is
//! set, bind the geometry, draw it as a triangle list, and present. The
//! driver layer performs the commands in order; this module proves what the
//! sequence holds and that a clean frame queues no error code.

use vstd::prelude::*;
use crate::diagnostics::ErrorQueue;
use crate::geometry::GeometryBuffer;
use crate::shader::ShaderProgram;

verus! {

/// A color as four 32-bit float bit patterns; the loop core holds no floats,
/// so channels travel as raw bits and the driver reinterprets them.
#[derive(Clone, Copy, Debug, PartialEq, Eq, Structural)]
pub struct ColorBits {
    pub red_bits: u32,
    pub green_bits: u32,
    pub blue_bits: u32,
    pub alpha_bits: u32,
}

/// The fixed background: black, fully opaque. The bit pattern of 1.0 is
/// 0x3F80_0000; every zero channel has pattern zero.
pub open spec fn spec_opaque_black() -> ColorBits {
    ColorBits { red_bits: 0, green_bits: 0, blue_bits: 0, alpha_bits: 0x3F80_0000 }
}

/// The fixed background color, black and fully opaque.
pub fn opaque_black() -> (c: ColorBits)
    ensures
        c == spec_opaque_black(),
{
    ColorBits { red_bits: 0, green_bits: 0, blue_bits: 0, alpha_bits: 0x3F80_0000 }
}

/// One decoded input event, as the loop core sees it.
#[derive(Clone, Copy, Debug, PartialEq, Eq, Structural)]
pub enum InputEvent {
    /// The escape key was pressed: the single close-request input.
    EscapePressed,
    /// The framebuffer was resized to the given dimensions.
    FramebufferResized { width: i32, height: i32 },
    /// Any other event; the loop core ignores it.
    Other,
}

/// One GPU or windowing call the loop asks the driver layer to perform.
#[derive(Clone, Copy, Debug, PartialEq, Eq, Structural)]
pub enum GpuCommand {
    /// Set the viewport rectangle.
    Viewport { x: i32, y: i32, width: i32, height: i32 },
    /// Set the clear color.
    ClearColor { color: ColorBits },
    /// Clear the color buffer.
    Clear,
    /// Bind the program for drawing.
    UseProgram { program: u32 },
    /// Write a four-component uniform.
    Uniform4 { location: i32, color: ColorBits },
    /// Bind the vertex-array object.
    BindVertexArray { array: u32 },
    /// Draw a triangle list from the bound array.
    DrawTriangles { first: u32, count: u32 },
    /// Present: swap front and back buffers, the frame boundary.
    SwapBuffers,
}

/// The lifecycle phase of the loop.
#[derive(Clone, Copy, Debug, PartialEq, Eq, Structural)]
pub enum LoopPhase {
    Initialized,
    Running,
    Closing,
    Terminated,
}

/// The loop's persistent state: its phase, the close-request flag, and the
/// viewport dimensions last handed to the driver.
#[derive(Clone, Copy, Debug, PartialEq, Eq, Structural)]
pub struct FrameLoop {
    pub phase: LoopPhase,
    pub close_requested: bool,
    pub viewport_width: i32,
    pub viewport_height: i32,
}

/// What one event does to the loop state: escape raises the close request
/// and moves a running loop to closing, a resize records the new viewport,
/// and every other event changes nothing.
pub open spec fn event_step(s: FrameLoop, e: InputEvent) -> FrameLoop {
    match e {
        InputEvent::EscapePressed => FrameLoop {
            phase: if s.phase is Running {
                LoopPhase::Closing
            } else {
                s.phase
            },
            close_requested: true,
            viewport_width: s.viewport_width,
            viewport_height: s.viewport_height,
        },
        InputEvent::FramebufferResized { width, height } => FrameLoop {
            phase: s.phase,
            close_requested: s.close_requested,
            viewport_width: width,
            viewport_height: height,
        },
        InputEvent::Other => s,
    }
}

/// The command one event asks of the driver: a resize updates the viewport
/// to exactly (0, 0, width, height); no other event issues a command.
pub open spec fn event_command(e: InputEvent) -> Option<GpuCommand> {
    match e {
        InputEvent::FramebufferResized { width, height } => Some(
            GpuCommand::Viewport { x: 0, y: 0, width, height },
        ),
        _ => None,
    }
}

/// The sequence a possible command contributes: one element or none.
pub open spec fn command_seq(c: Option<GpuCommand>) -> Seq<GpuCommand> {
    match c {
        Some(cmd) => seq![cmd],
        None => Seq::<GpuCommand>::empty(),
    }
}

/// The state after a whole event batch, in order.
pub open spec fn events_step(s: FrameLoop, es: Seq<InputEvent>) -> FrameLoop
    decreases es.len(),
{
    if es.len() == 0 {
        s
    } else {
        events_step(event_step(s, es[0]), es.drop_first())
    }
}

/// The commands a whole event batch emits, in order.
pub open spec fn events_commands(es: Seq<InputEvent>) -> Seq<GpuCommand>
    decreases es.len(),
{
    if es.len() == 0 {
        Seq::<GpuCommand>::empty()
    } else {
        command_seq(event_command(es[0])) + events_commands(es.drop_first())
    }
}

/// Batch processing peels events from the front, so appending one event
/// applies it last.
pub proof fn lemma_events_step_push(s: FrameLoop, es: Seq<InputEvent>, e: InputEvent)
    ensures
        events_step(s, es.push(e)) == event_step(events_step(s, es), e),
    decreases es.len(),
{
    if es.len() == 0 {
        assert(es.push(e)[0] == e);
        assert(es.push(e).drop_first() =~= es);
        assert(events_step(event_step(s, e), es) == event_step(s, e));
        assert(events_step(s, es.push(e)) == events_step(event_step(s, e), es));
    } else {
        assert(es.push(e)[0] == es[0]);
        assert(es.push(e).drop_first() =~= es.drop_first().push(e));
        lemma_events_step_push(event_step(s, es[0]), es.drop_first(), e);
    }
}

/// Appending one event appends its command contribution.
pub proof fn lemma_events_commands_push(es: Seq<InputEvent>, e: InputEvent)
    ensures
        events_commands(es.push(e)) == events_commands(es) + command_seq(event_command(e)),
    decreases es.len(),
{
    if es.len() == 0 {
        assert(es.push(e).drop_first() =~= es);
        assert(events_commands(es.push(e)) =~= events_commands(es) + command_seq(
            event_command(e),
        ));
    } else {
        assert(es.push(e).drop_first() =~= es.drop_first().push(e));
        lemma_events_commands_push(es.drop_first(), e);
        assert(events_commands(es.push(e)) =~= events_commands(es) + command_seq(
            event_command(e),
        ));
    }
}

/// Everything the draw stage of a frame needs: the linked program, the
/// uploaded geometry, and the location of the animated color uniform, if one
/// is used (the driver ignores writes to location -1).
#[derive(Clone, Copy, Debug, PartialEq, Eq, Structural)]
pub struct RenderState {
    pub program: ShaderProgram,
    pub geometry: GeometryBuffer,
    pub uniform_location: i32,
}

impl RenderState {
    /// The program is linked (a `ShaderProgram` exists only for a successful
    /// link) with a real name, and the geometry names are real and distinct.
    pub open spec fn wf(&self) -> bool {
        &&& self.program.wf()
        &&& self.geometry.wf()
    }
}

/// The uniform refresh a frame performs, when an animated color is supplied.
pub open spec fn uniform_command(render: RenderState, uniform: Option<ColorBits>) -> Option<
    GpuCommand,
> {
    match uniform {
        Some(c) => Some(GpuCommand::Uniform4 { location: render.uniform_location, color: c }),
        None => None,
    }
}

/// The fixed ordered tail of every frame: clear to the background, bind the
/// program, refresh the uniform when one is animated, bind the geometry,
/// draw it as a triangle list, and present.
pub open spec fn draw_commands(render: RenderState, uniform: Option<ColorBits>) -> Seq<
    GpuCommand,
> {
    seq![
        GpuCommand::ClearColor { color: spec_opaque_black() },
        GpuCommand::Clear,
        GpuCommand::UseProgram { program: render.program.handle },
    ] + command_seq(uniform_command(render, uniform)) + seq![
        GpuCommand::BindVertexArray { array: render.geometry.vao },
        GpuCommand::DrawTriangles { first: 0, count: render.geometry.vertex_count },
        GpuCommand::SwapBuffers,
    ]
}

/// Everything one frame asks of the driver: the event commands first, then
/// the draw tail. The clear therefore follows every viewport update.
pub open spec fn frame_commands(
    es: Seq<InputEvent>,
    render: RenderState,
    uniform: Option<ColorBits>,
) -> Seq<GpuCommand> {
    events_commands(es) + draw_commands(render, uniform)
}

impl FrameLoop {
    /// A fresh loop over a context of the given framebuffer size.
    pub fn new(viewport_width: i32, viewport_height: i32) -> (l: FrameLoop)
        ensures
            l.phase is Initialized,
            !l.close_requested,
            l.viewport_width == viewport_width,
            l.viewport_height == viewport_height,
    {
        FrameLoop { phase: LoopPhase::Initialized, close_requested: false, viewport_width, viewport_height }
    }

    /// Startup is complete: the loop begins running.
    pub fn start(&mut self)
        requires
            old(self).phase is Initialized,
        ensures
            *final(self) == (FrameLoop { phase: LoopPhase::Running, ..*old(self) }),
    {
        self.phase = LoopPhase::Running;
    }

    /// Whether another frame should run: only a running loop continues.
    pub fn should_continue(&self) -> (b: bool)
        ensures
            b == (self.phase is Running),
    {
        match self.phase {
            LoopPhase::Running => true,
            _ => false,
        }
    }

    /// Cleanup after the loop has exited: the loop is terminated for good.
    pub fn finish(&mut self)
        requires
            old(self).phase is Closing,
        ensures
            *final(self) == (FrameLoop { phase: LoopPhase::Terminated, ..*old(self) }),
    {
        self.phase = LoopPhase::Terminated;
    }

    /// Projects one event onto the loop state and reports the command it
    /// asks of the driver, if any.
    pub fn process_event(&mut self, e: &InputEvent) -> (cmd: Option<GpuCommand>)
        ensures
            *final(self) == event_step(*old(self), *e),
            cmd == event_command(*e),
    {
        match e {
            InputEvent::EscapePressed => {
                if self.should_continue() {
                    self.phase = LoopPhase::Closing;
                }
                self.close_requested = true;
                None
            },
            InputEvent::FramebufferResized { width, height } => {
                self.viewport_width = *width;
                self.viewport_height = *height;
                Some(GpuCommand::Viewport { x: 0, y: 0, width: *width, height: *height })
            },
            InputEvent::Other => None,
        }
    }

    /// Projects a whole batch of pending events, in order, and collects the
    /// viewport updates they ask for.
    #[verifier::loop_isolation(false)]
    pub fn process_events(&mut self, events: &Vec<InputEvent>) -> (cmds: Vec<GpuCommand>)
        ensures
            *final(self) == events_step(*old(self), events@),
            cmds@ == events_commands(events@),
    {
        let mut cmds: Vec<GpuCommand> = Vec::new();
        let mut i: usize = 0;
        while i < events.len()
            invariant
                i <= events@.len(),
                *self == events_step(*old(self), events@.take(i as int)),
                cmds@ == events_commands(events@.take(i as int)),
            decreases events@.len() - i,
        {
            let e = events[i];
            let c = self.process_event(&e);
            match c {
                Some(cmd) => cmds.push(cmd),
                None => (),
            }
            proof {
                assert(events@.take(i + 1 as int) =~= events@.take(i as int).push(events@[i as int]));
                lemma_events_step_push(*old(self), events@.take(i as int), events@[i as int]);
                lemma_events_commands_push(events@.take(i as int), events@[i as int]);
                assert(cmds@ =~= events_commands(events@.take(i + 1 as int)));
            }
            i = i + 1;
        }
        proof {
            assert(events@.take(events@.len() as int) =~= events@);
        }
        cmds
    }

    /// Runs one frame iteration: projects the pending events, then emits the
    /// fixed draw tail. A close request raised by an event takes effect at
    /// the next continuation check; the current frame still clears, draws
    /// and presents.
    #[verifier::loop_isolation(false)]
    pub fn frame(
        &mut self,
        events: &Vec<InputEvent>,
        render: &RenderState,
        uniform: Option<ColorBits>,
    ) -> (cmds: Vec<GpuCommand>)
        requires
            old(self).phase is Running,
        ensures
            *final(self) == events_step(*old(self), events@),
            cmds@ == frame_commands(events@, *render, uniform),
    {
        let mut cmds = self.process_events(events);
        cmds.push(GpuCommand::ClearColor { color: opaque_black() });
        cmds.push(GpuCommand::Clear);
        cmds.push(GpuCommand::UseProgram { program: render.program.handle });
        match uniform {
            Some(c) => cmds.push(
                GpuCommand::Uniform4 { location: render.uniform_location, color: c },
            ),
            None => (),
        }
        cmds.push(GpuCommand::BindVertexArray { array: render.geometry.vao });
        cmds.push(
            GpuCommand::DrawTriangles { first: 0, count: render.geometry.vertex_count },
        );
        cmds.push(GpuCommand::SwapBuffers);
        proof {
            assert(cmds@ =~= frame_commands(events@, *render, uniform));
        }
        cmds
    }
}

/// Pressing escape while running raises the close request and moves the loop
/// to closing; a second press while already closing changes nothing.
pub proof fn lemma_escape_closes_once(s: FrameLoop)
    requires
        s.phase is Running,
        !s.close_requested,
    ensures
        ({
            let t = event_step(s, InputEvent::EscapePressed);
            &&& t.close_requested
            &&& t.phase is Closing
            &&& event_step(t, InputEvent::EscapePressed) == t
        }),
{
}

/// Every command an event batch emits is a viewport update.
pub proof fn lemma_event_commands_are_viewports(es: Seq<InputEvent>)
    ensures
        forall|i: int|
            0 <= i < events_commands(es).len() ==> #[trigger] events_commands(es)[i] is Viewport,
    decreases es.len(),
{
    if es.len() > 0 {
        lemma_event_commands_are_viewports(es.drop_first());
    }
}

/// A resize among the events emits its exact viewport update.
pub proof fn lemma_resize_emits_viewport(es: Seq<InputEvent>, k: int, w: i32, h: i32)
    requires
        0 <= k < es.len(),
        es[k] == (InputEvent::FramebufferResized { width: w, height: h }),
    ensures
        exists|i: int|
            0 <= i < events_commands(es).len() && events_commands(es)[i] == (GpuCommand::Viewport {
                x: 0,
                y: 0,
                width: w,
                height: h,
            }),
    decreases es.len(),
{
    if k == 0 {
        assert(events_commands(es)[0] == (GpuCommand::Viewport { x: 0, y: 0, width: w, height: h }));
    } else {
        lemma_resize_emits_viewport(es.drop_first(), k - 1, w, h);
        let i = choose|i: int|
            0 <= i < events_commands(es.drop_first()).len() && events_commands(es.drop_first())[i]
                == (GpuCommand::Viewport { x: 0, y: 0, width: w, height: h });
        let off = command_seq(event_command(es[0])).len();
        assert(events_commands(es)[i + off] == (GpuCommand::Viewport {
            x: 0,
            y: 0,
            width: w,
            height: h,
        }));
    }
}

/// Resizing the framebuffer to (w, h) updates the viewport to exactly
/// (0, 0, w, h) before the next clear: the update stands among the event
/// commands, and the single clear of the frame comes after all of them.
pub proof fn lemma_resize_before_clear(
    es: Seq<InputEvent>,
    render: RenderState,
    uniform: Option<ColorBits>,
    k: int,
    w: i32,
    h: i32,
)
    requires
        0 <= k < es.len(),
        es[k] == (InputEvent::FramebufferResized { width: w, height: h }),
    ensures
        ({
            let cmds = frame_commands(es, render, uniform);
            let clear_at = events_commands(es).len() + 1;
            &&& cmds[clear_at as int] == GpuCommand::Clear
            &&& forall|j: int| 0 <= j < clear_at ==> #[trigger] cmds[j] != GpuCommand::Clear
            &&& exists|i: int|
                0 <= i < clear_at && #[trigger] cmds[i] == (GpuCommand::Viewport {
                    x: 0,
                    y: 0,
                    width: w,
                    height: h,
                })
        }),
{
    lemma_event_commands_are_viewports(es);
    lemma_resize_emits_viewport(es, k, w, h);
    let cmds = frame_commands(es, render, uniform);
    let i = choose|i: int|
        0 <= i < events_commands(es).len() && events_commands(es)[i] == (GpuCommand::Viewport {
            x: 0,
            y: 0,
            width: w,
            height: h,
        });
    assert(cmds[i] == (GpuCommand::Viewport { x: 0, y: 0, width: w, height: h }));
}

/// Whether the driver accepts a command without queueing an error, given the
/// program and geometry in use: a viewport must be non-negative, binds must
/// name the objects that exist, and a draw must stay within the geometry.
pub open spec fn command_accepted(c: GpuCommand, render: RenderState) -> bool {
    match c {
        GpuCommand::Viewport { x, y, width, height } => width >= 0 && height >= 0,
        GpuCommand::UseProgram { program } => program == render.program.handle,
        GpuCommand::BindVertexArray { array } => array == render.geometry.vao,
        GpuCommand::DrawTriangles { first, count } => first == 0 && count
            <= render.geometry.vertex_count,
        _ => true,
    }
}

/// The error code a refused command queues: invalid-value for a bad viewport
/// or an out-of-range draw, invalid-operation for a bind of an object not in
/// use; zero (no error) for an accepted command.
pub open spec fn command_error_code(c: GpuCommand, render: RenderState) -> u32 {
    if command_accepted(c, render) {
        0
    } else {
        match c {
            GpuCommand::Viewport { .. } => 0x0501,
            GpuCommand::DrawTriangles { .. } => 0x0501,
            _ => 0x0502,
        }
    }
}

/// The error codes a command stream queues, in order, refused commands only.
pub open spec fn error_codes(cmds: Seq<GpuCommand>, render: RenderState) -> Seq<u32>
    decreases cmds.len(),
{
    if cmds.len() == 0 {
        Seq::<u32>::empty()
    } else {
        let code = command_error_code(cmds[0], render);
        (if code == 0 {
            Seq::<u32>::empty()
        } else {
            seq![code]
        }) + error_codes(cmds.drop_first(), render)
    }
}

/// Appending one command appends its error contribution.
pub proof fn lemma_error_codes_push(cmds: Seq<GpuCommand>, c: GpuCommand, render: RenderState)
    ensures
        error_codes(cmds.push(c), render) == error_codes(cmds, render) + (if command_error_code(
            c,
            render,
        ) == 0 {
            Seq::<u32>::empty()
        } else {
            seq![command_error_code(c, render)]
        }),
    decreases cmds.len(),
{
    if cmds.len() == 0 {
        assert(cmds.push(c).drop_first() =~= cmds);
        assert(error_codes(cmds.push(c), render) =~= error_codes(cmds, render) + (
        if command_error_code(c, render) == 0 {
            Seq::<u32>::empty()
        } else {
            seq![command_error_code(c, render)]
        }));
    } else {
        assert(cmds.push(c).drop_first() =~= cmds.drop_first().push(c));
        lemma_error_codes_push(cmds.drop_first(), c, render);
        assert(error_codes(cmds.push(c), render) =~= error_codes(cmds, render) + (
        if command_error_code(c, render) == 0 {
            Seq::<u32>::empty()
        } else {
            seq![command_error_code(c, render)]
        }));
    }
}

/// Replays a command stream against the driver's acceptance rules, queueing
/// the error code of every refused command, exactly as a development build
/// checks the error queue after its GPU calls.
#[verifier::loop_isolation(false)]
pub fn check_commands(cmds: &Vec<GpuCommand>, render: &RenderState, queue: &mut ErrorQueue)
    ensures
        final(queue)@ == old(queue)@ + error_codes(cmds@, *render),
{
    let mut i: usize = 0;
    while i < cmds.len()
        invariant
            i <= cmds@.len(),
            queue@ == old(queue)@ + error_codes(cmds@.take(i as int), *render),
        decreases cmds@.len() - i,
    {
        let c = cmds[i];
        let accepted = match c {
            GpuCommand::Viewport { x: _, y: _, width, height } => width >= 0 && height >= 0,
            GpuCommand::UseProgram { program } => program == render.program.handle,
            GpuCommand::BindVertexArray { array } => array == render.geometry.vao,
            GpuCommand::DrawTriangles { first, count } => first == 0 && count
                <= render.geometry.vertex_count,
            _ => true,
        };
        if !accepted {
            let code: u32 = match c {
                GpuCommand::Viewport { .. } => 0x0501,
                GpuCommand::DrawTriangles { .. } => 0x0501,
                _ => 0x0502,
            };
            queue.record(code);
        }
        proof {
            assert(cmds@.take(i + 1 as int) =~= cmds@.take(i as int).push(cmds@[i as int]));
            lemma_error_codes_push(cmds@.take(i as int), cmds@[i as int], *render);
            assert(queue@ =~= old(queue)@ + error_codes(cmds@.take(i + 1 as int), *render));
        }
        i = i + 1;
    }
    proof {
        assert(cmds@.take(cmds@.len() as int) =~= cmds@);
    }
}

/// A stream of accepted commands queues no error code.
pub proof fn lemma_accepted_stream_clean(cmds: Seq<GpuCommand>, render: RenderState)
    requires
        forall|i: int| 0 <= i < cmds.len() ==> command_accepted(#[trigger] cmds[i], render),
    ensures
        error_codes(cmds, render) == Seq::<u32>::empty(),
    decreases cmds.len(),
{
    if cmds.len() > 0 {
        assert(command_accepted(cmds[0], render));
        lemma_accepted_stream_clean(cmds.drop_first(), render);
        assert(error_codes(cmds, render) =~= Seq::<u32>::empty());
    }
}

/// Every resize in the batch has non-negative dimensions.
pub open spec fn resizes_non_negative(es: Seq<InputEvent>) -> bool {
    forall|i: int|
        0 <= i < es.len() ==> match #[trigger] es[i] {
            InputEvent::FramebufferResized { width, height } => width >= 0 && height >= 0,
            _ => true,
        }
}

/// The viewport updates of a batch of non-negative resizes are accepted.
pub proof fn lemma_event_commands_accepted(es: Seq<InputEvent>, render: RenderState)
    requires
        resizes_non_negative(es),
    ensures
        forall|i: int|
            0 <= i < events_commands(es).len() ==> command_accepted(
                #[trigger] events_commands(es)[i],
                render,
            ),
    decreases es.len(),
{
    if es.len() > 0 {
        assert forall|i: int| 0 <= i < es.drop_first().len() implies (match #[trigger] es.drop_first()[i] {
            InputEvent::FramebufferResized { width, height } => width >= 0 && height >= 0,
            _ => true,
        }) by {
            assert(es.drop_first()[i] == es[i + 1]);
        }
        lemma_event_commands_accepted(es.drop_first(), render);
        let head = command_seq(event_command(es[0]));
        assert(match es[0] {
            InputEvent::FramebufferResized { width, height } => width >= 0 && height >= 0,
            _ => true,
        });
        assert forall|i: int| 0 <= i < events_commands(es).len() implies command_accepted(
            #[trigger] events_commands(es)[i],
            render,
        ) by {
            if i < head.len() {
                assert(events_commands(es)[i] == head[i]);
            } else {
                assert(events_commands(es)[i] == events_commands(es.drop_first())[i - head.len()]);
            }
        }
    }
}

/// A clean frame leaves no residual error: from a well-formed render state,
/// with every resize non-negative, each command of the frame is accepted,
/// so replaying the frame queues no error code.
pub proof fn lemma_frame_leaves_no_errors(
    es: Seq<InputEvent>,
    render: RenderState,
    uniform: Option<ColorBits>,
)
    requires
        render.wf(),
        resizes_non_negative(es),
    ensures
        error_codes(frame_commands(es, render, uniform), render) == Seq::<u32>::empty(),
{
    lemma_event_commands_accepted(es, render);
    let cmds = frame_commands(es, render, uniform);
    assert forall|i: int| 0 <= i < cmds.len() implies command_accepted(
        #[trigger] cmds[i],
        render,
    ) by {
        if i < events_commands(es).len() {
            assert(cmds[i] == events_commands(es)[i]);
        }
    }
    lemma_accepted_stream_clean(cmds, render);
}

} // verus!
