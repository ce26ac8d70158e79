use vstd::prelude::*;

verus! {

/// Why the next drawable image could not be acquired.
#[derive(Clone, Copy, Debug, PartialEq, Eq, Structural)]
pub enum SurfaceError {
    /// Acquiring the image took too long.
    Timeout,
    /// The surface changed and must be reconfigured before it presents again.
    Outdated,
    /// The surface is gone and must be configured anew.
    Lost,
    /// Memory ran out; there is no recovering from this.
    OutOfMemory,
}

/// Width of the entries of an index buffer.
#[derive(Clone, Copy, Debug, PartialEq, Eq, Structural)]
pub enum IndexFormat {
    Uint16,
    Uint32,
}

/// The half-open range `[start, end)`.
#[derive(Clone, Copy, Debug, PartialEq, Eq, Structural)]
pub struct Span {
    pub start: u32,
    pub end: u32,
}

/// One command issued inside a render pass. Pipelines, bind groups and
/// buffers are named by the slot in which the drawer keeps them.
#[derive(Clone, Copy, Debug, PartialEq, Eq, Structural)]
pub enum DrawCommand {
    SetPipeline { pipeline: usize },
    SetBindGroup { index: u32, group: usize },
    SetVertexBuffer { slot: u32, buffer: usize },
    SetIndexBuffer { buffer: usize, format: IndexFormat },
    Draw { vertices: Span, instances: Span },
    DrawIndexed { indices: Span, base_vertex: i32, instances: Span },
}

/// A color with each channel in thousandths of full intensity.
#[derive(Clone, Copy, Debug, PartialEq, Eq, Structural)]
pub struct ClearColor {
    pub r: u16,
    pub g: u16,
    pub b: u16,
    pub a: u16,
}

/// The dark blue-gray every frame is cleared to.
pub open spec fn frame_clear_color() -> ClearColor {
    ClearColor { r: 100, g: 200, b: 300, a: 1000 }
}

pub fn clear_color() -> (c: ClearColor)
    ensures
        c == frame_clear_color(),
{
    ClearColor { r: 100, g: 200, b: 300, a: 1000 }
}

/// One step of the work a frame hands to the GPU, in the order it is done.
#[derive(Clone, Copy, Debug, PartialEq, Eq, Structural)]
pub enum FrameOp {
    /// Open the render pass on the acquired image: clear it to `clear`, then
    /// store what is drawn. There is no depth or stencil attachment.
    BeginPass { clear: ClearColor },
    /// Record a command into the open pass.
    Command { command: DrawCommand },
    /// Close the pass.
    EndPass,
    /// Finish recording and submit the command buffer to the queue.
    Submit,
    /// Present the acquired image.
    Present,
}

pub open spec fn command_op(c: DrawCommand) -> FrameOp {
    FrameOp::Command { command: c }
}

/// The commands of a pass as frame operations.
pub open spec fn command_ops(cmds: Seq<DrawCommand>) -> Seq<FrameOp> {
    cmds.map_values(|c: DrawCommand| command_op(c))
}

/// What one frame does, given the commands its drawer issued: open one pass,
/// record the commands, close the pass, submit, present.
pub open spec fn frame_plan(cmds: Seq<DrawCommand>) -> Seq<FrameOp> {
    seq![FrameOp::BeginPass { clear: frame_clear_color() }] + command_ops(cmds) + seq![
        FrameOp::EndPass,
        FrameOp::Submit,
        FrameOp::Present,
    ]
}

/// A frame opens exactly one pass first, and closes it, submits and presents
/// exactly once each, in that order, at its end.
pub open spec fn opens_one_pass(ops: Seq<FrameOp>) -> bool {
    &&& ops.len() >= 4
    &&& ops[0] is BeginPass
    &&& ops[ops.len() - 3] is EndPass
    &&& ops[ops.len() - 2] is Submit
    &&& ops[ops.len() - 1] is Present
    &&& forall|i: int| 0 < i < ops.len() ==> !(#[trigger] ops[i] is BeginPass)
    &&& forall|i: int|
        0 <= i < ops.len() - 3 ==> !(#[trigger] ops[i] is EndPass) && !(ops[i] is Submit) && !(
        ops[i] is Present)
}

/// Every frame, whatever its drawer issued, opens and closes exactly one
/// render pass, and submits and presents exactly once, after the pass.
pub proof fn lemma_one_pass_per_frame(cmds: Seq<DrawCommand>)
    ensures
        opens_one_pass(frame_plan(cmds)),
{
    let ops = frame_plan(cmds);
    let n = cmds.len() as int;
    assert(ops.len() == n + 4);
    assert forall|i: int| 0 < i < ops.len() implies !(#[trigger] ops[i] is BeginPass) by {
        if i <= n {
            assert(ops[i] == command_op(cmds[i - 1]));
        }
    }
    assert forall|i: int| 0 <= i < ops.len() - 3 implies !(#[trigger] ops[i] is EndPass) && !(
    ops[i] is Submit) && !(ops[i] is Present) by {
        if i > 0 {
            assert(ops[i] == command_op(cmds[i - 1]));
        }
    }
}

/// An open render pass, scoped to one frame. Drawers record into it; they
/// cannot make one, nor change which frame it belongs to.
pub struct RenderPass {
    frame: u64,
    commands: Vec<DrawCommand>,
}

impl RenderPass {
    /// The frame whose image this pass draws into.
    pub closed spec fn id(&self) -> u64 {
        self.frame
    }

    /// The commands recorded so far, oldest first.
    pub closed spec fn recorded(&self) -> Seq<DrawCommand> {
        self.commands@
    }

    pub fn frame(&self) -> (r: u64)
        ensures
            r == self.id(),
    {
        self.frame
    }

    pub fn commands(&self) -> (r: &Vec<DrawCommand>)
        ensures
            r@ == self.recorded(),
    {
        &self.commands
    }

    fn record(&mut self, c: DrawCommand)
        ensures
            final(self).id() == old(self).id(),
            final(self).recorded() == old(self).recorded().push(c),
    {
        self.commands.push(c);
    }

    pub fn set_pipeline(&mut self, pipeline: usize)
        ensures
            final(self).id() == old(self).id(),
            final(self).recorded() == old(self).recorded().push(
                DrawCommand::SetPipeline { pipeline },
            ),
    {
        self.record(DrawCommand::SetPipeline { pipeline });
    }

    pub fn set_bind_group(&mut self, index: u32, group: usize)
        ensures
            final(self).id() == old(self).id(),
            final(self).recorded() == old(self).recorded().push(
                DrawCommand::SetBindGroup { index, group },
            ),
    {
        self.record(DrawCommand::SetBindGroup { index, group });
    }

    pub fn set_vertex_buffer(&mut self, slot: u32, buffer: usize)
        ensures
            final(self).id() == old(self).id(),
            final(self).recorded() == old(self).recorded().push(
                DrawCommand::SetVertexBuffer { slot, buffer },
            ),
    {
        self.record(DrawCommand::SetVertexBuffer { slot, buffer });
    }

    pub fn set_index_buffer(&mut self, buffer: usize, format: IndexFormat)
        ensures
            final(self).id() == old(self).id(),
            final(self).recorded() == old(self).recorded().push(
                DrawCommand::SetIndexBuffer { buffer, format },
            ),
    {
        self.record(DrawCommand::SetIndexBuffer { buffer, format });
    }

    pub fn draw(&mut self, vertices: Span, instances: Span)
        ensures
            final(self).id() == old(self).id(),
            final(self).recorded() == old(self).recorded().push(
                DrawCommand::Draw { vertices, instances },
            ),
    {
        self.record(DrawCommand::Draw { vertices, instances });
    }

    pub fn draw_indexed(&mut self, indices: Span, base_vertex: i32, instances: Span)
        ensures
            final(self).id() == old(self).id(),
            final(self).recorded() == old(self).recorded().push(
                DrawCommand::DrawIndexed { indices, base_vertex, instances },
            ),
    {
        self.record(DrawCommand::DrawIndexed { indices, base_vertex, instances });
    }
}

/// Supplies the drawing commands of a frame. The harness does not know what
/// is drawn, only that it is drawn into the one pass it opened.
pub trait RenderPassDresser {
    /// The commands this drawer issues into a pass.
    spec fn issues(&self) -> Seq<DrawCommand>;

    /// Issues this drawer's commands into `render_pass`, after what was
    /// recorded before, and keeps the frame the pass belongs to.
    fn dress(&self, render_pass: &mut RenderPass)
        ensures
            final(render_pass).id() == old(render_pass).id(),
            final(render_pass).recorded() == old(render_pass).recorded() + self.issues(),
    ;
}

/// The frame being recorded: the operations laid out so far, and whether its
/// one pass was opened.
pub struct Renderer {
    frame: u64,
    ops: Vec<FrameOp>,
    pass_opened: bool,
}

impl Renderer {
    pub closed spec fn id(&self) -> u64 {
        self.frame
    }

    pub closed spec fn laid_out(&self) -> Seq<FrameOp> {
        self.ops@
    }

    pub closed spec fn pass_opened(&self) -> bool {
        self.pass_opened
    }

    /// Starts frame `frame` on the outcome of acquiring its image: a failed
    /// acquisition starts nothing.
    pub(crate) fn new(frame: u64, acquired: Result<(), SurfaceError>) -> (r: Result<
        Renderer,
        SurfaceError,
    >)
        ensures
            acquired is Err ==> r == Err::<Renderer, SurfaceError>(acquired->Err_0),
            acquired is Ok ==> r is Ok && r->Ok_0.id() == frame && r->Ok_0.laid_out() == Seq::<
                FrameOp,
            >::empty() && !r->Ok_0.pass_opened(),
    {
        match acquired {
            Ok(()) => Ok(Renderer { frame, ops: Vec::new(), pass_opened: false }),
            Err(e) => Err(e),
        }
    }

    /// Opens the frame's render pass, cleared to the frame's clear color.
    pub fn render_pass(&mut self) -> (pass: RenderPass)
        requires
            !old(self).pass_opened(),
        ensures
            final(self).id() == old(self).id(),
            final(self).pass_opened(),
            final(self).laid_out() == old(self).laid_out().push(
                FrameOp::BeginPass { clear: frame_clear_color() },
            ),
            pass.id() == old(self).id(),
            pass.recorded() == Seq::<DrawCommand>::empty(),
    {
        self.ops.push(FrameOp::BeginPass { clear: clear_color() });
        self.pass_opened = true;
        RenderPass { frame: self.frame, commands: Vec::new() }
    }

    /// Closes `pass` after its commands, submits the frame and presents it.
    pub fn render(self, pass: RenderPass) -> (ops: Vec<FrameOp>)
        requires
            self.pass_opened(),
            pass.id() == self.id(),
        ensures
            ops@ == self.laid_out() + command_ops(pass.recorded()) + seq![
                FrameOp::EndPass,
                FrameOp::Submit,
                FrameOp::Present,
            ],
    {
        let mut ops = self.ops;
        let cmds = &pass.commands;
        let ghost start = ops@;
        let mut i: usize = 0;
        while i < cmds.len()
            invariant
                0 <= i <= cmds.len(),
                ops@ == start + command_ops(cmds@.take(i as int)),
            decreases cmds.len() - i,
        {
            assert(cmds@.take(i + 1) =~= cmds@.take(i as int).push(cmds@[i as int]));
            assert(command_ops(cmds@.take(i + 1)) =~= command_ops(cmds@.take(i as int)).push(
                command_op(cmds@[i as int]),
            ));
            ops.push(FrameOp::Command { command: cmds[i] });
            i = i + 1;
        }
        assert(cmds@.take(cmds.len() as int) =~= cmds@);
        ops.push(FrameOp::EndPass);
        ops.push(FrameOp::Submit);
        ops.push(FrameOp::Present);
        ops
    }
}

} // verus!
