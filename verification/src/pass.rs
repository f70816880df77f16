//! A render pass modelled as the sequence of binding and draw commands
//! recorded onto it.
//!
//! The pass is a transient, exclusively borrowed resource: primitives mutate
//! its binding state in strict sequence, and the driver replays the recorded
//! commands, in order, onto the real GPU pass.

use vstd::prelude::*;

verus! {

/// The specification-level image of one recorded command.
pub enum Cmd {
    /// Attach a vertex buffer with the given byte contents at a vertex slot.
    SetVertexBuffer { slot: u32, contents: Seq<u8> },
    /// Attach an index buffer with the given byte contents at the sole index
    /// slot, with a fixed 16-bit index width.
    SetIndexBuffer { contents: Seq<u8> },
    /// Attach a bind group (camera uniform or texture + sampler) at a slot.
    SetBindGroup { slot: u32 },
    /// Issue one non-indexed draw call.
    Draw { vertex_count: u32, instance_count: u32 },
    /// Issue one indexed draw call.
    DrawIndexed { index_count: u32, instance_count: u32 },
}

/// One recorded render command, as the driver replays it.
pub enum RenderCommand {
    SetVertexBuffer { slot: u32, contents: Vec<u8> },
    SetIndexBuffer { contents: Vec<u8> },
    SetBindGroup { slot: u32 },
    Draw { vertex_count: u32, instance_count: u32 },
    DrawIndexed { index_count: u32, instance_count: u32 },
}

impl View for RenderCommand {
    type V = Cmd;

    open spec fn view(&self) -> Cmd {
        match self {
            RenderCommand::SetVertexBuffer { slot, contents } => Cmd::SetVertexBuffer {
                slot: *slot,
                contents: contents@,
            },
            RenderCommand::SetIndexBuffer { contents } => Cmd::SetIndexBuffer {
                contents: contents@,
            },
            RenderCommand::SetBindGroup { slot } => Cmd::SetBindGroup { slot: *slot },
            RenderCommand::Draw { vertex_count, instance_count } => Cmd::Draw {
                vertex_count: *vertex_count,
                instance_count: *instance_count,
            },
            RenderCommand::DrawIndexed { index_count, instance_count } => Cmd::DrawIndexed {
                index_count: *index_count,
                instance_count: *instance_count,
            },
        }
    }
}

/// A recording render pass: its view is the exact command sequence recorded
/// so far, oldest first.
pub struct RenderPass {
    pub commands: Vec<RenderCommand>,
}

impl View for RenderPass {
    type V = Seq<Cmd>;

    open spec fn view(&self) -> Seq<Cmd> {
        self.commands@.map(|i: int, c: RenderCommand| c@)
    }
}

impl RenderPass {
    /// An empty recording.
    pub fn new() -> (r: RenderPass)
        ensures
            r@ == Seq::<Cmd>::empty(),
    {
        let r = RenderPass { commands: Vec::new() };
        proof {
            assert(r@ =~= Seq::<Cmd>::empty());
        }
        r
    }

    /// Appends one command to the recording.
    pub fn record(&mut self, c: RenderCommand)
        ensures
            final(self)@ == old(self)@.push(c@),
    {
        let ghost before = self@;
        self.commands.push(c);
        proof {
            assert(self@ =~= before.push(c@));
        }
    }

    /// The number of commands recorded so far.
    pub fn len(&self) -> (r: usize)
        ensures
            r == self@.len(),
    {
        self.commands.len()
    }
}

} // verus!
