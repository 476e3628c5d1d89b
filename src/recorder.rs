//! The command recorder: the fixed list of commands that one frame records
//! into its slot's command buffer.
use vstd::prelude::*;

use crate::surface::Extent;

verus! {

/// One command recorded into a frame's command buffer.
#[derive(Clone, Copy, Debug, PartialEq, Eq, Structural)]
pub enum Command {
    /// Begin the (freshly reset) buffer, with no usage flags.
    Begin,
    /// Begin the render pass on `framebuffer`, clearing its color attachment
    /// to opaque black, over the render area from the origin to `extent`.
    BeginRenderPass { framebuffer: u64, extent: Extent },
    /// Bind the graphics pipeline.
    BindPipeline,
    /// Bind the vertex buffer at `binding`, from byte `offset`.
    BindVertexBuffer { binding: u32, offset: u64 },
    /// Bind the 16-bit index buffer from byte `offset`.
    BindIndexBuffer { offset: u64 },
    /// Set the dynamic viewport: origin 0,0, size `extent`, depths 0 to 1.
    SetViewport { extent: Extent },
    /// Set the dynamic scissor: origin 0,0, size `extent`.
    SetScissor { extent: Extent },
    /// Draw `index_count` indices, `instance_count` instances, no offsets.
    DrawIndexed { index_count: u32, instance_count: u32 },
    EndRenderPass,
    End,
}

/// The commands of one frame drawing `index_count` indices into
/// `framebuffer`, a frame target of size `extent`.
pub open spec fn frame_commands(framebuffer: u64, extent: Extent, index_count: u32) -> Seq<Command> {
    seq![
        Command::Begin,
        Command::BeginRenderPass { framebuffer, extent },
        Command::BindPipeline,
        Command::BindVertexBuffer { binding: 0, offset: 0 },
        Command::BindIndexBuffer { offset: 0 },
        Command::SetViewport { extent },
        Command::SetScissor { extent },
        Command::DrawIndexed { index_count, instance_count: 1 },
        Command::EndRenderPass,
        Command::End,
    ]
}

/// Lists the commands that record one frame into `framebuffer`.
pub fn record_commands(framebuffer: u64, extent: Extent, index_count: u32) -> (r: Vec<Command>)
    ensures
        r@ == frame_commands(framebuffer, extent, index_count),
{
    let mut r: Vec<Command> = Vec::with_capacity(10);
    r.push(Command::Begin);
    r.push(Command::BeginRenderPass { framebuffer, extent });
    r.push(Command::BindPipeline);
    r.push(Command::BindVertexBuffer { binding: 0, offset: 0 });
    r.push(Command::BindIndexBuffer { offset: 0 });
    r.push(Command::SetViewport { extent });
    r.push(Command::SetScissor { extent });
    r.push(Command::DrawIndexed { index_count, instance_count: 1 });
    r.push(Command::EndRenderPass);
    r.push(Command::End);
    assert(r@ =~= frame_commands(framebuffer, extent, index_count));
    r
}

} // verus!
