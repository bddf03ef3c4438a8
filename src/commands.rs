//! The commands recorded for one frame.
use vstd::prelude::*;
use crate::swapchain::Extent2D;

verus! {

/// One command of a frame's command buffer. Handles are raw.
#[derive(Clone, Copy, Debug, PartialEq, Eq, Structural)]
pub enum Command {
    /// Begins the render pass on `framebuffer`, cleared to the fixed colour,
    /// over the whole `extent`.
    BeginRenderPass { framebuffer: u64, extent: Extent2D },
    BindPipeline { pipeline: u64 },
    /// The viewport covers `extent`, depth from zero to one.
    SetViewport { extent: Extent2D },
    SetScissor { extent: Extent2D },
    BindVertexBuffer { buffer: u64 },
    BindIndexBuffer { buffer: u64 },
    BindDescriptorSet { layout: u64, set: u64 },
    DrawIndexed { index_count: u32 },
    EndRenderPass,
}

/// What a frame draws with.
pub struct DrawResources {
    pub pipeline: u64,
    pub pipeline_layout: u64,
    pub vertex_buffer: u64,
    pub index_buffer: u64,
    /// One per swapchain image.
    pub framebuffers: Vec<u64>,
    /// One per frame in flight.
    pub descriptor_sets: Vec<u64>,
    pub index_count: u32,
}

/// Why a frame cannot be recorded.
#[derive(Clone, Copy, Debug, PartialEq, Eq, Structural)]
pub enum RecordError {
    /// The image index has no framebuffer.
    NoFramebuffer,
    /// The slot has no descriptor set.
    NoDescriptorSet,
}

/// The commands of a frame that draws into image `image_index` with the
/// descriptor set of `slot`.
pub open spec fn frame_commands(res: DrawResources, slot: int, image_index: int, extent: Extent2D) -> Seq<
    Command,
> {
    seq![
        Command::BeginRenderPass { framebuffer: res.framebuffers@[image_index], extent },
        Command::BindPipeline { pipeline: res.pipeline },
        Command::SetViewport { extent },
        Command::SetScissor { extent },
        Command::BindVertexBuffer { buffer: res.vertex_buffer },
        Command::BindIndexBuffer { buffer: res.index_buffer },
        Command::BindDescriptorSet { layout: res.pipeline_layout, set: res.descriptor_sets@[slot] },
        Command::DrawIndexed { index_count: res.index_count },
        Command::EndRenderPass,
    ]
}

/// Records one frame: the render pass, the pipeline, viewport and scissor
/// from the swapchain's extent, the buffers, the slot's descriptor set, one
/// indexed draw.
pub fn record_command_buffer(res: &DrawResources, slot: usize, image_index: u32, extent: Extent2D) -> (r:
    Result<Vec<Command>, RecordError>)
    ensures
        image_index >= res.framebuffers@.len() ==> r == Err::<Vec<Command>, RecordError>(
            RecordError::NoFramebuffer,
        ),
        image_index < res.framebuffers@.len() && slot >= res.descriptor_sets@.len() ==> r == Err::<
            Vec<Command>,
            RecordError,
        >(RecordError::NoDescriptorSet),
        r matches Ok(cmds) ==> image_index < res.framebuffers@.len() && slot
            < res.descriptor_sets@.len() && cmds@ == frame_commands(
            *res,
            slot as int,
            image_index as int,
            extent,
        ),
        image_index < res.framebuffers@.len() && slot < res.descriptor_sets@.len() ==> r is Ok,
{
    if image_index as usize >= res.framebuffers.len() {
        return Err(RecordError::NoFramebuffer);
    }
    if slot >= res.descriptor_sets.len() {
        return Err(RecordError::NoDescriptorSet);
    }
    let mut cmds: Vec<Command> = Vec::new();
    cmds.push(
        Command::BeginRenderPass { framebuffer: res.framebuffers[image_index as usize], extent },
    );
    cmds.push(Command::BindPipeline { pipeline: res.pipeline });
    cmds.push(Command::SetViewport { extent });
    cmds.push(Command::SetScissor { extent });
    cmds.push(Command::BindVertexBuffer { buffer: res.vertex_buffer });
    cmds.push(Command::BindIndexBuffer { buffer: res.index_buffer });
    cmds.push(
        Command::BindDescriptorSet { layout: res.pipeline_layout, set: res.descriptor_sets[slot] },
    );
    cmds.push(Command::DrawIndexed { index_count: res.index_count });
    cmds.push(Command::EndRenderPass);
    assert(cmds@ =~= frame_commands(*res, slot as int, image_index as int, extent));
    Ok(cmds)
}

} // verus!
