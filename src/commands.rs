use vstd::prelude::*;

verus! {

/// One command recorded between the begin and the end of a command buffer.
#[derive(Clone, Copy, Debug, PartialEq, Eq, Structural)]
pub enum DrawCommand {
    /// Begins the render pass on the framebuffer of this image, cleared to opaque black.
    BeginRenderPass { framebuffer: usize },
    /// Binds the graphics pipeline.
    BindPipeline,
    /// Binds the vertex buffer at this binding and byte offset.
    BindVertexBuffer { binding: u32, offset: u64 },
    /// Binds the index buffer at this byte offset; indices are 16-bit.
    BindIndexBuffer { offset: u64 },
    /// Binds the descriptor set of this image.
    BindDescriptorSet { set: usize },
    /// Draws `index_count` indices, `instance_count` instances.
    DrawIndexed { index_count: u32, instance_count: u32 },
    EndRenderPass,
}

/// The commands of the command buffer of swapchain image `image`, drawing
/// `index_count` indices.
pub open spec fn draw_sequence(image: usize, index_count: u32) -> Seq<DrawCommand> {
    seq![
        DrawCommand::BeginRenderPass { framebuffer: image },
        DrawCommand::BindPipeline,
        DrawCommand::BindVertexBuffer { binding: 0, offset: 0 },
        DrawCommand::BindIndexBuffer { offset: 0 },
        DrawCommand::BindDescriptorSet { set: image },
        DrawCommand::DrawIndexed { index_count, instance_count: 1 },
        DrawCommand::EndRenderPass,
    ]
}

/// The commands to record for swapchain image `image`: one indexed draw of the
/// whole index buffer inside the render pass, with this image's framebuffer
/// and descriptor set.
pub fn draw_commands(image: usize, index_count: u32) -> (r: Vec<DrawCommand>)
    ensures
        r@ == draw_sequence(image, index_count),
{
    let mut v: Vec<DrawCommand> = Vec::new();
    v.push(DrawCommand::BeginRenderPass { framebuffer: image });
    v.push(DrawCommand::BindPipeline);
    v.push(DrawCommand::BindVertexBuffer { binding: 0, offset: 0 });
    v.push(DrawCommand::BindIndexBuffer { offset: 0 });
    v.push(DrawCommand::BindDescriptorSet { set: image });
    v.push(DrawCommand::DrawIndexed { index_count, instance_count: 1 });
    v.push(DrawCommand::EndRenderPass);
    assert(v@ =~= draw_sequence(image, index_count));
    v
}

/// The command lists of all command buffers: one per framebuffer, in order.
pub fn command_buffer_plan(framebuffer_count: usize, index_count: u32) -> (r: Vec<Vec<DrawCommand>>)
    ensures
        r@.len() == framebuffer_count,
        forall|i: int| 0 <= i < framebuffer_count ==> (#[trigger] r@[i])@ == draw_sequence(
            i as usize,
            index_count,
        ),
{
    let mut plan: Vec<Vec<DrawCommand>> = Vec::new();
    let mut i: usize = 0;
    while i < framebuffer_count
        invariant
            i <= framebuffer_count,
            plan@.len() == i,
            forall|j: int| 0 <= j < i ==> (#[trigger] plan@[j])@ == draw_sequence(j as usize, index_count),
        decreases framebuffer_count - i,
    {
        plan.push(draw_commands(i, index_count));
        i = i + 1;
    }
    plan
}

} // verus!
