use vstd::prelude::*;

verus! {

/// The GPU objects the renderer creates and destroys, one entry per group.
#[derive(Clone, Copy, Debug, PartialEq, Eq, Structural)]
pub enum Resource {
    Instance,
    DebugMessenger,
    Surface,
    Device,
    CommandPool,
    SyncObjects,
    VertexBuffer,
    IndexBuffer,
    DescriptorSetLayout,
    TextureImage,
    TextureImageView,
    TextureSampler,
    Swapchain,
    ImageViews,
    RenderPass,
    PipelineLayout,
    Pipeline,
    Framebuffers,
    UniformBuffers,
    DescriptorPool,
    CommandBuffers,
}

/// `a` holds a reference to `b`, or was made from it: `b` must outlive `a`.
pub open spec fn depends_on(a: Resource, b: Resource) -> bool {
    match a {
        Resource::Instance => false,
        Resource::DebugMessenger => b == Resource::Instance,
        Resource::Surface => b == Resource::Instance,
        Resource::Device => b == Resource::Instance,
        Resource::Swapchain => b == Resource::Device || b == Resource::Surface,
        Resource::ImageViews => b == Resource::Device || b == Resource::Swapchain,
        Resource::RenderPass => b == Resource::Device,
        Resource::DescriptorSetLayout => b == Resource::Device,
        Resource::PipelineLayout => b == Resource::Device || b == Resource::DescriptorSetLayout,
        Resource::Pipeline => b == Resource::Device || b == Resource::PipelineLayout || b
            == Resource::RenderPass,
        Resource::Framebuffers => b == Resource::Device || b == Resource::RenderPass || b
            == Resource::ImageViews,
        Resource::CommandPool => b == Resource::Device,
        Resource::SyncObjects => b == Resource::Device,
        Resource::VertexBuffer => b == Resource::Device,
        Resource::IndexBuffer => b == Resource::Device,
        Resource::TextureImage => b == Resource::Device,
        Resource::TextureImageView => b == Resource::Device || b == Resource::TextureImage,
        Resource::TextureSampler => b == Resource::Device,
        Resource::UniformBuffers => b == Resource::Device,
        Resource::DescriptorPool => b == Resource::Device || b == Resource::DescriptorSetLayout
            || b == Resource::UniformBuffers,
        Resource::CommandBuffers => b == Resource::Device || b == Resource::CommandPool || b
            == Resource::Framebuffers || b == Resource::Pipeline || b == Resource::VertexBuffer
            || b == Resource::IndexBuffer || b == Resource::DescriptorPool,
    }
}

/// The order in which the swapchain-dependent objects are built.
pub open spec fn swapchain_chain() -> Seq<Resource> {
    seq![
        Resource::Swapchain,
        Resource::ImageViews,
        Resource::RenderPass,
        Resource::PipelineLayout,
        Resource::Pipeline,
        Resource::Framebuffers,
        Resource::UniformBuffers,
        Resource::DescriptorPool,
        Resource::CommandBuffers,
    ]
}

/// The order in which everything is destroyed at shutdown.
pub open spec fn shutdown_sequence() -> Seq<Resource> {
    seq![
        Resource::TextureSampler,
        Resource::TextureImageView,
        Resource::TextureImage,
        Resource::CommandBuffers,
        Resource::DescriptorPool,
        Resource::UniformBuffers,
        Resource::Framebuffers,
        Resource::Pipeline,
        Resource::PipelineLayout,
        Resource::RenderPass,
        Resource::ImageViews,
        Resource::Swapchain,
        Resource::DescriptorSetLayout,
        Resource::IndexBuffer,
        Resource::VertexBuffer,
        Resource::SyncObjects,
        Resource::CommandPool,
        Resource::Device,
        Resource::DebugMessenger,
        Resource::Surface,
        Resource::Instance,
    ]
}

/// The order in which everything is built at startup: the objects that live
/// for the whole run, then the swapchain chain.
pub open spec fn startup_sequence() -> Seq<Resource> {
    seq![
        Resource::Instance,
        Resource::DebugMessenger,
        Resource::Surface,
        Resource::Device,
        Resource::CommandPool,
        Resource::DescriptorSetLayout,
        Resource::TextureImage,
        Resource::TextureImageView,
        Resource::TextureSampler,
        Resource::VertexBuffer,
        Resource::IndexBuffer,
        Resource::SyncObjects,
        Resource::Swapchain,
        Resource::ImageViews,
        Resource::RenderPass,
        Resource::PipelineLayout,
        Resource::Pipeline,
        Resource::Framebuffers,
        Resource::UniformBuffers,
        Resource::DescriptorPool,
        Resource::CommandBuffers,
    ]
}

/// Every object of `s` is built after the objects of `s` it depends on.
pub open spec fn builds_in_order(s: Seq<Resource>) -> bool {
    forall|i: int, j: int| 0 <= i < j < s.len() ==> !depends_on(#[trigger] s[i], #[trigger] s[j])
}

/// Every object of `s` is destroyed before the objects of `s` it depends on.
pub open spec fn destroys_in_order(s: Seq<Resource>) -> bool {
    forall|i: int, j: int| 0 <= i < j < s.len() ==> !depends_on(#[trigger] s[j], #[trigger] s[i])
}

/// A rank that falls along every dependency: the number of objects from
/// this one to the end of the shutdown sequence.
spec fn level(r: Resource) -> int {
    match r {
        Resource::TextureSampler => 21,
        Resource::TextureImageView => 20,
        Resource::TextureImage => 19,
        Resource::CommandBuffers => 18,
        Resource::DescriptorPool => 17,
        Resource::UniformBuffers => 16,
        Resource::Framebuffers => 15,
        Resource::Pipeline => 14,
        Resource::PipelineLayout => 13,
        Resource::RenderPass => 12,
        Resource::ImageViews => 11,
        Resource::Swapchain => 10,
        Resource::DescriptorSetLayout => 9,
        Resource::IndexBuffer => 8,
        Resource::VertexBuffer => 7,
        Resource::SyncObjects => 6,
        Resource::CommandPool => 5,
        Resource::Device => 4,
        Resource::DebugMessenger => 3,
        Resource::Surface => 2,
        Resource::Instance => 1,
    }
}

proof fn lemma_level_falls(a: Resource, b: Resource)
    ensures
        depends_on(a, b) ==> level(a) > level(b),
{
}

/// A rank that rises along every dependency: the position of the object in
/// the startup sequence.
spec fn build_rank(r: Resource) -> int {
    match r {
        Resource::Instance => 0,
        Resource::DebugMessenger => 1,
        Resource::Surface => 2,
        Resource::Device => 3,
        Resource::CommandPool => 4,
        Resource::DescriptorSetLayout => 5,
        Resource::TextureImage => 6,
        Resource::TextureImageView => 7,
        Resource::TextureSampler => 8,
        Resource::VertexBuffer => 9,
        Resource::IndexBuffer => 10,
        Resource::SyncObjects => 11,
        Resource::Swapchain => 12,
        Resource::ImageViews => 13,
        Resource::RenderPass => 14,
        Resource::PipelineLayout => 15,
        Resource::Pipeline => 16,
        Resource::Framebuffers => 17,
        Resource::UniformBuffers => 18,
        Resource::DescriptorPool => 19,
        Resource::CommandBuffers => 20,
    }
}

proof fn lemma_build_rank_rises(a: Resource, b: Resource)
    ensures
        depends_on(a, b) ==> build_rank(a) > build_rank(b),
{
}

fn resources(s: &[Resource]) -> (r: Vec<Resource>)
    ensures
        r@ == s@,
{
    let mut v: Vec<Resource> = Vec::new();
    let mut i: usize = 0;
    while i < s.len()
        invariant
            i <= s@.len(),
            v@ =~= s@.subrange(0, i as int),
        decreases s@.len() - i,
    {
        v.push(s[i]);
        i = i + 1;
    }
    assert(v@ =~= s@);
    v
}

/// The swapchain-dependent objects in the order they are rebuilt.
pub fn swapchain_rebuild_order() -> (r: Vec<Resource>)
    ensures
        r@ == swapchain_chain(),
{
    let v = resources(
        &[
            Resource::Swapchain,
            Resource::ImageViews,
            Resource::RenderPass,
            Resource::PipelineLayout,
            Resource::Pipeline,
            Resource::Framebuffers,
            Resource::UniformBuffers,
            Resource::DescriptorPool,
            Resource::CommandBuffers,
        ],
    );
    assert(v@ =~= swapchain_chain());
    v
}

/// The swapchain-dependent objects in the order they are destroyed: the
/// reverse of the order they are built.
pub fn swapchain_teardown_order() -> (r: Vec<Resource>)
    ensures
        r@ == swapchain_chain().reverse(),
{
    let built = swapchain_rebuild_order();
    let mut v: Vec<Resource> = Vec::new();
    let mut i: usize = built.len();
    while i > 0
        invariant
            i <= built@.len(),
            built@ == swapchain_chain(),
            v@ =~= built@.subrange(i as int, built@.len() as int).reverse(),
        decreases i,
    {
        i = i - 1;
        v.push(built[i]);
        assert(v@ =~= built@.subrange(i as int, built@.len() as int).reverse());
    }
    assert(v@ =~= swapchain_chain().reverse());
    v
}

/// Every object in the order it is destroyed at shutdown.
pub fn shutdown_order() -> (r: Vec<Resource>)
    ensures
        r@ == shutdown_sequence(),
{
    let v = resources(
        &[
            Resource::TextureSampler,
            Resource::TextureImageView,
            Resource::TextureImage,
            Resource::CommandBuffers,
            Resource::DescriptorPool,
            Resource::UniformBuffers,
            Resource::Framebuffers,
            Resource::Pipeline,
            Resource::PipelineLayout,
            Resource::RenderPass,
            Resource::ImageViews,
            Resource::Swapchain,
            Resource::DescriptorSetLayout,
            Resource::IndexBuffer,
            Resource::VertexBuffer,
            Resource::SyncObjects,
            Resource::CommandPool,
            Resource::Device,
            Resource::DebugMessenger,
            Resource::Surface,
            Resource::Instance,
        ],
    );
    assert(v@ =~= shutdown_sequence());
    v
}

/// Every object in the order it is built at startup.
pub fn startup_order() -> (r: Vec<Resource>)
    ensures
        r@ == startup_sequence(),
{
    let v = resources(
        &[
            Resource::Instance,
            Resource::DebugMessenger,
            Resource::Surface,
            Resource::Device,
            Resource::CommandPool,
            Resource::DescriptorSetLayout,
            Resource::TextureImage,
            Resource::TextureImageView,
            Resource::TextureSampler,
            Resource::VertexBuffer,
            Resource::IndexBuffer,
            Resource::SyncObjects,
            Resource::Swapchain,
            Resource::ImageViews,
            Resource::RenderPass,
            Resource::PipelineLayout,
            Resource::Pipeline,
            Resource::Framebuffers,
            Resource::UniformBuffers,
            Resource::DescriptorPool,
            Resource::CommandBuffers,
        ],
    );
    assert(v@ =~= startup_sequence());
    v
}

/// The swapchain chain is built after what it depends on, torn down before
/// it, the startup sequence builds every object after those it depends on,
/// and the shutdown sequence destroys no object while another that depends on
/// it is still alive.
pub proof fn lemma_orders_respect_dependencies()
    ensures
        builds_in_order(startup_sequence()),
        builds_in_order(swapchain_chain()),
        destroys_in_order(swapchain_chain().reverse()),
        destroys_in_order(shutdown_sequence()),
{
    let u = startup_sequence();
    assert forall|i: int| 0 <= i < u.len() implies build_rank(#[trigger] u[i]) == i by {}
    assert forall|i: int, j: int| 0 <= i < j < u.len() implies !depends_on(
        #[trigger] u[i],
        #[trigger] u[j],
    ) by {
        lemma_build_rank_rises(u[i], u[j]);
    }
    let s = shutdown_sequence();
    assert forall|i: int| 0 <= i < s.len() implies level(#[trigger] s[i]) == 21 - i by {}
    assert forall|i: int, j: int| 0 <= i < j < s.len() implies !depends_on(
        #[trigger] s[j],
        #[trigger] s[i],
    ) by {
        lemma_level_falls(s[j], s[i]);
    }
    let c = swapchain_chain();
    assert forall|i: int| 0 <= i < c.len() implies level(#[trigger] c[i]) == 10 + i by {}
    assert forall|i: int, j: int| 0 <= i < j < c.len() implies !depends_on(
        #[trigger] c[i],
        #[trigger] c[j],
    ) by {
        lemma_level_falls(c[i], c[j]);
    }
    let t = c.reverse();
    assert forall|i: int, j: int| 0 <= i < j < t.len() implies !depends_on(
        #[trigger] t[j],
        #[trigger] t[i],
    ) by {
        assert(t[i] == c[c.len() - 1 - i]);
        assert(t[j] == c[c.len() - 1 - j]);
        lemma_level_falls(t[j], t[i]);
    }
}

} // verus!
