//! The order in which GPU objects are destroyed: when the swapchain is
//! rebuilt, and when the whole renderer is torn down.
use vstd::prelude::*;
use crate::sync::SyncObjects;

verus! {

/// The kind of a GPU object.
#[derive(Clone, Copy, Debug, PartialEq, Eq, Structural)]
pub enum ObjectKind {
    Framebuffer,
    ImageView,
    Swapchain,
    DescriptorPool,
    Buffer,
    Memory,
    DescriptorSetLayout,
    Pipeline,
    PipelineLayout,
    RenderPass,
    Fence,
    Semaphore,
    CommandPool,
    Device,
    DebugMessenger,
    Surface,
    Instance,
}

/// A GPU object by kind and raw handle.
#[derive(Clone, Copy, Debug, PartialEq, Eq, Structural)]
pub struct GpuObject {
    pub kind: ObjectKind,
    pub handle: u64,
}

/// One step of a rebuild or a teardown.
#[derive(Clone, Copy, Debug, PartialEq, Eq, Structural)]
pub enum LifecycleStep {
    /// Wait until the device has finished all submitted work.
    WaitIdle,
    Destroy(GpuObject),
    CreateSwapchain,
    CreateImageViews,
    CreateFramebuffers,
}

/// The objects tied to one swapchain.
pub struct SwapchainHandles {
    pub swapchain: u64,
    pub image_views: Vec<u64>,
    pub framebuffers: Vec<u64>,
}

/// A buffer and the memory bound to it, which go together.
#[derive(Clone, Copy, Debug, PartialEq, Eq, Structural)]
pub struct BufferMem {
    pub buffer: u64,
    pub memory: u64,
}

/// Every object that the renderer owns, by raw handle.
pub struct EngineHandles {
    pub device: u64,
    pub instance: u64,
    pub swapchain: SwapchainHandles,
    pub descriptor_pool: u64,
    pub uniform_buffers: Vec<BufferMem>,
    pub index_buffer: BufferMem,
    pub vertex_buffer: BufferMem,
    pub descriptor_set_layout: u64,
    pub pipeline: u64,
    pub pipeline_layout: u64,
    pub render_pass: u64,
    pub sync_objects: Vec<SyncObjects>,
    pub command_pool: u64,
    pub debug_messenger: Option<u64>,
    pub surface: u64,
}

pub open spec fn destroy(kind: ObjectKind, handle: u64) -> LifecycleStep {
    LifecycleStep::Destroy(GpuObject { kind, handle })
}

/// Destruction of each handle, in order.
pub open spec fn destroy_all(kind: ObjectKind, handles: Seq<u64>) -> Seq<LifecycleStep> {
    handles.map_values(|h: u64| destroy(kind, h))
}

/// Framebuffers, then image views, then the swapchain.
pub open spec fn cleanup_steps(h: SwapchainHandles) -> Seq<LifecycleStep> {
    destroy_all(ObjectKind::Framebuffer, h.framebuffers@) + destroy_all(
        ObjectKind::ImageView,
        h.image_views@,
    ) + seq![destroy(ObjectKind::Swapchain, h.swapchain)]
}

/// Wait for idle, destroy the old chain, build the new one.
pub open spec fn recreate_steps(h: SwapchainHandles) -> Seq<LifecycleStep> {
    seq![LifecycleStep::WaitIdle] + cleanup_steps(h) + seq![
        LifecycleStep::CreateSwapchain,
        LifecycleStep::CreateImageViews,
        LifecycleStep::CreateFramebuffers,
    ]
}

/// The positions of a rebuild's steps: the wait, then each framebuffer, then
/// each image view, then the swapchain, then the three creations.
proof fn lemma_recreate_layout(h: SwapchainHandles)
    ensures
        ({
            let s = recreate_steps(h);
            let nf = h.framebuffers@.len() as int;
            let nv = h.image_views@.len() as int;
            &&& s.len() == nf + nv + 5
            &&& s[0] == LifecycleStep::WaitIdle
            &&& forall|i: int|
                0 <= i < nf ==> #[trigger] s[1 + i] == destroy(
                    ObjectKind::Framebuffer,
                    h.framebuffers@[i],
                )
            &&& forall|i: int|
                0 <= i < nv ==> #[trigger] s[1 + nf + i] == destroy(
                    ObjectKind::ImageView,
                    h.image_views@[i],
                )
            &&& s[1 + nf + nv] == destroy(ObjectKind::Swapchain, h.swapchain)
            &&& s[2 + nf + nv] == LifecycleStep::CreateSwapchain
            &&& s[3 + nf + nv] == LifecycleStep::CreateImageViews
            &&& s[4 + nf + nv] == LifecycleStep::CreateFramebuffers
        }),
{
    let s = recreate_steps(h);
    let nf = h.framebuffers@.len() as int;
    let nv = h.image_views@.len() as int;
    let f = destroy_all(ObjectKind::Framebuffer, h.framebuffers@);
    let v = destroy_all(ObjectKind::ImageView, h.image_views@);
    assert forall|i: int| 0 <= i < nf implies #[trigger] s[1 + i] == destroy(
        ObjectKind::Framebuffer,
        h.framebuffers@[i],
    ) by {
        assert(s[1 + i] == f[i]);
    }
    assert forall|i: int| 0 <= i < nv implies #[trigger] s[1 + nf + i] == destroy(
        ObjectKind::ImageView,
        h.image_views@[i],
    ) by {
        assert(s[1 + nf + i] == v[i]);
    }
}

/// A rebuild first waits for the device to idle, destroys every object of
/// the old chain, none of them twice when the chain's handles are
/// distinct, and creates swapchain, image views and framebuffers only after
/// the last destruction.
pub proof fn lemma_recreate_destroys_each_once(h: SwapchainHandles)
    requires
        h.framebuffers@.no_duplicates(),
        h.image_views@.no_duplicates(),
    ensures
        recreate_steps(h)[0] == LifecycleStep::WaitIdle,
        forall|i: int|
            0 <= i < h.framebuffers@.len() ==> recreate_steps(h).contains(
                destroy(ObjectKind::Framebuffer, #[trigger] h.framebuffers@[i]),
            ),
        forall|i: int|
            0 <= i < h.image_views@.len() ==> recreate_steps(h).contains(
                destroy(ObjectKind::ImageView, #[trigger] h.image_views@[i]),
            ),
        recreate_steps(h).contains(destroy(ObjectKind::Swapchain, h.swapchain)),
        forall|j: int, k: int|
            0 <= j < k < recreate_steps(h).len() && (#[trigger] recreate_steps(h)[j]) is Destroy
                ==> recreate_steps(h)[j] != #[trigger] recreate_steps(h)[k],
        recreate_steps(h).subrange(
            recreate_steps(h).len() - 3,
            recreate_steps(h).len() as int,
        ) == seq![
            LifecycleStep::CreateSwapchain,
            LifecycleStep::CreateImageViews,
            LifecycleStep::CreateFramebuffers,
        ],
        forall|j: int|
            0 < j < recreate_steps(h).len() - 3 ==> (#[trigger] recreate_steps(h)[j]) is Destroy,
{
    lemma_recreate_layout(h);
    let s = recreate_steps(h);
    let nf = h.framebuffers@.len() as int;
    let nv = h.image_views@.len() as int;
    assert forall|i: int| 0 <= i < nf implies s.contains(
        destroy(ObjectKind::Framebuffer, #[trigger] h.framebuffers@[i]),
    ) by {
        assert(s[1 + i] == destroy(ObjectKind::Framebuffer, h.framebuffers@[i]));
    }
    assert forall|i: int| 0 <= i < nv implies s.contains(
        destroy(ObjectKind::ImageView, #[trigger] h.image_views@[i]),
    ) by {
        assert(s[1 + nf + i] == destroy(ObjectKind::ImageView, h.image_views@[i]));
    }
    assert(s[1 + nf + nv] == destroy(ObjectKind::Swapchain, h.swapchain));
    assert forall|j: int| 0 < j < s.len() - 3 implies (#[trigger] s[j]) is Destroy by {
        if j <= nf {
            assert(s[1 + (j - 1)] == destroy(ObjectKind::Framebuffer, h.framebuffers@[j - 1]));
        } else if j <= nf + nv {
            assert(s[1 + nf + (j - nf - 1)] == destroy(
                ObjectKind::ImageView,
                h.image_views@[j - nf - 1],
            ));
        }
    }
    assert forall|j: int, k: int|
        0 <= j < k < s.len() && (#[trigger] s[j]) is Destroy implies s[j] != #[trigger] s[k] by {
        if 1 <= j <= nf && 1 <= k <= nf {
            assert(s[1 + (j - 1)] == destroy(ObjectKind::Framebuffer, h.framebuffers@[j - 1]));
            assert(s[1 + (k - 1)] == destroy(ObjectKind::Framebuffer, h.framebuffers@[k - 1]));
        } else if nf < j <= nf + nv && nf < k <= nf + nv {
            assert(s[1 + nf + (j - nf - 1)] == destroy(
                ObjectKind::ImageView,
                h.image_views@[j - nf - 1],
            ));
            assert(s[1 + nf + (k - nf - 1)] == destroy(
                ObjectKind::ImageView,
                h.image_views@[k - nf - 1],
            ));
        } else if 1 <= j <= nf {
            assert(s[1 + (j - 1)] == destroy(ObjectKind::Framebuffer, h.framebuffers@[j - 1]));
            if k <= nf + nv {
                assert(s[1 + nf + (k - nf - 1)] == destroy(
                    ObjectKind::ImageView,
                    h.image_views@[k - nf - 1],
                ));
            }
        } else if nf < j <= nf + nv {
            assert(s[1 + nf + (j - nf - 1)] == destroy(
                ObjectKind::ImageView,
                h.image_views@[j - nf - 1],
            ));
        }
    }
    assert(s.subrange(s.len() - 3, s.len() as int) =~= seq![
        LifecycleStep::CreateSwapchain,
        LifecycleStep::CreateImageViews,
        LifecycleStep::CreateFramebuffers,
    ]);
}

/// Each buffer, then its memory.
pub open spec fn buffer_steps(bufs: Seq<BufferMem>) -> Seq<LifecycleStep>
    decreases bufs.len(),
{
    if bufs.len() == 0 {
        seq![]
    } else {
        buffer_steps(bufs.drop_last()) + seq![
            destroy(ObjectKind::Buffer, bufs.last().buffer),
            destroy(ObjectKind::Memory, bufs.last().memory),
        ]
    }
}

/// Each slot's fence, then its two semaphores.
pub open spec fn sync_steps(objs: Seq<SyncObjects>) -> Seq<LifecycleStep>
    decreases objs.len(),
{
    if objs.len() == 0 {
        seq![]
    } else {
        sync_steps(objs.drop_last()) + seq![
            destroy(ObjectKind::Fence, objs.last().fence),
            destroy(ObjectKind::Semaphore, objs.last().image_available_semaphores),
            destroy(ObjectKind::Semaphore, objs.last().render_finished_semaphore),
        ]
    }
}

/// Everything, dependents before what they depend on: wait for idle, the
/// swapchain's objects, descriptor pool, uniform, index and vertex buffers,
/// pipeline, pipeline layout, descriptor-set layout, render pass, the
/// frames' fences and semaphores, command pool, device, debug messenger, surface,
/// instance.
pub open spec fn teardown_steps(e: EngineHandles) -> Seq<LifecycleStep> {
    seq![LifecycleStep::WaitIdle] + cleanup_steps(e.swapchain) + seq![
        destroy(ObjectKind::DescriptorPool, e.descriptor_pool),
    ] + buffer_steps(e.uniform_buffers@) + buffer_steps(seq![e.index_buffer, e.vertex_buffer])
        + seq![
        destroy(ObjectKind::Pipeline, e.pipeline),
        destroy(ObjectKind::PipelineLayout, e.pipeline_layout),
        destroy(ObjectKind::DescriptorSetLayout, e.descriptor_set_layout),
        destroy(ObjectKind::RenderPass, e.render_pass),
    ] + sync_steps(e.sync_objects@) + seq![
        destroy(ObjectKind::CommandPool, e.command_pool),
        destroy(ObjectKind::Device, e.device),
    ] + match e.debug_messenger {
        Some(m) => seq![destroy(ObjectKind::DebugMessenger, m)],
        None => seq![],
    } + seq![destroy(ObjectKind::Surface, e.surface), destroy(ObjectKind::Instance, e.instance)]
}

/// An object of kind `a` is made from, or refers to, an object of kind `b`,
/// so it must be destroyed first. (Each buffer's own memory is freed right
/// after the buffer; that pairing is per object, not per kind.)
pub open spec fn depends_on(a: ObjectKind, b: ObjectKind) -> bool {
    match a {
        ObjectKind::DebugMessenger | ObjectKind::Surface | ObjectKind::Device => b
            == ObjectKind::Instance,
        ObjectKind::Swapchain => b == ObjectKind::Device || b == ObjectKind::Surface,
        ObjectKind::ImageView => b == ObjectKind::Device || b == ObjectKind::Swapchain,
        ObjectKind::PipelineLayout => b == ObjectKind::Device || b
            == ObjectKind::DescriptorSetLayout,
        ObjectKind::Pipeline => b == ObjectKind::Device || b == ObjectKind::PipelineLayout || b
            == ObjectKind::RenderPass,
        ObjectKind::Framebuffer => b == ObjectKind::Device || b == ObjectKind::RenderPass || b
            == ObjectKind::ImageView,
        ObjectKind::DescriptorPool => b == ObjectKind::Device || b == ObjectKind::Buffer || b
            == ObjectKind::DescriptorSetLayout,
        ObjectKind::RenderPass | ObjectKind::DescriptorSetLayout | ObjectKind::CommandPool
        | ObjectKind::Buffer | ObjectKind::Memory | ObjectKind::Fence
        | ObjectKind::Semaphore => b == ObjectKind::Device,
        ObjectKind::Instance => false,
    }
}

/// Where a step falls in a teardown: every step of a lower rank comes first.
spec fn step_rank(s: LifecycleStep) -> int {
    match s {
        LifecycleStep::Destroy(o) => match o.kind {
            ObjectKind::Framebuffer => 1,
            ObjectKind::ImageView => 2,
            ObjectKind::Swapchain => 3,
            ObjectKind::DescriptorPool => 4,
            ObjectKind::Buffer | ObjectKind::Memory => 5,
            ObjectKind::Pipeline => 6,
            ObjectKind::PipelineLayout => 7,
            ObjectKind::DescriptorSetLayout => 8,
            ObjectKind::RenderPass => 9,
            ObjectKind::Fence | ObjectKind::Semaphore => 10,
            ObjectKind::CommandPool => 11,
            ObjectKind::Device => 12,
            ObjectKind::DebugMessenger => 13,
            ObjectKind::Surface => 14,
            ObjectKind::Instance => 15,
        },
        _ => 0,
    }
}

spec fn ranks_sorted(s: Seq<LifecycleStep>) -> bool {
    forall|j: int, k: int|
        0 <= j < k < s.len() ==> step_rank(#[trigger] s[j]) <= step_rank(#[trigger] s[k])
}

spec fn ranks_within(s: Seq<LifecycleStep>, lo: int, hi: int) -> bool {
    forall|i: int| 0 <= i < s.len() ==> lo <= #[trigger] step_rank(s[i]) <= hi
}

proof fn lemma_join_sorted(a: Seq<LifecycleStep>, b: Seq<LifecycleStep>, lo: int, mid: int, hi: int)
    requires
        lo <= mid <= hi,
        ranks_sorted(a),
        ranks_sorted(b),
        ranks_within(a, lo, mid),
        ranks_within(b, mid, hi),
    ensures
        ranks_sorted(a + b),
        ranks_within(a + b, lo, hi),
{
    let c = a + b;
    assert forall|j: int, k: int| 0 <= j < k < c.len() implies step_rank(#[trigger] c[j])
        <= step_rank(#[trigger] c[k]) by {
        if k < a.len() {
            assert(c[j] == a[j] && c[k] == a[k]);
        } else if j >= a.len() {
            assert(c[j] == b[j - a.len()] && c[k] == b[k - a.len()]);
        } else {
            assert(c[j] == a[j] && c[k] == b[k - a.len()]);
        }
    }
    assert forall|i: int| 0 <= i < c.len() implies lo <= #[trigger] step_rank(c[i]) <= hi by {
        if i < a.len() {
            assert(c[i] == a[i]);
        } else {
            assert(c[i] == b[i - a.len()]);
        }
    }
}

proof fn lemma_destroy_all_rank(kind: ObjectKind, handles: Seq<u64>, r: int)
    requires
        step_rank(destroy(kind, 0)) == r,
    ensures
        ranks_sorted(destroy_all(kind, handles)),
        ranks_within(destroy_all(kind, handles), r, r),
{
    let s = destroy_all(kind, handles);
    assert forall|i: int| 0 <= i < s.len() implies r <= #[trigger] step_rank(s[i]) <= r by {
        assert(s[i] == destroy(kind, handles[i]));
    }
}

proof fn lemma_buffer_steps_rank(bufs: Seq<BufferMem>)
    ensures
        ranks_sorted(buffer_steps(bufs)),
        ranks_within(buffer_steps(bufs), 5, 5),
    decreases bufs.len(),
{
    if bufs.len() > 0 {
        lemma_buffer_steps_rank(bufs.drop_last());
        let tail = seq![
            destroy(ObjectKind::Buffer, bufs.last().buffer),
            destroy(ObjectKind::Memory, bufs.last().memory),
        ];
        lemma_join_sorted(buffer_steps(bufs.drop_last()), tail, 5, 5, 5);
    }
}

proof fn lemma_sync_steps_rank(objs: Seq<SyncObjects>)
    ensures
        ranks_sorted(sync_steps(objs)),
        ranks_within(sync_steps(objs), 10, 10),
    decreases objs.len(),
{
    if objs.len() > 0 {
        lemma_sync_steps_rank(objs.drop_last());
        let tail = seq![
            destroy(ObjectKind::Fence, objs.last().fence),
            destroy(ObjectKind::Semaphore, objs.last().image_available_semaphores),
            destroy(ObjectKind::Semaphore, objs.last().render_finished_semaphore),
        ];
        lemma_join_sorted(sync_steps(objs.drop_last()), tail, 10, 10, 10);
    }
}

/// A teardown waits for the device to idle, then only destroys, and never
/// destroys an object of a kind that an object destroyed later depends on.
pub proof fn lemma_teardown_respects_dependencies(e: EngineHandles)
    ensures
        teardown_steps(e)[0] == LifecycleStep::WaitIdle,
        forall|i: int| 0 < i < teardown_steps(e).len() ==> (#[trigger] teardown_steps(e)[i]) is Destroy,
        forall|j: int, k: int|
            0 <= j < k < teardown_steps(e).len() && (#[trigger] teardown_steps(e)[j]) is Destroy
                ==> !depends_on((#[trigger] teardown_steps(e)[k])->Destroy_0.kind, teardown_steps(
                e,
            )[j]->Destroy_0.kind),
{
    let w = seq![LifecycleStep::WaitIdle];
    let fb = destroy_all(ObjectKind::Framebuffer, e.swapchain.framebuffers@);
    let iv = destroy_all(ObjectKind::ImageView, e.swapchain.image_views@);
    let sc = seq![destroy(ObjectKind::Swapchain, e.swapchain.swapchain)];
    let dp = seq![destroy(ObjectKind::DescriptorPool, e.descriptor_pool)];
    let ub = buffer_steps(e.uniform_buffers@);
    let sb = buffer_steps(seq![e.index_buffer, e.vertex_buffer]);
    let pl = seq![
        destroy(ObjectKind::Pipeline, e.pipeline),
        destroy(ObjectKind::PipelineLayout, e.pipeline_layout),
        destroy(ObjectKind::DescriptorSetLayout, e.descriptor_set_layout),
        destroy(ObjectKind::RenderPass, e.render_pass),
    ];
    let sy = sync_steps(e.sync_objects@);
    let cd = seq![
        destroy(ObjectKind::CommandPool, e.command_pool),
        destroy(ObjectKind::Device, e.device),
    ];
    let dm: Seq<LifecycleStep> = match e.debug_messenger {
        Some(m) => seq![destroy(ObjectKind::DebugMessenger, m)],
        None => seq![],
    };
    let si = seq![destroy(ObjectKind::Surface, e.surface), destroy(ObjectKind::Instance, e.instance)];
    lemma_destroy_all_rank(ObjectKind::Framebuffer, e.swapchain.framebuffers@, 1);
    lemma_destroy_all_rank(ObjectKind::ImageView, e.swapchain.image_views@, 2);
    lemma_buffer_steps_rank(e.uniform_buffers@);
    lemma_buffer_steps_rank(seq![e.index_buffer, e.vertex_buffer]);
    lemma_sync_steps_rank(e.sync_objects@);
    lemma_join_sorted(w, fb, 0, 1, 1);
    lemma_join_sorted(w + fb, iv, 0, 2, 2);
    lemma_join_sorted(w + fb + iv, sc, 0, 3, 3);
    assert(w + fb + iv + sc == seq![LifecycleStep::WaitIdle] + cleanup_steps(e.swapchain)) by {
        assert(w + fb + iv + sc =~= seq![LifecycleStep::WaitIdle] + cleanup_steps(e.swapchain));
    }
    let p4 = w + fb + iv + sc;
    lemma_join_sorted(p4, dp, 0, 4, 4);
    lemma_join_sorted(p4 + dp, ub, 0, 5, 5);
    lemma_join_sorted(p4 + dp + ub, sb, 0, 5, 5);
    lemma_join_sorted(p4 + dp + ub + sb, pl, 0, 6, 9);
    lemma_join_sorted(p4 + dp + ub + sb + pl, sy, 0, 10, 10);
    lemma_join_sorted(p4 + dp + ub + sb + pl + sy, cd, 0, 11, 12);
    lemma_join_sorted(p4 + dp + ub + sb + pl + sy + cd, dm, 0, 13, 13);
    lemma_join_sorted(p4 + dp + ub + sb + pl + sy + cd + dm, si, 0, 14, 15);
    let t = teardown_steps(e);
    assert(t == p4 + dp + ub + sb + pl + sy + cd + dm + si);
    assert forall|i: int| 0 < i < t.len() implies (#[trigger] t[i]) is Destroy by {
        assert(step_rank(t[0]) <= step_rank(t[i]));
        assert(t[0] == LifecycleStep::WaitIdle);
        assert(ranks_within(p4, 0, 3));
        assert(p4[0] == LifecycleStep::WaitIdle);
    }
    assert forall|j: int, k: int|
        0 <= j < k < t.len() && (#[trigger] t[j]) is Destroy implies !depends_on(
        (#[trigger] t[k])->Destroy_0.kind,
        t[j]->Destroy_0.kind,
    ) by {
        assert(step_rank(t[j]) <= step_rank(t[k]));
    }
}

fn push_destroy_all(out: &mut Vec<LifecycleStep>, kind: ObjectKind, handles: &Vec<u64>)
    ensures
        final(out)@ == old(out)@ + destroy_all(kind, handles@),
{
    let ghost start = out@;
    let mut i: usize = 0;
    while i < handles.len()
        invariant
            i <= handles@.len(),
            out@ == start + destroy_all(kind, handles@.subrange(0, i as int)),
        decreases handles@.len() - i,
    {
        out.push(LifecycleStep::Destroy(GpuObject { kind, handle: handles[i] }));
        i = i + 1;
        assert(destroy_all(kind, handles@.subrange(0, i as int)) =~= destroy_all(
            kind,
            handles@.subrange(0, i - 1 as int),
        ).push(destroy(kind, handles@[i - 1])));
    }
    assert(handles@.subrange(0, i as int) =~= handles@);
}

fn push_buffers(out: &mut Vec<LifecycleStep>, bufs: &Vec<BufferMem>)
    ensures
        final(out)@ == old(out)@ + buffer_steps(bufs@),
{
    let ghost start = out@;
    let mut i: usize = 0;
    while i < bufs.len()
        invariant
            i <= bufs@.len(),
            out@ == start + buffer_steps(bufs@.subrange(0, i as int)),
        decreases bufs@.len() - i,
    {
        let b = bufs[i];
        out.push(LifecycleStep::Destroy(GpuObject { kind: ObjectKind::Buffer, handle: b.buffer }));
        out.push(LifecycleStep::Destroy(GpuObject { kind: ObjectKind::Memory, handle: b.memory }));
        i = i + 1;
        assert(bufs@.subrange(0, i as int).drop_last() =~= bufs@.subrange(0, i - 1 as int));
        assert(out@ =~= start + buffer_steps(bufs@.subrange(0, i as int)));
    }
    assert(bufs@.subrange(0, i as int) =~= bufs@);
}

fn push_sync(out: &mut Vec<LifecycleStep>, objs: &Vec<SyncObjects>)
    ensures
        final(out)@ == old(out)@ + sync_steps(objs@),
{
    let ghost start = out@;
    let mut i: usize = 0;
    while i < objs.len()
        invariant
            i <= objs@.len(),
            out@ == start + sync_steps(objs@.subrange(0, i as int)),
        decreases objs@.len() - i,
    {
        let o = objs[i];
        out.push(LifecycleStep::Destroy(GpuObject { kind: ObjectKind::Fence, handle: o.fence }));
        out.push(
            LifecycleStep::Destroy(
                GpuObject { kind: ObjectKind::Semaphore, handle: o.image_available_semaphores },
            ),
        );
        out.push(
            LifecycleStep::Destroy(
                GpuObject { kind: ObjectKind::Semaphore, handle: o.render_finished_semaphore },
            ),
        );
        i = i + 1;
        assert(objs@.subrange(0, i as int).drop_last() =~= objs@.subrange(0, i - 1 as int));
        assert(out@ =~= start + sync_steps(objs@.subrange(0, i as int)));
    }
    assert(objs@.subrange(0, i as int) =~= objs@);
}

fn push_one(out: &mut Vec<LifecycleStep>, kind: ObjectKind, handle: u64)
    ensures
        final(out)@ == old(out)@.push(destroy(kind, handle)),
{
    out.push(LifecycleStep::Destroy(GpuObject { kind, handle }));
}

/// Destroys the framebuffers, image views and swapchain of one chain.
pub fn cleanup_swapchain(h: &SwapchainHandles) -> (r: Vec<LifecycleStep>)
    ensures
        r@ == cleanup_steps(*h),
{
    let mut out: Vec<LifecycleStep> = Vec::new();
    push_destroy_all(&mut out, ObjectKind::Framebuffer, &h.framebuffers);
    push_destroy_all(&mut out, ObjectKind::ImageView, &h.image_views);
    push_one(&mut out, ObjectKind::Swapchain, h.swapchain);
    assert(out@ =~= cleanup_steps(*h));
    out
}

/// Rebuilds the swapchain: waits for idle, destroys the old chain, then
/// creates swapchain, image views and framebuffers anew.
pub fn recreate_swapchain(h: &SwapchainHandles) -> (r: Vec<LifecycleStep>)
    ensures
        r@ == recreate_steps(*h),
{
    let mut out: Vec<LifecycleStep> = Vec::new();
    out.push(LifecycleStep::WaitIdle);
    let mut cleanup = cleanup_swapchain(h);
    out.append(&mut cleanup);
    out.push(LifecycleStep::CreateSwapchain);
    out.push(LifecycleStep::CreateImageViews);
    out.push(LifecycleStep::CreateFramebuffers);
    assert(out@ =~= recreate_steps(*h));
    out
}

/// Tears everything down in reverse order of creation, after waiting for
/// the device to idle.
pub fn teardown(e: &EngineHandles) -> (r: Vec<LifecycleStep>)
    ensures
        r@ == teardown_steps(*e),
{
    let mut out: Vec<LifecycleStep> = Vec::new();
    out.push(LifecycleStep::WaitIdle);
    let mut cleanup = cleanup_swapchain(&e.swapchain);
    out.append(&mut cleanup);
    push_one(&mut out, ObjectKind::DescriptorPool, e.descriptor_pool);
    push_buffers(&mut out, &e.uniform_buffers);
    let mut statics: Vec<BufferMem> = Vec::new();
    statics.push(e.index_buffer);
    statics.push(e.vertex_buffer);
    push_buffers(&mut out, &statics);
    push_one(&mut out, ObjectKind::Pipeline, e.pipeline);
    push_one(&mut out, ObjectKind::PipelineLayout, e.pipeline_layout);
    push_one(&mut out, ObjectKind::DescriptorSetLayout, e.descriptor_set_layout);
    push_one(&mut out, ObjectKind::RenderPass, e.render_pass);
    push_sync(&mut out, &e.sync_objects);
    push_one(&mut out, ObjectKind::CommandPool, e.command_pool);
    push_one(&mut out, ObjectKind::Device, e.device);
    match e.debug_messenger {
        Some(m) => push_one(&mut out, ObjectKind::DebugMessenger, m),
        None => {},
    }
    push_one(&mut out, ObjectKind::Surface, e.surface);
    push_one(&mut out, ObjectKind::Instance, e.instance);
    assert(statics@ =~= seq![e.index_buffer, e.vertex_buffer]);
    assert(out@ =~= teardown_steps(*e));
    out
}

} // verus!
