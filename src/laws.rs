use vstd::prelude::*;
use crate::commands::recorded;
use crate::frame::{
    AcquireOutcome, FlushOutcome, FrameAction, Phase, RendererView, acquire_step, fence_step,
    flush_step, mesh_step, surface_step, swapchain_step, tick_step,
};
use crate::geometry::UploadedMesh;
use crate::render_queue::{DrawCall, draws_of};

verus! {

/// The state after a sequence of mesh additions, each given as its index
/// count and the outcome of its upload.
pub open spec fn meshes_step(s: RendererView, calls: Seq<(u32, Option<UploadedMesh>)>) -> RendererView
    decreases calls.len(),
{
    if calls.len() == 0 {
        s
    } else {
        let last = calls.last();
        mesh_step(meshes_step(s, calls.drop_last()), last.0, last.1)
    }
}

/// How many of the additions had their buffers uploaded.
pub open spec fn successes(calls: Seq<(u32, Option<UploadedMesh>)>) -> nat
    decreases calls.len(),
{
    if calls.len() == 0 {
        0
    } else {
        successes(calls.drop_last()) + if calls.last().1 is Some {
            1nat
        } else {
            0nat
        }
    }
}

/// After any sequence of mesh additions the queue holds one more item per
/// successful addition, so it has data as soon as one addition succeeded.
pub proof fn lemma_queue_counts_successful_adds(
    s: RendererView,
    calls: Seq<(u32, Option<UploadedMesh>)>,
)
    ensures
        meshes_step(s, calls).items.len() == s.items.len() + successes(calls),
        successes(calls) > 0 ==> meshes_step(s, calls).items.len() > 0,
    decreases calls.len(),
{
    if calls.len() > 0 {
        lemma_queue_counts_successful_adds(s, calls.drop_last());
    }
}

/// A tick on an empty queue changes nothing and asks for no device work: no
/// swapchain recreation, acquisition, submission or presentation.
pub proof fn lemma_empty_queue_does_no_gpu_work(s: RendererView)
    requires
        s.items.len() == 0,
        !(s.phase is Lost),
    ensures
        tick_step(s) == (s, FrameAction::Done),
{
}

/// Recreating the swapchain at a non-degenerate size installs the new
/// framebuffers, one command buffer and one empty fence slot per new image.
pub proof fn lemma_recreation_resets_per_image_state(
    s: RendererView,
    width: u32,
    height: u32,
    swapchain: u64,
    framebuffers: Seq<u64>,
)
    requires
        s.wf(),
        s.phase is AwaitingSurfaceSize,
        width > 0,
        height > 0,
        framebuffers.len() > 0,
    ensures
        surface_step(s, width, height).1 == (FrameAction::RecreateSwapchain { width, height }),
        ({
            let r = swapchain_step(surface_step(s, width, height).0, swapchain, framebuffers).0;
            &&& r.wf()
            &&& r.swapchain == swapchain
            &&& r.framebuffers == framebuffers
            &&& r.command_buffers.len() == framebuffers.len()
            &&& r.fences.len() == framebuffers.len()
            &&& forall|k: int| 0 <= k < r.fences.len() ==> #[trigger] r.fences[k] is None
        }),
{
    let r = swapchain_step(surface_step(s, width, height).0, swapchain, framebuffers).0;
    assert(forall|k: int|
        0 <= k < r.image_count() ==> (#[trigger] r.command_buffers[k]).0 == r.framebuffers[k]);
}

/// A zero-area surface leaves the swapchain, framebuffers, command buffers
/// and the resize request as they were, and the next tick tries again.
pub proof fn lemma_degenerate_size_is_retried(s: RendererView, width: u32, height: u32)
    requires
        s.wf(),
        s.phase is AwaitingSurfaceSize,
        s.items.len() > 0,
        width == 0 || height == 0,
    ensures
        ({
            let (r, a) = surface_step(s, width, height);
            &&& a == FrameAction::Done
            &&& r.wf()
            &&& r.swapchain == s.swapchain
            &&& r.framebuffers == s.framebuffers
            &&& r.command_buffers == s.command_buffers
            &&& r.resize_requested == s.resize_requested
            &&& tick_step(r).1 == FrameAction::QuerySurfaceSize
        }),
{
}

/// A successful flush into a slot leaves the new fence in that slot.
pub proof fn lemma_flush_stores_fence(s: RendererView, image: usize, fence: u64)
    requires
        s.wf(),
        s.phase == (Phase::AwaitingFlush { image }),
    ensures
        flush_step(s, FlushOutcome::Signaled { fence }).0.fences[image as int] == Some(fence),
        flush_step(s, FlushOutcome::Signaled { fence }).0.wf(),
{
}

/// Work on other slots leaves a slot's fence in place: ticks, acquisitions,
/// fence waits and flushes touch only the slot that they draw into.
pub proof fn lemma_other_slots_keep_fence(s: RendererView, slot: int, outcome: FlushOutcome)
    requires
        s.wf(),
        0 <= slot < s.image_count(),
    ensures
        tick_step(s).0.fences == s.fences,
        forall|o: AcquireOutcome| #[trigger] acquire_step(s, o).0.fences == s.fences,
        fence_step(s).0.fences == s.fences,
        (s.phase matches Phase::AwaitingFlush { image } && image != slot) ==> flush_step(
            s,
            outcome,
        ).0.fences[slot] == s.fences[slot],
{
}

/// An image whose slot holds a fence is never submitted into before that
/// fence is waited on: acquisition asks for the wait, and only the report
/// that the wait is over leads to the submission.
pub proof fn lemma_fence_waited_before_reuse(
    s: RendererView,
    image: usize,
    suboptimal: bool,
    fence: u64,
)
    requires
        s.wf(),
        s.phase is AwaitingImage,
        image < s.image_count(),
        s.fences[image as int] == Some(fence),
    ensures
        ({
            let (r, a) = acquire_step(s, AcquireOutcome::Acquired { image_index: image, suboptimal });
            &&& a == FrameAction::WaitFence { fence }
            &&& r.phase == Phase::AwaitingFence { image }
            &&& fence_step(r).1 matches FrameAction::Submit { image_index, .. } && image_index == image
            &&& fence_step(r).0.phase == Phase::AwaitingFlush { image }
        }),
        forall|o: AcquireOutcome|
            !(#[trigger] acquire_step(s, o).1 matches FrameAction::Submit { image_index, .. }
                && image_index == image),
{
}

/// Uploading one mesh into an empty queue and starting a tick records, for
/// each framebuffer, exactly one draw: the mesh's vertex buffer at slot 0,
/// its index buffer, all of its indices, one instance.
pub proof fn lemma_upload_then_draw(s: RendererView, index_count: u32, upload: UploadedMesh)
    requires
        s.wf(),
        s.phase is Idle,
        s.items.len() == 0,
    ensures
        ({
            let r = tick_step(mesh_step(s, index_count, Some(upload))).0;
            let draw = DrawCall {
                vertex_slot: 0,
                vertex_buffer: upload.vertex_buffer,
                index_buffer: upload.index_buffer,
                index_count,
                instance_count: 1,
                first_index: 0,
                vertex_offset: 0,
                first_instance: 0,
            };
            &&& r.command_buffers.len() == s.image_count()
            &&& forall|k: int|
                0 <= k < s.image_count() ==> #[trigger] r.command_buffers[k] == (
                    s.framebuffers[k],
                    seq![draw],
                )
        }),
{
    let s1 = mesh_step(s, index_count, Some(upload));
    let r = tick_step(s1).0;
    assert(s1.items =~= seq![s1.items[0]]);
    assert(draws_of(s1.items) =~= seq![crate::render_queue::draw_of(s1.items[0])]);
    assert(r.command_buffers == recorded(s.framebuffers, s1.items));
}

} // verus!
