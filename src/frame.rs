use vstd::prelude::*;
use crate::commands::recorded;
use crate::geometry::UploadedMesh;
use crate::render_queue::{DrawCall, RenderItem};

verus! {

/// Where the pipeline stands within a tick.
#[derive(Clone, Copy, Debug, PartialEq, Eq, Structural)]
pub enum Phase {
    /// Between ticks.
    Idle,
    /// Waiting for the current drawable size of the surface.
    AwaitingSurfaceSize,
    /// Waiting for a swapchain recreated at this size.
    AwaitingSwapchain { width: u32, height: u32 },
    /// Waiting for the graphics pipeline to be rebuilt for the new viewport.
    AwaitingPipeline,
    /// Waiting for the next presentable image.
    AwaitingImage,
    /// Waiting for the fence of the acquired image's slot.
    AwaitingFence { image: usize },
    /// Waiting for the outcome of execute, present and fence signal.
    AwaitingFlush { image: usize },
    /// An unrecoverable device error happened; nothing more is done.
    Lost,
}

/// What the caller must do next on the graphics device.
#[derive(Clone, Copy, Debug, PartialEq, Eq, Structural)]
pub enum FrameAction {
    /// The tick is over.
    Done,
    /// Report the surface's current drawable size.
    QuerySurfaceSize,
    /// Recreate the swapchain at this extent.
    RecreateSwapchain { width: u32, height: u32 },
    /// Rebuild the graphics pipeline with a viewport of this size.
    RebuildPipeline { width: u32, height: u32 },
    /// Acquire the next presentable image.
    AcquireImage,
    /// Block until this fence signals.
    WaitFence { fence: u64 },
    /// Execute the command buffer of `image_index` after `after` (or at once
    /// when `None`) joined with the image acquisition, present the image and
    /// signal a new fence.
    Submit { image_index: usize, after: Option<u64> },
    /// The device is lost.
    Lost,
}

/// Outcome of acquiring the next presentable image.
#[derive(Clone, Copy, Debug, PartialEq, Eq, Structural)]
pub enum AcquireOutcome {
    Acquired { image_index: usize, suboptimal: bool },
    OutOfDate,
}

/// Outcome of the final flush of a submission.
#[derive(Clone, Copy, Debug, PartialEq, Eq, Structural)]
pub enum FlushOutcome {
    /// The submission will signal this fence.
    Signaled { fence: u64 },
    /// The surface no longer matches the swapchain.
    OutOfDate,
    /// Any other failure.
    Failed,
}

/// The state of the frame pipeline.
pub struct RendererView {
    /// The render queue, in draw order.
    pub items: Seq<RenderItem>,
    /// Handle of the current swapchain.
    pub swapchain: u64,
    /// One framebuffer per swapchain image.
    pub framebuffers: Seq<u64>,
    /// One command buffer per swapchain image: its framebuffer and its draws.
    pub command_buffers: Seq<(u64, Seq<DrawCall>)>,
    /// Per image slot, the fence of the last submission into it, if any.
    pub fences: Seq<Option<u64>>,
    /// The image submitted last.
    pub previous: int,
    /// A window resize was reported and not yet handled.
    pub resize_requested: bool,
    /// The swapchain is known not to match the surface.
    pub stale: bool,
    /// Width and height of the pipeline's viewport.
    pub viewport: (u32, u32),
    pub phase: Phase,
}

/// A table of `n` empty fence slots.
pub open spec fn empty_fences(n: nat) -> Seq<Option<u64>> {
    Seq::new(n, |i: int| None::<u64>)
}

impl RendererView {
    /// The swapchain image count: one framebuffer, one command buffer and one
    /// fence slot per image.
    pub open spec fn image_count(self) -> nat {
        self.framebuffers.len()
    }

    pub open spec fn wf(self) -> bool {
        &&& self.image_count() > 0
        &&& self.command_buffers.len() == self.image_count()
        &&& self.fences.len() == self.image_count()
        &&& forall|k: int|
            0 <= k < self.image_count() ==> (#[trigger] self.command_buffers[k]).0
                == self.framebuffers[k]
        &&& 0 <= self.previous < self.image_count()
        &&& self.phase matches Phase::AwaitingFence { image } ==> image < self.image_count()
        &&& self.phase matches Phase::AwaitingFlush { image } ==> image < self.image_count()
    }

    /// Whether `tick_step` may start a tick.
    pub open spec fn between_ticks(self) -> bool {
        self.phase is Idle || self.phase is Lost
    }
}

/// Appending an uploaded mesh.
pub open spec fn add_step(s: RendererView, item: RenderItem) -> RendererView {
    RendererView { items: s.items.push(item), ..s }
}

/// Adding a mesh of `index_count` indices whose upload gave `upload`: with
/// buffers the mesh is queued, without them nothing changes.
pub open spec fn mesh_step(s: RendererView, index_count: u32, upload: Option<UploadedMesh>) -> RendererView {
    match upload {
        Some(m) => add_step(
            s,
            RenderItem {
                vertex_buffer: m.vertex_buffer,
                index_buffer: m.index_buffer,
                num_indices: index_count,
            },
        ),
        None => s,
    }
}

/// Start of a tick. An empty queue, or a lost device, leaves everything as it
/// is. Otherwise the command buffers are re-recorded; then a pending resize or
/// a stale swapchain asks for the surface size (clearing the stale flag), and
/// else the next image is acquired.
pub open spec fn tick_step(s: RendererView) -> (RendererView, FrameAction) {
    if s.phase is Lost {
        (s, FrameAction::Lost)
    } else if s.items.len() == 0 {
        (s, FrameAction::Done)
    } else {
        let r = RendererView { command_buffers: recorded(s.framebuffers, s.items), ..s };
        if s.resize_requested || s.stale {
            (
                RendererView { stale: false, phase: Phase::AwaitingSurfaceSize, ..r },
                FrameAction::QuerySurfaceSize,
            )
        } else {
            (RendererView { phase: Phase::AwaitingImage, ..r }, FrameAction::AcquireImage)
        }
    }
}

/// The surface size is known. A zero area abandons the recreation for this
/// tick and marks the swapchain stale so that it is retried on the next.
pub open spec fn surface_step(s: RendererView, width: u32, height: u32) -> (
    RendererView,
    FrameAction,
) {
    if width == 0 || height == 0 {
        (RendererView { stale: true, phase: Phase::Idle, ..s }, FrameAction::Done)
    } else {
        (
            RendererView { phase: Phase::AwaitingSwapchain { width, height }, ..s },
            FrameAction::RecreateSwapchain { width, height },
        )
    }
}

/// A new swapchain is installed with its framebuffers. The command buffers
/// are re-recorded against them and the fence table starts empty. A pending
/// resize also asks for the pipeline to be rebuilt with the new viewport.
pub open spec fn swapchain_step(s: RendererView, swapchain: u64, framebuffers: Seq<u64>) -> (
    RendererView,
    FrameAction,
) {
    let (width, height) = match s.phase {
        Phase::AwaitingSwapchain { width, height } => (width, height),
        _ => (s.viewport.0, s.viewport.1),
    };
    let r = RendererView {
        swapchain,
        framebuffers,
        command_buffers: recorded(framebuffers, s.items),
        fences: empty_fences(framebuffers.len()),
        previous: 0,
        ..s
    };
    if s.resize_requested {
        (
            RendererView {
                resize_requested: false,
                viewport: (width, height),
                phase: Phase::AwaitingPipeline,
                ..r
            },
            FrameAction::RebuildPipeline { width, height },
        )
    } else {
        (RendererView { phase: Phase::AwaitingImage, ..r }, FrameAction::AcquireImage)
    }
}

/// The device refused the extent: like a zero area, retried next tick.
pub open spec fn unsupported_step(s: RendererView) -> (RendererView, FrameAction) {
    (RendererView { stale: true, phase: Phase::Idle, ..s }, FrameAction::Done)
}

/// The pipeline was rebuilt; the next image is acquired.
pub open spec fn pipeline_step(s: RendererView) -> (RendererView, FrameAction) {
    (RendererView { phase: Phase::AwaitingImage, ..s }, FrameAction::AcquireImage)
}

/// The submission for `image`: after the previous submission's fence, if
/// any.
pub open spec fn submit_action(s: RendererView, image: usize) -> FrameAction {
    FrameAction::Submit { image_index: image, after: s.fences[s.previous] }
}

/// The outcome of acquisition. Out of date ends the tick and marks the
/// swapchain stale; a suboptimal image is drawn and marks it stale too. If the
/// image's slot holds a fence, that fence is waited on before anything is
/// submitted into the slot.
pub open spec fn acquire_step(s: RendererView, outcome: AcquireOutcome) -> (
    RendererView,
    FrameAction,
) {
    match outcome {
        AcquireOutcome::OutOfDate => (
            RendererView { stale: true, phase: Phase::Idle, ..s },
            FrameAction::Done,
        ),
        AcquireOutcome::Acquired { image_index, suboptimal } => {
            let r = RendererView { stale: s.stale || suboptimal, ..s };
            match s.fences[image_index as int] {
                Some(fence) => (
                    RendererView { phase: Phase::AwaitingFence { image: image_index }, ..r },
                    FrameAction::WaitFence { fence },
                ),
                None => (
                    RendererView { phase: Phase::AwaitingFlush { image: image_index }, ..r },
                    submit_action(r, image_index),
                ),
            }
        },
    }
}

/// The slot's fence has signaled; the image's command buffer may be reused.
pub open spec fn fence_step(s: RendererView) -> (RendererView, FrameAction) {
    let image = match s.phase {
        Phase::AwaitingFence { image } => image,
        _ => 0,
    };
    (RendererView { phase: Phase::AwaitingFlush { image }, ..s }, submit_action(s, image))
}

/// The fence that a flush outcome leaves in the slot.
pub open spec fn fence_after(outcome: FlushOutcome) -> Option<u64> {
    match outcome {
        FlushOutcome::Signaled { fence } => Some(fence),
        _ => None,
    }
}

/// The outcome of the flush: the slot keeps the new fence, or none when the
/// flush failed; out of date also marks the swapchain stale. The image
/// becomes the previous one for the next tick.
pub open spec fn flush_step(s: RendererView, outcome: FlushOutcome) -> (RendererView, FrameAction) {
    let image = match s.phase {
        Phase::AwaitingFlush { image } => image,
        _ => 0,
    };
    (
        RendererView {
            fences: s.fences.update(image as int, fence_after(outcome)),
            stale: s.stale || outcome is OutOfDate,
            previous: image as int,
            phase: Phase::Idle,
            ..s
        },
        FrameAction::Done,
    )
}

/// An unrecoverable device error: terminal.
pub open spec fn lost_step(s: RendererView) -> (RendererView, FrameAction) {
    (RendererView { phase: Phase::Lost, ..s }, FrameAction::Lost)
}

} // verus!
