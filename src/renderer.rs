use vstd::prelude::*;
use crate::commands::{CommandBufferPlan, get_command_buffers, plans_view, recorded};
use crate::frame::{
    AcquireOutcome, FlushOutcome, FrameAction, Phase, RendererView, acquire_step, add_step,
    empty_fences, fence_after, mesh_step, fence_step, flush_step, lost_step, pipeline_step, surface_step,
    swapchain_step, tick_step, unsupported_step,
};
use crate::geometry::{CheckedGeometry, GeometryError, UploadedMesh};
use crate::render_queue::{RenderItem, RenderQueue};

verus! {

/// The renderer facade and the frame pipeline behind it.
///
/// The device objects (swapchain, framebuffers, fences, buffers) live with
/// the caller; this type holds their handles and decides, tick by tick, what
/// the caller does with them. Callers share one value behind a lock: no tick
/// runs while geometry is added.
pub struct VulkanRenderer {
    render_queue: RenderQueue,
    swapchain: u64,
    framebuffers: Vec<u64>,
    command_buffers: Vec<CommandBufferPlan>,
    fences: Vec<Option<u64>>,
    previous_fence_i: usize,
    window_resized: bool,
    recreate_swapchain: bool,
    viewport: (u32, u32),
    phase: Phase,
}

impl View for VulkanRenderer {
    type V = RendererView;

    closed spec fn view(&self) -> RendererView {
        RendererView {
            items: self.render_queue@,
            swapchain: self.swapchain,
            framebuffers: self.framebuffers@,
            command_buffers: plans_view(self.command_buffers@),
            fences: self.fences@,
            previous: self.previous_fence_i as int,
            resize_requested: self.window_resized,
            stale: self.recreate_swapchain,
            viewport: self.viewport,
            phase: self.phase,
        }
    }
}

fn no_fences(n: usize) -> (r: Vec<Option<u64>>)
    ensures
        r@ == empty_fences(n as nat),
{
    let mut fences: Vec<Option<u64>> = Vec::new();
    let mut i: usize = 0;
    while i < n
        invariant
            i <= n,
            fences@ == empty_fences(i as nat),
        decreases n - i,
    {
        fences.push(None);
        proof {
            assert(fences@ =~= empty_fences((i + 1) as nat));
        }
        i = i + 1;
    }
    fences
}

impl VulkanRenderer {
    /// A pipeline ready to draw on a freshly created swapchain whose images
    /// have the given framebuffers, with a viewport of the given size and an
    /// empty queue.
    pub fn new(swapchain: u64, framebuffers: Vec<u64>, width: u32, height: u32) -> (r:
        VulkanRenderer)
        requires
            framebuffers@.len() > 0,
        ensures
            r@ == (RendererView {
                items: Seq::empty(),
                swapchain,
                framebuffers: framebuffers@,
                command_buffers: recorded(framebuffers@, Seq::empty()),
                fences: empty_fences(framebuffers@.len()),
                previous: 0,
                resize_requested: false,
                stale: false,
                viewport: (width, height),
                phase: Phase::Idle,
            }),
            r@.wf(),
    {
        let render_queue = RenderQueue::new();
        let command_buffers = get_command_buffers(&framebuffers, &render_queue);
        let fences = no_fences(framebuffers.len());
        VulkanRenderer {
            render_queue,
            swapchain,
            framebuffers,
            command_buffers,
            fences,
            previous_fence_i: 0,
            window_resized: false,
            recreate_swapchain: false,
            viewport: (width, height),
            phase: Phase::Idle,
        }
    }

    /// Asks for the swapchain to be recreated at the next tick. Idempotent.
    pub fn schedule_resize(&mut self)
        ensures
            final(self)@ == (RendererView { resize_requested: true, ..old(self)@ }),
    {
        self.window_resized = true;
    }

    /// Queues a mesh once its buffers were uploaded. Without buffers (the
    /// device could not allocate them) nothing is queued.
    pub fn add_mesh(&mut self, geometry: CheckedGeometry, upload: Option<UploadedMesh>) -> (r:
        Result<(), GeometryError>)
        ensures
            final(self)@ == mesh_step(old(self)@, geometry.index_count, upload),
            upload matches Some(m) ==> r is Ok && final(self)@ == add_step(
                old(self)@,
                RenderItem {
                    vertex_buffer: m.vertex_buffer,
                    index_buffer: m.index_buffer,
                    num_indices: geometry.index_count,
                },
            ),
            upload is None ==> r == Err::<(), GeometryError>(GeometryError::Allocation)
                && final(self)@ == old(self)@,
    {
        match upload {
            Some(m) => {
                let item = RenderItem::new(m.vertex_buffer, m.index_buffer, geometry.index_count);
                self.render_queue.add_render_item(item);
                Ok(())
            },
            None => Err(GeometryError::Allocation),
        }
    }

    /// Starts a tick.
    pub fn update(&mut self) -> (r: FrameAction)
        requires
            old(self)@.wf(),
            old(self)@.between_ticks(),
        ensures
            (final(self)@, r) == tick_step(old(self)@),
            final(self)@.wf(),
    {
        if self.phase == Phase::Lost {
            return FrameAction::Lost;
        }
        if !self.render_queue.has_any_data() {
            return FrameAction::Done;
        }
        self.command_buffers = get_command_buffers(&self.framebuffers, &self.render_queue);
        proof {
            assert(forall|k: int|
                0 <= k < self@.image_count() ==> (#[trigger] self@.command_buffers[k]).0
                    == self@.framebuffers[k]);
        }
        if self.window_resized || self.recreate_swapchain {
            self.recreate_swapchain = false;
            self.phase = Phase::AwaitingSurfaceSize;
            FrameAction::QuerySurfaceSize
        } else {
            self.phase = Phase::AwaitingImage;
            FrameAction::AcquireImage
        }
    }

    /// Reports the surface's drawable size, as asked by
    /// `FrameAction::QuerySurfaceSize`.
    pub fn surface_size(&mut self, width: u32, height: u32) -> (r: FrameAction)
        requires
            old(self)@.wf(),
            old(self)@.phase is AwaitingSurfaceSize,
        ensures
            (final(self)@, r) == surface_step(old(self)@, width, height),
            final(self)@.wf(),
    {
        if width == 0 || height == 0 {
            self.recreate_swapchain = true;
            self.phase = Phase::Idle;
            FrameAction::Done
        } else {
            self.phase = Phase::AwaitingSwapchain { width, height };
            FrameAction::RecreateSwapchain { width, height }
        }
    }

    /// Installs the recreated swapchain and the framebuffers of its images.
    pub fn swapchain_recreated(&mut self, swapchain: u64, framebuffers: Vec<u64>) -> (r:
        FrameAction)
        requires
            old(self)@.wf(),
            old(self)@.phase is AwaitingSwapchain,
            framebuffers@.len() > 0,
        ensures
            (final(self)@, r) == swapchain_step(old(self)@, swapchain, framebuffers@),
            final(self)@.wf(),
    {
        let (width, height) = match self.phase {
            Phase::AwaitingSwapchain { width, height } => (width, height),
            _ => self.viewport,
        };
        self.swapchain = swapchain;
        self.command_buffers = get_command_buffers(&framebuffers, &self.render_queue);
        self.fences = no_fences(framebuffers.len());
        self.framebuffers = framebuffers;
        self.previous_fence_i = 0;
        proof {
            assert(forall|k: int|
                0 <= k < self@.image_count() ==> (#[trigger] self@.command_buffers[k]).0
                    == self@.framebuffers[k]);
        }
        if self.window_resized {
            self.window_resized = false;
            self.viewport = (width, height);
            self.phase = Phase::AwaitingPipeline;
            FrameAction::RebuildPipeline { width, height }
        } else {
            self.phase = Phase::AwaitingImage;
            FrameAction::AcquireImage
        }
    }

    /// The device does not support the requested extent.
    pub fn swapchain_unsupported(&mut self) -> (r: FrameAction)
        requires
            old(self)@.wf(),
            old(self)@.phase is AwaitingSwapchain,
        ensures
            (final(self)@, r) == unsupported_step(old(self)@),
            final(self)@.wf(),
    {
        self.recreate_swapchain = true;
        self.phase = Phase::Idle;
        FrameAction::Done
    }

    /// The graphics pipeline was rebuilt, as asked by
    /// `FrameAction::RebuildPipeline`.
    pub fn pipeline_rebuilt(&mut self) -> (r: FrameAction)
        requires
            old(self)@.wf(),
            old(self)@.phase is AwaitingPipeline,
        ensures
            (final(self)@, r) == pipeline_step(old(self)@),
            final(self)@.wf(),
    {
        self.phase = Phase::AwaitingImage;
        FrameAction::AcquireImage
    }

    fn submit(&self, image_index: usize) -> (r: FrameAction)
        requires
            self@.wf(),
        ensures
            r == crate::frame::submit_action(self@, image_index),
    {
        FrameAction::Submit { image_index, after: self.fences[self.previous_fence_i] }
    }

    /// Reports the outcome of `FrameAction::AcquireImage`.
    pub fn image_acquired(&mut self, outcome: AcquireOutcome) -> (r: FrameAction)
        requires
            old(self)@.wf(),
            old(self)@.phase is AwaitingImage,
            outcome matches AcquireOutcome::Acquired { image_index, .. } ==> image_index
                < old(self)@.image_count(),
        ensures
            (final(self)@, r) == acquire_step(old(self)@, outcome),
            final(self)@.wf(),
    {
        match outcome {
            AcquireOutcome::OutOfDate => {
                self.recreate_swapchain = true;
                self.phase = Phase::Idle;
                FrameAction::Done
            },
            AcquireOutcome::Acquired { image_index, suboptimal } => {
                if suboptimal {
                    self.recreate_swapchain = true;
                }
                match self.fences[image_index] {
                    Some(fence) => {
                        self.phase = Phase::AwaitingFence { image: image_index };
                        FrameAction::WaitFence { fence }
                    },
                    None => {
                        self.phase = Phase::AwaitingFlush { image: image_index };
                        self.submit(image_index)
                    },
                }
            },
        }
    }

    /// The fence named by `FrameAction::WaitFence` has signaled.
    pub fn fence_waited(&mut self) -> (r: FrameAction)
        requires
            old(self)@.wf(),
            old(self)@.phase is AwaitingFence,
        ensures
            (final(self)@, r) == fence_step(old(self)@),
            final(self)@.wf(),
    {
        let image = match self.phase {
            Phase::AwaitingFence { image } => image,
            _ => 0,
        };
        self.phase = Phase::AwaitingFlush { image };
        self.submit(image)
    }

    /// Reports the outcome of `FrameAction::Submit`.
    pub fn frame_flushed(&mut self, outcome: FlushOutcome) -> (r: FrameAction)
        requires
            old(self)@.wf(),
            old(self)@.phase is AwaitingFlush,
        ensures
            (final(self)@, r) == flush_step(old(self)@, outcome),
            final(self)@.wf(),
    {
        let image = match self.phase {
            Phase::AwaitingFlush { image } => image,
            _ => 0,
        };
        let fence = match outcome {
            FlushOutcome::Signaled { fence } => Some(fence),
            _ => None,
        };
        proof {
            assert(fence == fence_after(outcome));
        }
        self.fences[image] = fence;
        if outcome == FlushOutcome::OutOfDate {
            self.recreate_swapchain = true;
        }
        self.previous_fence_i = image;
        self.phase = Phase::Idle;
        FrameAction::Done
    }

    /// An unrecoverable device error: the pipeline stops for good.
    pub fn device_lost(&mut self) -> (r: FrameAction)
        ensures
            (final(self)@, r) == lost_step(old(self)@),
    {
        self.phase = Phase::Lost;
        FrameAction::Lost
    }

    pub fn phase(&self) -> (r: Phase)
        ensures
            r == self@.phase,
    {
        self.phase
    }

    /// The swapchain's image count.
    pub fn image_count(&self) -> (r: usize)
        ensures
            r == self@.image_count(),
    {
        self.framebuffers.len()
    }

    /// The handle of the current swapchain.
    pub fn swapchain(&self) -> (r: u64)
        ensures
            r == self@.swapchain,
    {
        self.swapchain
    }

    /// The framebuffer handles, one per swapchain image.
    pub fn framebuffers(&self) -> (r: &Vec<u64>)
        ensures
            r@ == self@.framebuffers,
    {
        &self.framebuffers
    }

    /// The command buffers, one per swapchain image.
    pub fn command_buffers(&self) -> (r: &Vec<CommandBufferPlan>)
        ensures
            plans_view(r@) == self@.command_buffers,
    {
        &self.command_buffers
    }

    /// The fence held by slot `i`, if any.
    pub fn fence(&self, i: usize) -> (r: Option<u64>)
        ensures
            i < self@.fences.len() ==> r == self@.fences[i as int],
            i >= self@.fences.len() ==> r is None,
    {
        if i < self.fences.len() {
            self.fences[i]
        } else {
            None
        }
    }

    /// The image submitted last.
    pub fn previous_image(&self) -> (r: usize)
        ensures
            r == self@.previous,
    {
        self.previous_fence_i
    }

    pub fn render_queue(&self) -> (r: &RenderQueue)
        ensures
            r@ == self@.items,
    {
        &self.render_queue
    }

    /// True iff at least one mesh is queued.
    pub fn has_any_data(&self) -> (r: bool)
        ensures
            r == (self@.items.len() > 0),
    {
        self.render_queue.has_any_data()
    }

    pub fn resize_requested(&self) -> (r: bool)
        ensures
            r == self@.resize_requested,
    {
        self.window_resized
    }

    /// Whether the swapchain is known not to match the surface.
    pub fn swapchain_stale(&self) -> (r: bool)
        ensures
            r == self@.stale,
    {
        self.recreate_swapchain
    }

    /// The viewport's width and height.
    pub fn viewport(&self) -> (r: (u32, u32))
        ensures
            r == self@.viewport,
    {
        self.viewport
    }
}

} // verus!
