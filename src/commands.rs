use vstd::prelude::*;
use crate::render_queue::{DrawCall, RenderQueue, RenderItem, draws_of};

verus! {

/// What one command buffer records: a render pass on one framebuffer, the
/// graphics pipeline bound, then the draws, in order.
pub struct CommandBufferPlan {
    pub framebuffer: u64,
    pub draws: Vec<DrawCall>,
}

impl View for CommandBufferPlan {
    type V = (u64, Seq<DrawCall>);

    open spec fn view(&self) -> (u64, Seq<DrawCall>) {
        (self.framebuffer, self.draws@)
    }
}

/// One command buffer per framebuffer, each drawing the whole queue.
pub open spec fn recorded(framebuffers: Seq<u64>, items: Seq<RenderItem>) -> Seq<
    (u64, Seq<DrawCall>),
> {
    framebuffers.map_values(|fb: u64| (fb, draws_of(items)))
}

/// The models of a list of plans.
pub open spec fn plans_view(plans: Seq<CommandBufferPlan>) -> Seq<(u64, Seq<DrawCall>)> {
    plans.map_values(|p: CommandBufferPlan| p@)
}

/// Records one command buffer for each framebuffer, in framebuffer order.
pub fn get_command_buffers(framebuffers: &Vec<u64>, render_queue: &RenderQueue) -> (r: Vec<
    CommandBufferPlan,
>)
    ensures
        plans_view(r@) == recorded(framebuffers@, render_queue@),
{
    let mut plans: Vec<CommandBufferPlan> = Vec::new();
    let mut i: usize = 0;
    while i < framebuffers.len()
        invariant
            i <= framebuffers@.len(),
            plans_view(plans@) == recorded(framebuffers@.subrange(0, i as int), render_queue@),
        decreases framebuffers@.len() - i,
    {
        let plan = CommandBufferPlan { framebuffer: framebuffers[i], draws: render_queue.draw_all() };
        let ghost before = plans@;
        plans.push(plan);
        proof {
            assert(plans_view(plans@) =~= plans_view(before).push(plan@));
            assert(framebuffers@.subrange(0, i + 1) =~= framebuffers@.subrange(0, i as int).push(
                framebuffers@[i as int],
            ));
            assert(plans_view(plans@) =~= recorded(
                framebuffers@.subrange(0, i + 1),
                render_queue@,
            ));
        }
        i = i + 1;
    }
    proof {
        assert(framebuffers@.subrange(0, i as int) =~= framebuffers@);
    }
    plans
}

} // verus!
