use vstd::prelude::*;

verus! {

/// One drawable unit: a GPU vertex buffer, a GPU index buffer and the number
/// of indices to draw. Buffers are referred to by the handles that the device
/// layer assigned when it uploaded them.
#[derive(Clone, Copy, Debug, PartialEq, Eq, Structural)]
pub struct RenderItem {
    pub vertex_buffer: u64,
    pub index_buffer: u64,
    pub num_indices: u32,
}

/// One indexed draw as it is recorded into a command buffer.
#[derive(Clone, Copy, Debug, PartialEq, Eq, Structural)]
pub struct DrawCall {
    /// Binding slot of the vertex buffer.
    pub vertex_slot: u32,
    pub vertex_buffer: u64,
    pub index_buffer: u64,
    pub index_count: u32,
    pub instance_count: u32,
    pub first_index: u32,
    pub vertex_offset: i32,
    pub first_instance: u32,
}

/// The draw that an item contributes: its vertex buffer bound at slot 0, its
/// index buffer, all of its indices, one instance, no offsets.
pub open spec fn draw_of(item: RenderItem) -> DrawCall {
    DrawCall {
        vertex_slot: 0,
        vertex_buffer: item.vertex_buffer,
        index_buffer: item.index_buffer,
        index_count: item.num_indices,
        instance_count: 1,
        first_index: 0,
        vertex_offset: 0,
        first_instance: 0,
    }
}

/// The draws of a whole queue, in insertion order.
pub open spec fn draws_of(items: Seq<RenderItem>) -> Seq<DrawCall> {
    items.map_values(|item: RenderItem| draw_of(item))
}

impl RenderItem {
    pub fn new(vertex_buffer: u64, index_buffer: u64, num_indices: u32) -> (r: RenderItem)
        ensures
            r == (RenderItem { vertex_buffer, index_buffer, num_indices }),
    {
        RenderItem { vertex_buffer, index_buffer, num_indices }
    }

    /// The draw call that records this item.
    pub fn draw_call(&self) -> (r: DrawCall)
        ensures
            r == draw_of(*self),
    {
        DrawCall {
            vertex_slot: 0,
            vertex_buffer: self.vertex_buffer,
            index_buffer: self.index_buffer,
            index_count: self.num_indices,
            instance_count: 1,
            first_index: 0,
            vertex_offset: 0,
            first_instance: 0,
        }
    }
}

/// Ordered, append-only collection of render items; insertion order is draw
/// order.
pub struct RenderQueue {
    render_items: Vec<RenderItem>,
}

impl View for RenderQueue {
    type V = Seq<RenderItem>;

    closed spec fn view(&self) -> Seq<RenderItem> {
        self.render_items@
    }
}

impl RenderQueue {
    pub fn new() -> (r: RenderQueue)
        ensures
            r@ == Seq::<RenderItem>::empty(),
    {
        RenderQueue { render_items: Vec::new() }
    }

    /// Appends an item at the end of the queue.
    pub fn add_render_item(&mut self, render_item: RenderItem)
        ensures
            final(self)@ == old(self)@.push(render_item),
    {
        self.render_items.push(render_item);
    }

    /// True iff at least one item is queued.
    pub fn has_any_data(&self) -> (r: bool)
        ensures
            r == (self@.len() > 0),
    {
        self.render_items.len() > 0
    }

    pub fn len(&self) -> (r: usize)
        ensures
            r == self@.len(),
    {
        self.render_items.len()
    }

    /// The item at position `i`.
    pub fn get(&self, i: usize) -> (r: Option<RenderItem>)
        ensures
            i < self@.len() ==> r == Some(self@[i as int]),
            i >= self@.len() ==> r is None,
    {
        if i < self.render_items.len() {
            Some(self.render_items[i])
        } else {
            None
        }
    }

    /// The draws that record every item, in insertion order.
    pub fn draw_all(&self) -> (r: Vec<DrawCall>)
        ensures
            r@ == draws_of(self@),
    {
        let mut draws: Vec<DrawCall> = Vec::new();
        let mut i: usize = 0;
        while i < self.render_items.len()
            invariant
                i <= self.render_items@.len(),
                draws@ == draws_of(self.render_items@.subrange(0, i as int)),
            decreases self.render_items@.len() - i,
        {
            draws.push(self.render_items[i].draw_call());
            proof {
                assert(self.render_items@.subrange(0, i + 1) =~= self.render_items@.subrange(
                    0,
                    i as int,
                ).push(self.render_items@[i as int]));
            }
            i = i + 1;
        }
        proof {
            assert(self.render_items@.subrange(0, i as int) =~= self.render_items@);
        }
        draws
    }
}

} // verus!
