use flavo_engine::commands::get_command_buffers;
use flavo_engine::geometry::{check_geometry, CheckedGeometry, GeometryError, VertexSimple};
use flavo_engine::logger::initialize;
use flavo_engine::render_queue::{DrawCall, RenderItem, RenderQueue};

fn vertex(x: f32, y: f32, z: f32) -> VertexSimple {
    VertexSimple { x_bits: x.to_bits(), y_bits: y.to_bits(), z_bits: z.to_bits() }
}

fn triangle() -> Vec<VertexSimple> {
    vec![vertex(0.0, 0.0, 0.0), vertex(0.0, 0.05, 0.0), vertex(0.05, 0.0, 0.0)]
}

#[test]
fn triangle_indices_are_valid() {
    let r = check_geometry(&triangle(), &vec![0, 1, 2]);
    assert_eq!(r, Ok(CheckedGeometry { vertex_count: 3, index_count: 3 }));
}

#[test]
fn empty_mesh_is_valid() {
    let r = check_geometry(&vec![], &vec![]);
    assert_eq!(r, Ok(CheckedGeometry { vertex_count: 0, index_count: 0 }));
}

#[test]
fn index_equal_to_vertex_count_is_rejected() {
    let r = check_geometry(&triangle(), &vec![0, 1, 3, 7]);
    assert_eq!(r, Err(GeometryError::IndexOutOfRange { position: 2, index: 3 }));
}

#[test]
fn any_index_without_vertices_is_rejected() {
    let r = check_geometry(&vec![], &vec![0]);
    assert_eq!(r, Err(GeometryError::IndexOutOfRange { position: 0, index: 0 }));
}

#[test]
fn vertex_keeps_float_bits() {
    let v = vertex(0.5, -1.0, 0.0);
    assert_eq!(f32::from_bits(v.x_bits), 0.5);
    assert_eq!(f32::from_bits(v.y_bits), -1.0);
}

#[test]
fn queue_starts_empty_and_grows_by_append() {
    let mut q = RenderQueue::new();
    assert!(!q.has_any_data());
    assert_eq!(q.len(), 0);
    q.add_render_item(RenderItem::new(1, 2, 3));
    q.add_render_item(RenderItem::new(1, 2, 3));
    assert!(q.has_any_data());
    assert_eq!(q.len(), 2);
    assert_eq!(q.get(1), Some(RenderItem::new(1, 2, 3)));
    assert_eq!(q.get(2), None);
}

#[test]
fn draw_all_follows_insertion_order() {
    let mut q = RenderQueue::new();
    q.add_render_item(RenderItem::new(10, 11, 3));
    q.add_render_item(RenderItem::new(20, 21, 6));
    let draws = q.draw_all();
    assert_eq!(
        draws,
        vec![
            DrawCall {
                vertex_slot: 0,
                vertex_buffer: 10,
                index_buffer: 11,
                index_count: 3,
                instance_count: 1,
                first_index: 0,
                vertex_offset: 0,
                first_instance: 0,
            },
            DrawCall {
                vertex_slot: 0,
                vertex_buffer: 20,
                index_buffer: 21,
                index_count: 6,
                instance_count: 1,
                first_index: 0,
                vertex_offset: 0,
                first_instance: 0,
            },
        ]
    );
}

#[test]
fn draw_all_on_empty_queue_draws_nothing() {
    assert!(RenderQueue::new().draw_all().is_empty());
}

#[test]
fn one_command_buffer_per_framebuffer() {
    let mut q = RenderQueue::new();
    q.add_render_item(RenderItem::new(5, 6, 9));
    let plans = get_command_buffers(&vec![100, 101, 102], &q);
    assert_eq!(plans.len(), 3);
    for (k, plan) in plans.iter().enumerate() {
        assert_eq!(plan.framebuffer, 100 + k as u64);
        assert_eq!(plan.draws.len(), 1);
        assert_eq!(plan.draws[0].index_count, 9);
        assert_eq!(plan.draws[0].vertex_buffer, 5);
        assert_eq!(plan.draws[0].index_buffer, 6);
    }
}

#[test]
fn no_framebuffers_no_command_buffers() {
    let mut q = RenderQueue::new();
    q.add_render_item(RenderItem::new(5, 6, 9));
    assert!(get_command_buffers(&vec![], &q).is_empty());
}

#[test]
fn logger_initialize_passes_outcome_on() {
    let ok: Result<u8, String> = Ok(4);
    assert_eq!(initialize(ok), Ok(()));
    let err: Result<u8, String> = Err("denied".to_string());
    assert_eq!(initialize(err), Err("denied".to_string()));
}
