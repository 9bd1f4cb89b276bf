use mothra::batch::build_batches;
use mothra::ecs::Transform;
use mothra::frame::{plan_frame, RenderError};
use mothra::geometry::{build_quad, build_quad_indices, Coord, Vertex};
use mothra::scalar::Scalar;
use mothra::texture::TextureHandle;

fn scalar(value: f32) -> Scalar {
    Scalar::from_bits(value.to_bits())
}

fn transform(x: f32, y: f32, w: f32, h: f32, z: f32) -> Transform {
    Transform { x: scalar(x), y: scalar(y), w: scalar(w), h: scalar(h), z: scalar(z) }
}

fn texture(id: usize) -> TextureHandle {
    TextureHandle { id, width: 32, height: 32 }
}

fn drawables(ids: &[usize]) -> Vec<(Transform, TextureHandle)> {
    ids.iter()
        .enumerate()
        .map(|(i, id)| (transform(i as f32, 0.0, 1.0, 1.0, i as f32), texture(*id)))
        .collect()
}

#[test]
fn three_of_one_texture_then_one_of_another_make_two_batches() {
    let ds = drawables(&[5, 5, 5, 9]);
    let batches = build_batches(&ds);
    assert_eq!(batches.len(), 2);
    assert_eq!(batches[0].len(), 3);
    assert_eq!(batches[0].first, 0);
    assert_eq!(batches[0].texture, texture(5));
    assert_eq!(batches[0].transforms, vec![ds[0].0, ds[1].0, ds[2].0]);
    assert_eq!(batches[1].len(), 1);
    assert_eq!(batches[1].first, 3);
    assert_eq!(batches[1].texture, texture(9));
    assert_eq!(batches[1].transforms, vec![ds[3].0]);

    let plan = plan_frame(&ds, 0).unwrap();
    assert_eq!(plan.draws.len(), 2);
    assert_eq!(plan.draws[0].vertex_count, 12);
    assert_eq!(plan.draws[0].index_count, 18);
    assert_eq!(plan.draws[0].vertex_offset, 0);
    assert_eq!(plan.draws[0].index_offset, 0);
    assert_eq!(plan.draws[0].texture, texture(5));
    assert_eq!(plan.draws[1].vertex_count, 4);
    assert_eq!(plan.draws[1].index_count, 6);
    assert_eq!(plan.draws[0].vertex_end, 192);
    assert_eq!(plan.draws[0].index_end, 36);
    assert_eq!(plan.draws[1].vertex_offset, 192);
    assert_eq!(plan.draws[1].index_offset, 36);
    assert_eq!(plan.draws[1].vertex_end, 256);
    assert_eq!(plan.draws[1].index_end, 48);
    assert_eq!(plan.draws[1].texture, texture(9));
    assert_eq!(plan.vertices.len(), 16);
    assert_eq!(plan.indices.len(), 24);
}

#[test]
fn textures_that_are_not_neighbours_are_not_merged() {
    let ds = drawables(&[1, 2, 1, 1, 2]);
    let batches = build_batches(&ds);
    let shape: Vec<(usize, usize, usize)> =
        batches.iter().map(|b| (b.texture.id, b.first, b.len())).collect();
    assert_eq!(shape, vec![(1, 0, 1), (2, 1, 1), (1, 2, 2), (2, 4, 1)]);
}

#[test]
fn no_drawables_make_no_batches() {
    let ds = drawables(&[]);
    assert!(build_batches(&ds).is_empty());
    let plan = plan_frame(&ds, 1).unwrap();
    assert_eq!(plan.slot, 1);
    assert!(plan.draws.is_empty());
    assert!(plan.vertices.is_empty());
    assert!(plan.indices.is_empty());
    assert!(plan.index_data.is_empty());
}

#[test]
fn indices_follow_the_quad_pattern_within_each_batch() {
    let ds = drawables(&[4, 4, 4, 8, 8]);
    let plan = plan_frame(&ds, 0).unwrap();
    let expected: Vec<u16> = vec![
        0, 1, 2, 2, 3, 0, 4, 5, 6, 6, 7, 4, 8, 9, 10, 10, 11, 8, 0, 1, 2, 2, 3, 0, 4, 5, 6, 6, 7,
        4,
    ];
    assert_eq!(plan.indices, expected);
    for draw in &plan.draws {
        let start = (draw.index_offset / 2) as usize;
        let quads = (draw.index_count / 6) as usize;
        for i in 0..quads {
            let base = (4 * i) as u16;
            assert_eq!(
                plan.indices[start + 6 * i..start + 6 * i + 6],
                [base, base + 1, base + 2, base + 2, base + 3, base]
            );
        }
    }
}

#[test]
fn quad_indices_start_at_their_base() {
    assert_eq!(build_quad_indices(0), [0, 1, 2, 2, 3, 0]);
    assert_eq!(build_quad_indices(8), [8, 9, 10, 10, 11, 8]);
    assert_eq!(build_quad_indices(65532), [65532, 65533, 65534, 65534, 65535, 65532]);
}

#[test]
fn quad_has_its_corners_in_winding_order() {
    let t = transform(10.0, 20.0, 30.0, 40.0, 0.0);
    let quad = build_quad(&t);
    let left = Coord::At(scalar(10.0));
    let right = Coord::Sum(scalar(10.0), scalar(30.0));
    let bottom = Coord::At(scalar(20.0));
    let top = Coord::Sum(scalar(20.0), scalar(40.0));
    assert_eq!(quad[0], Vertex { x: left, y: top, u: 0, v: 0 });
    assert_eq!(quad[1], Vertex { x: right, y: top, u: 1, v: 0 });
    assert_eq!(quad[2], Vertex { x: right, y: bottom, u: 1, v: 1 });
    assert_eq!(quad[3], Vertex { x: left, y: bottom, u: 0, v: 1 });
}

#[test]
fn frame_vertices_are_the_quads_in_paint_order() {
    let ds = drawables(&[3, 6, 6]);
    let plan = plan_frame(&ds, 0).unwrap();
    assert_eq!(plan.vertices.len(), 12);
    for (q, d) in ds.iter().enumerate() {
        let quad = build_quad(&d.0);
        assert_eq!(plan.vertices[4 * q..4 * q + 4], quad);
    }
}

#[test]
fn index_data_is_the_indices_in_memory_order() {
    let ds = drawables(&[1, 1, 2]);
    let plan = plan_frame(&ds, 0).unwrap();
    let mut expected: Vec<u8> = Vec::new();
    for index in &plan.indices {
        expected.extend_from_slice(&index.to_ne_bytes());
    }
    assert_eq!(plan.index_data.len(), 2 * plan.indices.len());
    assert_eq!(plan.index_data, expected);
    assert_eq!(plan.index_data.len(), 36);
}

#[test]
fn sixty_four_quads_fill_a_slot() {
    let ids: Vec<usize> = (0..64).map(|i| i / 8).collect();
    let ds = drawables(&ids);
    let plan = plan_frame(&ds, 0).unwrap();
    assert_eq!(plan.vertices.len() * 16, 4096);
    assert_eq!(plan.draws.len(), 8);
    assert_eq!(plan.draws[7].vertex_offset, 56 * 64);
    assert_eq!(plan.draws[7].index_offset, 56 * 12);
    assert_eq!(*plan.indices.iter().max().unwrap(), 31);
}

#[test]
fn sixty_five_quads_overflow_a_slot() {
    let ids: Vec<usize> = (0..65).map(|_| 0).collect();
    let ds = drawables(&ids);
    match plan_frame(&ds, 0) {
        Err(e) => assert_eq!(e, RenderError::BatchOverflow),
        Ok(_) => panic!("sixty-five quads do not fit"),
    }
}

#[test]
fn one_batch_of_sixty_four_counts_its_indices_locally() {
    let ids: Vec<usize> = (0..64).map(|_| 2).collect();
    let ds = drawables(&ids);
    let plan = plan_frame(&ds, 1).unwrap();
    assert_eq!(plan.draws.len(), 1);
    assert_eq!(plan.draws[0].vertex_count, 256);
    assert_eq!(plan.draws[0].index_count, 384);
    assert_eq!(plan.indices[6 * 63..], [252, 253, 254, 254, 255, 252]);
}
