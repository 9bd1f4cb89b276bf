use mothra::config::GameConfig;
use mothra::ecs::{Sprite, Transform, World};
use mothra::frame::RenderError;
use mothra::geometry::build_quad;
use mothra::renderer::{
    on_surface_failure, projection_scale, FrameAction, FrameEvent, FramePhase, Projection,
    ProjectionScale, Renderer, SurfaceStep,
};
use mothra::scalar::Scalar;
use mothra::texture::TextureHandle;

fn scalar(value: f32) -> Scalar {
    Scalar::from_bits(value.to_bits())
}

fn transform(x: f32, y: f32, w: f32, h: f32, z: f32) -> Transform {
    Transform { x: scalar(x), y: scalar(y), w: scalar(w), h: scalar(h), z: scalar(z) }
}

fn texture(id: usize) -> TextureHandle {
    TextureHandle { id, width: 16, height: 16 }
}

fn world_of(sprites: &[(f32, usize)]) -> World {
    let mut world = World::new();
    for (i, (z, id)) in sprites.iter().enumerate() {
        let e = world.spawn();
        world.add_transform(e, transform(i as f32, 0.0, 1.0, 1.0, *z));
        world.add_sprite(e, Sprite { texture: texture(*id) });
    }
    world
}

fn scale_numbers(scale: ProjectionScale) -> (f32, f32) {
    (2.0 / scale.width as f32, 2.0 / scale.height as f32)
}

fn complete_frame(renderer: &mut Renderer, world: &World) -> usize {
    assert!(matches!(renderer.render(world, FrameEvent::Begin), FrameAction::AcquireSurface));
    let slot = match renderer.render(world, FrameEvent::SurfaceAcquired) {
        FrameAction::Submit(plan) => plan.slot,
        other => panic!("expected a plan, got {:?}", other),
    };
    assert!(matches!(renderer.render(world, FrameEvent::WorkDone), FrameAction::Completed));
    slot
}

#[test]
fn slots_alternate_across_completed_frames() {
    let world = world_of(&[(0.1, 0)]);
    let mut renderer = Renderer::new(800, 600);
    let mut slots = Vec::new();
    for _ in 0..3 {
        slots.push(renderer.current_buffer());
        assert_eq!(complete_frame(&mut renderer, &world), *slots.last().unwrap());
    }
    assert_eq!(slots, vec![0, 1, 0]);
    assert_eq!(renderer.current_buffer(), 1);
}

#[test]
fn slot_stays_until_the_gpu_is_done() {
    let world = world_of(&[(0.1, 0)]);
    let mut renderer = Renderer::new(800, 600);
    renderer.render(&world, FrameEvent::Begin);
    assert_eq!(renderer.current_buffer(), 0);
    renderer.render(&world, FrameEvent::SurfaceAcquired);
    assert_eq!(renderer.current_buffer(), 0);
    assert_eq!(renderer.frame_phase(), FramePhase::InFlight);
    assert!(matches!(renderer.render(&world, FrameEvent::Begin), FrameAction::Ignored));
    assert_eq!(renderer.current_buffer(), 0);
    renderer.render(&world, FrameEvent::WorkDone);
    assert_eq!(renderer.current_buffer(), 1);
    assert_eq!(renderer.frame_phase(), FramePhase::Idle);
}

#[test]
fn fixed_scale_ignores_the_window_size() {
    let config = GameConfig {
        logical_width: 800,
        logical_height: 600,
        stretch_mode: false,
        ..GameConfig::default()
    };
    let mut renderer = Renderer::new(800, 600);
    for (w, h) in [(1024, 768), (1, 1), (1920, 1080), (640, 480)] {
        let scale = renderer.resize(w, h, &config).unwrap();
        assert_eq!(scale, ProjectionScale { width: 800, height: 600 });
        assert_eq!(scale_numbers(scale), (0.0025, 2.0 / 600.0));
        assert_eq!(renderer.surface_size(), (w, h));
    }
    assert!((scale_numbers(projection_scale(&config, 5, 5)).1 - 0.0033333).abs() < 1.0e-6);
}

#[test]
fn stretched_scale_follows_the_window_size() {
    let config = GameConfig {
        logical_width: 800,
        logical_height: 600,
        stretch_mode: true,
        ..GameConfig::default()
    };
    let mut renderer = Renderer::new(800, 600);
    let scale = renderer.resize(1024, 768, &config).unwrap();
    assert_eq!(scale, ProjectionScale { width: 1024, height: 768 });
    assert_eq!(scale_numbers(scale), (0.001953125, 2.0 / 768.0));
    assert!((scale_numbers(scale).1 - 0.0026041).abs() < 1.0e-6);
}

#[test]
fn resize_to_nothing_is_ignored() {
    let config = GameConfig::default();
    let mut renderer = Renderer::new(800, 600);
    assert_eq!(renderer.resize(0, 768, &config), None);
    assert_eq!(renderer.resize(1024, 0, &config), None);
    assert_eq!(renderer.resize(0, 0, &config), None);
    assert_eq!(renderer.surface_size(), (800, 600));
}

#[test]
fn lost_surface_is_retried_once() {
    let world = world_of(&[(0.1, 0)]);
    let mut renderer = Renderer::new(640, 480);
    assert!(matches!(renderer.render(&world, FrameEvent::Begin), FrameAction::AcquireSurface));
    match renderer.render(&world, FrameEvent::SurfaceUnavailable) {
        FrameAction::ReconfigureSurface { width, height } => {
            assert_eq!((width, height), (640, 480))
        },
        other => panic!("expected a reconfiguration, got {:?}", other),
    }
    assert_eq!(renderer.frame_phase(), FramePhase::Retrying);
    assert!(matches!(
        renderer.render(&world, FrameEvent::SurfaceAcquired),
        FrameAction::Submit(_)
    ));
}

#[test]
fn surface_lost_twice_ends_the_frame() {
    let world = world_of(&[(0.1, 0)]);
    let mut renderer = Renderer::new(640, 480);
    renderer.render(&world, FrameEvent::Begin);
    renderer.render(&world, FrameEvent::SurfaceUnavailable);
    match renderer.render(&world, FrameEvent::SurfaceUnavailable) {
        FrameAction::Abort(e) => assert_eq!(e, RenderError::SurfaceLost),
        other => panic!("expected the frame to end, got {:?}", other),
    }
    assert_eq!(renderer.frame_phase(), FramePhase::Idle);
    assert_eq!(renderer.current_buffer(), 0);
}

#[test]
fn events_out_of_turn_are_ignored() {
    let world = world_of(&[]);
    let mut renderer = Renderer::new(640, 480);
    for event in [FrameEvent::SurfaceAcquired, FrameEvent::SurfaceUnavailable, FrameEvent::WorkDone]
    {
        assert!(matches!(renderer.render(&world, event), FrameAction::Ignored));
        assert_eq!(renderer.frame_phase(), FramePhase::Idle);
        assert_eq!(renderer.current_buffer(), 0);
    }
}

#[test]
fn too_many_sprites_fail_the_frame() {
    let sprites: Vec<(f32, usize)> = (0..65).map(|i| (i as f32, 0)).collect();
    let world = world_of(&sprites);
    let mut renderer = Renderer::new(640, 480);
    assert!(matches!(
        renderer.draw_sprites_batched(&world),
        Err(RenderError::BatchOverflow)
    ));
    renderer.render(&world, FrameEvent::Begin);
    match renderer.render(&world, FrameEvent::SurfaceAcquired) {
        FrameAction::Abort(e) => assert_eq!(e, RenderError::BatchOverflow),
        other => panic!("expected the frame to fail, got {:?}", other),
    }
    assert_eq!(renderer.frame_phase(), FramePhase::Idle);
    assert_eq!(renderer.current_buffer(), 0);
}

#[test]
fn batched_frame_paints_in_z_order() {
    let world = world_of(&[(0.9, 1), (0.1, 1), (0.5, 2), (0.3, 1)]);
    let renderer = Renderer::new(640, 480);
    let plan = renderer.draw_sprites_batched(&world).unwrap();
    assert_eq!(plan.slot, 0);
    let shape: Vec<(usize, u64, u32, u64, u32)> = plan
        .draws
        .iter()
        .map(|d| (d.texture.id, d.vertex_offset, d.vertex_count, d.index_offset, d.index_count))
        .collect();
    assert_eq!(shape, vec![(1, 0, 8, 0, 12), (2, 128, 4, 24, 6), (1, 192, 4, 36, 6)]);
    assert_eq!(plan.vertices[0..4], build_quad(&transform(1.0, 0.0, 1.0, 1.0, 0.1)));
    assert_eq!(plan.vertices[4..8], build_quad(&transform(3.0, 0.0, 1.0, 1.0, 0.3)));
    assert_eq!(plan.vertices[8..12], build_quad(&transform(2.0, 0.0, 1.0, 1.0, 0.5)));
    assert_eq!(plan.vertices[12..16], build_quad(&transform(0.0, 0.0, 1.0, 1.0, 0.9)));
}

#[test]
fn unbatched_drawing_has_one_call_for_each_drawable() {
    let world = world_of(&[(0.9, 1), (0.1, 2), (0.5, 3)]);
    let renderer = Renderer::new(640, 480);
    let mut draws = renderer.draw_world(&world);
    assert_eq!(draws.len(), 3);
    draws.sort_by_key(|d| d.texture.id);
    assert_eq!(draws[0].vertices, build_quad(&transform(0.0, 0.0, 1.0, 1.0, 0.9)));
    assert_eq!(draws[1].vertices, build_quad(&transform(1.0, 0.0, 1.0, 1.0, 0.1)));
    assert_eq!(draws[2].vertices, build_quad(&transform(2.0, 0.0, 1.0, 1.0, 0.5)));
}

#[test]
fn single_texture_is_drawn_as_one_quad() {
    let renderer = Renderer::new(640, 480);
    let rect = transform(5.0, 6.0, 7.0, 8.0, 0.0);
    let draw = renderer.draw_texture(&texture(4), &rect);
    assert_eq!(draw.texture, texture(4));
    assert_eq!(draw.vertices, build_quad(&rect));
}

#[test]
fn surface_is_retried_once_and_no_more() {
    assert_eq!(on_surface_failure(0), SurfaceStep::Retry);
    assert_eq!(on_surface_failure(1), SurfaceStep::Retry);
    assert_eq!(on_surface_failure(2), SurfaceStep::GiveUp);
    assert_eq!(on_surface_failure(u32::MAX), SurfaceStep::GiveUp);
}

#[test]
fn new_renderer_projects_the_default_resolution() {
    let mut renderer = Renderer::new(1920, 1080);
    let default_scale = Projection::Extents(ProjectionScale { width: 800, height: 600 });
    assert_eq!(renderer.uniform(), default_scale);
    assert_eq!(renderer.surface_size(), (1920, 1080));
    assert_eq!(renderer.current_buffer(), 0);
    assert_eq!(renderer.frame_phase(), FramePhase::Idle);
    let stretched = GameConfig { stretch_mode: true, ..GameConfig::default() };
    renderer.resize(0, 10, &stretched);
    assert_eq!(renderer.uniform(), default_scale);
    renderer.resize(640, 480, &stretched);
    assert_eq!(
        renderer.uniform(),
        Projection::Extents(ProjectionScale { width: 640, height: 480 })
    );
}

#[test]
fn any_two_numbers_can_be_written_as_the_scale() {
    let mut renderer = Renderer::new(800, 600);
    renderer.update_uniform(&[scalar(0.3), scalar(-1.75)]);
    assert_eq!(renderer.uniform(), Projection::Numbers { x: scalar(0.3), y: scalar(-1.75) });
    assert_eq!(renderer.surface_size(), (800, 600));
    assert_eq!(renderer.current_buffer(), 0);
    renderer.resize(0, 0, &GameConfig::default());
    assert_eq!(renderer.uniform(), Projection::Numbers { x: scalar(0.3), y: scalar(-1.75) });
}

#[test]
fn frames_of_the_host_take_the_slots_in_turn() {
    let world = world_of(&[(0.1, 0)]);
    let mut renderer = Renderer::new(800, 600);
    let mut slots = Vec::new();
    for _ in 0..3 {
        let plan = renderer.draw_sprites_batched(&world).unwrap();
        assert_eq!(plan.slot, renderer.current_buffer());
        slots.push(plan.slot);
        renderer.complete_frame();
    }
    assert_eq!(slots, vec![0, 1, 0]);
    assert_eq!(renderer.frame_phase(), FramePhase::Idle);
}

#[test]
fn completion_by_the_host_waits_for_a_frame_under_way() {
    let world = world_of(&[(0.1, 0)]);
    let mut renderer = Renderer::new(800, 600);
    renderer.render(&world, FrameEvent::Begin);
    renderer.complete_frame();
    assert_eq!(renderer.current_buffer(), 0);
    renderer.render(&world, FrameEvent::SurfaceAcquired);
    renderer.complete_frame();
    assert_eq!(renderer.current_buffer(), 0);
    assert_eq!(renderer.frame_phase(), FramePhase::InFlight);
    renderer.render(&world, FrameEvent::WorkDone);
    assert_eq!(renderer.current_buffer(), 1);
    renderer.complete_frame();
    assert_eq!(renderer.current_buffer(), 0);
}
