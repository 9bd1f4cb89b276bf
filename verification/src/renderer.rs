//! The frame renderer: which buffer slot is active, what a resize changes,
//! and what each step of a frame asks the host to do.

use vstd::prelude::*;
use crate::asset_manager::AssetManager;
use crate::config::GameConfig;
use crate::ecs::{paint_ordered, Drawable, Entity, Transform, World};
use crate::frame::{fits_slot, plan_frame, FramePlan, RenderError};
use crate::geometry::{build_quad, quad_vertices, Vertex};
use crate::scalar::Scalar;
use crate::texture::{ImageData, TextureHandle, TextureUpload, BYTES_PER_PIXEL};

verus! {

/// Number of buffer slots that the renderer alternates between.
pub const SLOT_COUNT: usize = 2;

/// Bind group of the projection scale, bound once per render pass.
pub const UNIFORM_GROUP: u32 = 0;

/// Bind group of the texture and its sampler, bound once per draw call.
pub const TEXTURE_GROUP: u32 = 1;

/// Width of the logical resolution that a new renderer projects.
pub const DEFAULT_LOGICAL_WIDTH: u32 = 800;

/// Height of the logical resolution that a new renderer projects.
pub const DEFAULT_LOGICAL_HEIGHT: u32 = 600;

/// The projection scale `(2 / width, 2 / height)`, which maps logical
/// coordinates to normalized device coordinates. It is held as the two
/// extents; the host divides.
#[derive(Clone, Copy, Debug, PartialEq, Eq, Structural)]
pub struct ProjectionScale {
    pub width: u32,
    pub height: u32,
}

/// What the uniform buffer holds.
#[derive(Clone, Copy, Debug, PartialEq, Eq, Structural)]
pub enum Projection {
    /// The projection scale of these extents.
    Extents(ProjectionScale),
    /// These two numbers, as they were handed in.
    Numbers { x: Scalar, y: Scalar },
}

/// The projection scale for a window of the given physical size: in stretch
/// mode the whole window is mapped, otherwise the fixed logical resolution.
pub open spec fn scale_for(config: GameConfig, width: u32, height: u32) -> ProjectionScale {
    if config.stretch_mode {
        ProjectionScale { width, height }
    } else {
        ProjectionScale { width: config.logical_width, height: config.logical_height }
    }
}

/// Computes [`scale_for`].
pub fn projection_scale(config: &GameConfig, width: u32, height: u32) -> (scale: ProjectionScale)
    ensures
        scale == scale_for(*config, width, height),
{
    if config.stretch_mode {
        ProjectionScale { width, height }
    } else {
        ProjectionScale { width: config.logical_width, height: config.logical_height }
    }
}

/// One unbatched draw call: a texture and the four vertices of a quad. The
/// six indices are those of a quad whose first vertex has index 0.
#[derive(Clone, Copy, Debug)]
pub struct QuadDraw {
    pub texture: TextureHandle,
    pub vertices: [Vertex; 4],
}

impl QuadDraw {
    /// Whether the draw call paints the drawable `d`.
    pub open spec fn paints(self, d: Drawable) -> bool {
        self.texture == d.1 && self.vertices@ == quad_vertices(d.0)
    }
}

/// How often a surface that gave no image is configured anew and asked again
/// before the frame is given up.
pub const SURFACE_RETRIES: u32 = 1;

/// What to do about a surface that gave no image.
#[derive(Clone, Copy, Debug, PartialEq, Eq, Structural)]
pub enum SurfaceStep {
    /// Configure the surface anew and ask it again.
    Retry,
    /// Give the frame up.
    GiveUp,
}

/// What to do when the surface has refused an image for the `failures`-th
/// time in one frame.
pub open spec fn surface_step(failures: u32) -> SurfaceStep {
    if failures <= SURFACE_RETRIES {
        SurfaceStep::Retry
    } else {
        SurfaceStep::GiveUp
    }
}

/// Computes [`surface_step`].
pub fn on_surface_failure(failures: u32) -> (step: SurfaceStep)
    ensures
        step == surface_step(failures),
{
    if failures <= SURFACE_RETRIES {
        SurfaceStep::Retry
    } else {
        SurfaceStep::GiveUp
    }
}

/// Where a frame stands.
#[derive(Clone, Copy, Debug, PartialEq, Eq, Structural)]
pub enum FramePhase {
    /// No frame is under way.
    Idle,
    /// The surface was asked for its next image.
    Acquiring,
    /// The surface gave no image, was configured anew and asked again.
    Retrying,
    /// The frame's commands were submitted and the GPU is working on them.
    InFlight,
}

/// What the host reports to the renderer.
#[derive(Clone, Copy, Debug, PartialEq, Eq, Structural)]
pub enum FrameEvent {
    /// A new frame is due.
    Begin,
    /// The surface handed out its next image.
    SurfaceAcquired,
    /// The surface had no image to hand out.
    SurfaceUnavailable,
    /// The GPU has finished the commands that were submitted last.
    WorkDone,
}

/// What the renderer asks the host to do next.
#[derive(Debug)]
pub enum FrameAction {
    /// Ask the surface for its next image.
    AcquireSurface,
    /// Configure the surface for this size, then ask it for its next image.
    ReconfigureSurface { width: u32, height: u32 },
    /// Write the plan's data into its slot, record one render pass with the
    /// plan's draw calls, submit it, present the image and wait for the GPU.
    Submit(FramePlan),
    /// Give the frame up.
    Abort(RenderError),
    /// The frame is complete; the next one may begin.
    Completed,
    /// The event does not belong to the current phase; nothing changed.
    Ignored,
}

/// The phase that follows `phase` when the host reports `event`; `fits` says
/// whether the world's geometry fits into a buffer slot. A frame begins by
/// asking for a surface image. A surface that gives none is configured anew
/// and asked once more; a second refusal ends the frame. With an image the
/// frame is laid out and submitted, or given up if it does not fit. When the
/// GPU is done the frame is over. Any other event leaves the phase alone.
pub open spec fn next_phase(phase: FramePhase, event: FrameEvent, fits: bool) -> FramePhase {
    match (phase, event) {
        (FramePhase::Idle, FrameEvent::Begin) => FramePhase::Acquiring,
        (FramePhase::Acquiring, FrameEvent::SurfaceUnavailable) => FramePhase::Retrying,
        (FramePhase::Retrying, FrameEvent::SurfaceUnavailable) => FramePhase::Idle,
        (FramePhase::Acquiring, FrameEvent::SurfaceAcquired) | (
            FramePhase::Retrying,
            FrameEvent::SurfaceAcquired,
        ) => if fits {
            FramePhase::InFlight
        } else {
            FramePhase::Idle
        },
        (FramePhase::InFlight, FrameEvent::WorkDone) => FramePhase::Idle,
        _ => phase,
    }
}

/// The slot that is active after `event` was reported in `phase`: the other
/// slot once the GPU has finished a frame, the same slot otherwise.
pub open spec fn next_slot(slot: usize, phase: FramePhase, event: FrameEvent) -> int {
    if phase == FramePhase::InFlight && event == FrameEvent::WorkDone {
        (slot + 1) % (SLOT_COUNT as int)
    } else {
        slot as int
    }
}

/// The bookkeeping of the frame renderer.
pub struct Renderer {
    surface_width: u32,
    surface_height: u32,
    projection: Projection,
    current_buffer: usize,
    phase: FramePhase,
}

impl Renderer {
    /// Width of the presentation surface, in physical pixels.
    pub closed spec fn surface_width(&self) -> u32 {
        self.surface_width
    }

    /// Height of the presentation surface, in physical pixels.
    pub closed spec fn surface_height(&self) -> u32 {
        self.surface_height
    }

    /// What the uniform buffer holds.
    pub closed spec fn projection(&self) -> Projection {
        self.projection
    }

    /// The buffer slot that the next frame writes to and draws from.
    pub closed spec fn slot(&self) -> usize {
        self.current_buffer
    }

    /// Where the current frame stands.
    pub closed spec fn phase(&self) -> FramePhase {
        self.phase
    }

    /// The active slot is one of the slots.
    pub open spec fn wf(&self) -> bool {
        self.slot() < SLOT_COUNT
    }

    #[verifier::type_invariant]
    spec fn inv(&self) -> bool {
        self.current_buffer < SLOT_COUNT
    }

    /// A renderer for a surface of the given size, with slot 0 active, no
    /// frame under way and the projection scale of the default logical
    /// resolution.
    pub fn new(surface_width: u32, surface_height: u32) -> (r: Renderer)
        ensures
            r.wf(),
            r.slot() == 0,
            r.phase() == FramePhase::Idle,
            r.surface_width() == surface_width,
            r.surface_height() == surface_height,
            r.projection() == Projection::Extents(
                ProjectionScale { width: DEFAULT_LOGICAL_WIDTH, height: DEFAULT_LOGICAL_HEIGHT },
            ),
    {
        Renderer {
            surface_width,
            surface_height,
            projection: Projection::Extents(
                ProjectionScale { width: DEFAULT_LOGICAL_WIDTH, height: DEFAULT_LOGICAL_HEIGHT },
            ),
            current_buffer: 0,
            phase: FramePhase::Idle,
        }
    }

    /// What the uniform buffer holds.
    pub fn uniform(&self) -> (held: Projection)
        ensures
            held == self.projection(),
    {
        self.projection
    }

    /// Takes note of two numbers that are written to the uniform buffer as
    /// the projection scale.
    pub fn update_uniform(&mut self, scale: &[Scalar; 2])
        ensures
            final(self).projection() == (Projection::Numbers { x: scale[0], y: scale[1] }),
            final(self).slot() == old(self).slot(),
            final(self).phase() == old(self).phase(),
            final(self).surface_width() == old(self).surface_width(),
            final(self).surface_height() == old(self).surface_height(),
    {
        proof {
            use_type_invariant(&*self);
        }
        self.projection = Projection::Numbers { x: scale[0], y: scale[1] };
    }

    /// The buffer slot that the next frame writes to and draws from.
    pub fn current_buffer(&self) -> (slot: usize)
        ensures
            slot == self.slot(),
            self.wf(),
    {
        proof {
            use_type_invariant(self);
        }
        self.current_buffer
    }

    /// Size of the presentation surface, in physical pixels.
    pub fn surface_size(&self) -> (size: (u32, u32))
        ensures
            size == (self.surface_width(), self.surface_height()),
    {
        (self.surface_width, self.surface_height)
    }

    /// Where the current frame stands.
    pub fn frame_phase(&self) -> (phase: FramePhase)
        ensures
            phase == self.phase(),
    {
        self.phase
    }

    /// Takes note of a new window size. A size with a zero extent is ignored.
    /// Otherwise the surface is to be configured for the new size and the
    /// projection scale that is returned is to be written to the uniform
    /// buffer at once.
    pub fn resize(&mut self, new_width: u32, new_height: u32, config: &GameConfig) -> (scale:
        Option<ProjectionScale>)
        ensures
            final(self).slot() == old(self).slot(),
            final(self).phase() == old(self).phase(),
            new_width > 0 && new_height > 0 ==> {
                &&& final(self).surface_width() == new_width
                &&& final(self).surface_height() == new_height
                &&& final(self).projection() == Projection::Extents(
                    scale_for(*config, new_width, new_height),
                )
                &&& scale == Some(scale_for(*config, new_width, new_height))
            },
            new_width == 0 || new_height == 0 ==> {
                &&& final(self).surface_width() == old(self).surface_width()
                &&& final(self).surface_height() == old(self).surface_height()
                &&& final(self).projection() == old(self).projection()
                &&& scale is None
            },
    {
        proof {
            use_type_invariant(&*self);
        }
        if new_width > 0 && new_height > 0 {
            self.surface_width = new_width;
            self.surface_height = new_height;
            let scale = projection_scale(config, new_width, new_height);
            self.projection = Projection::Extents(scale);
            Some(scale)
        } else {
            None
        }
    }

    /// Loads a texture without the cache: hands out a new handle for a
    /// texture of the size of `image` and says how the image is copied into
    /// it. Every call yields a texture of its own, also for one image; the
    /// renderer and what `assets` has cached stay as they are.
    pub fn load_texture(&self, assets: &mut AssetManager, image: &ImageData) -> (loaded: (
        TextureHandle,
        TextureUpload,
    ))
        requires
            old(assets).wf(),
        ensures
            final(assets).wf(),
            final(assets).shaders() == old(assets).shaders(),
            (final(assets).textures(), loaded.0) == old(assets).textures().allot(
                image.width(),
                image.height(),
            ),
            loaded.1 == (TextureUpload {
                width: image.width(),
                height: image.height(),
                bytes_per_row: (BYTES_PER_PIXEL * image.width()) as u32,
                rows_per_image: image.height(),
            }),
            BYTES_PER_PIXEL * image.width() <= u32::MAX,
    {
        let handle = assets.allot_texture(image);
        (handle, image.upload())
    }

    /// Takes note that the GPU has finished a frame that the host recorded
    /// and submitted by itself, without `render`: the other slot becomes
    /// active. While a frame of `render` is under way nothing changes, since
    /// its own completion changes the slot.
    pub fn complete_frame(&mut self)
        ensures
            final(self).wf(),
            final(self).slot() == if old(self).phase() == FramePhase::Idle {
                (old(self).slot() + 1) % (SLOT_COUNT as int)
            } else {
                old(self).slot() as int
            },
            final(self).phase() == old(self).phase(),
            final(self).surface_width() == old(self).surface_width(),
            final(self).surface_height() == old(self).surface_height(),
            final(self).projection() == old(self).projection(),
    {
        proof {
            use_type_invariant(&*self);
        }
        if self.phase == FramePhase::Idle {
            self.current_buffer = (self.current_buffer + 1) % SLOT_COUNT;
        }
    }

    /// The draw call that paints `texture` onto the rectangle `rect`.
    pub fn draw_texture(&self, texture: &TextureHandle, rect: &Transform) -> (draw: QuadDraw)
        ensures
            draw.paints((*rect, *texture)),
    {
        QuadDraw { texture: *texture, vertices: build_quad(rect) }
    }

    /// One draw call per drawable of the world, unbatched, in the order in
    /// which the world hands its drawables out.
    pub fn draw_world(&self, world: &World) -> (draws: Vec<QuadDraw>)
        ensures
            exists|order: Seq<Entity>|
                world.lists_drawables(order) && #[trigger] paints_each(
                    draws@,
                    world.drawables_in(order),
                ),
    {
        let drawables: Vec<Drawable> = world.query_drawables();
        let mut draws: Vec<QuadDraw> = Vec::new();
        let mut i: usize = 0;
        while i < drawables.len()
            invariant
                i <= drawables.len(),
                draws@.len() == i,
                forall|k: int| 0 <= k < i ==> (#[trigger] draws@[k]).paints(drawables@[k]),
            decreases drawables.len() - i,
        {
            draws.push(self.draw_texture(&drawables[i].1, &drawables[i].0));
            i += 1;
        }
        assert(paints_each(draws@, drawables@));
        draws
    }

    /// Lays out the frame that paints the world's drawables in paint order
    /// from the active slot. Fails when their geometry does not fit into a
    /// buffer slot.
    pub fn draw_sprites_batched(&self, world: &World) -> (result: Result<FramePlan, RenderError>)
        ensures
            match result {
                Ok(plan) => fits_slot(world.drawable_count() as int) && self.frames(world, plan),
                Err(e) => !fits_slot(world.drawable_count() as int) && e
                    == RenderError::BatchOverflow,
            },
    {
        let drawables: Vec<Drawable> = world.query_drawables_with_z();
        let ghost order = choose|order: Seq<Entity>|
            world.lists_drawables(order) && drawables@ == #[trigger] world.drawables_in(order);
        let result = plan_frame(&drawables, self.current_buffer);
        proof {
            world.lemma_listing_length(order);
            if result is Ok {
                assert(result->Ok_0.paints(world.drawables_in(order), self.slot() as int));
            }
        }
        result
    }

    /// Whether `action` is what the renderer asks for when the host reports
    /// `event`.
    pub open spec fn asks(&self, world: &World, event: FrameEvent, action: FrameAction) -> bool {
        match (self.phase(), event) {
            (FramePhase::Idle, FrameEvent::Begin) => action is AcquireSurface,
            (FramePhase::Acquiring, FrameEvent::SurfaceUnavailable) => action
                == (FrameAction::ReconfigureSurface {
                width: self.surface_width(),
                height: self.surface_height(),
            }),
            (FramePhase::Retrying, FrameEvent::SurfaceUnavailable) => action == FrameAction::Abort(
                RenderError::SurfaceLost,
            ),
            (FramePhase::Acquiring, FrameEvent::SurfaceAcquired) | (
                FramePhase::Retrying,
                FrameEvent::SurfaceAcquired,
            ) => if fits_slot(world.drawable_count() as int) {
                action is Submit && self.frames(world, action->Submit_0)
            } else {
                action == FrameAction::Abort(RenderError::BatchOverflow)
            },
            (FramePhase::InFlight, FrameEvent::WorkDone) => action is Completed,
            _ => action is Ignored,
        }
    }

    /// Advances the frame by one step: takes what the host reports and says
    /// what to do next. The active slot changes only when the GPU has
    /// finished a frame, so no slot is written while the GPU may read it.
    pub fn render(&mut self, world: &World, event: FrameEvent) -> (action: FrameAction)
        ensures
            old(self).wf(),
            final(self).wf(),
            old(self).asks(world, event, action),
            final(self).phase() == next_phase(
                old(self).phase(),
                event,
                fits_slot(world.drawable_count() as int),
            ),
            final(self).slot() == next_slot(old(self).slot(), old(self).phase(), event),
            final(self).surface_width() == old(self).surface_width(),
            final(self).surface_height() == old(self).surface_height(),
            final(self).projection() == old(self).projection(),
    {
        proof {
            use_type_invariant(&*self);
        }
        match (self.phase, event) {
            (FramePhase::Idle, FrameEvent::Begin) => {
                self.phase = FramePhase::Acquiring;
                FrameAction::AcquireSurface
            },
            (FramePhase::Acquiring, FrameEvent::SurfaceUnavailable) => {
                self.phase = FramePhase::Retrying;
                FrameAction::ReconfigureSurface {
                    width: self.surface_width,
                    height: self.surface_height,
                }
            },
            (FramePhase::Retrying, FrameEvent::SurfaceUnavailable) => {
                self.phase = FramePhase::Idle;
                FrameAction::Abort(RenderError::SurfaceLost)
            },
            (FramePhase::Acquiring, FrameEvent::SurfaceAcquired) | (
                FramePhase::Retrying,
                FrameEvent::SurfaceAcquired,
            ) => {
                match self.draw_sprites_batched(world) {
                    Ok(plan) => {
                        self.phase = FramePhase::InFlight;
                        FrameAction::Submit(plan)
                    },
                    Err(e) => {
                        self.phase = FramePhase::Idle;
                        FrameAction::Abort(e)
                    },
                }
            },
            (FramePhase::InFlight, FrameEvent::WorkDone) => {
                self.current_buffer = (self.current_buffer + 1) % SLOT_COUNT;
                self.phase = FramePhase::Idle;
                FrameAction::Completed
            },
            _ => FrameAction::Ignored,
        }
    }

    /// Whether `plan` paints the drawables of `world`, each once and in paint
    /// order, from the active slot.
    pub open spec fn frames(&self, world: &World, plan: FramePlan) -> bool {
        exists|order: Seq<Entity>|
            world.lists_drawables(order) && paint_ordered(world.drawables_in(order))
                && #[trigger] plan.paints(world.drawables_in(order), self.slot() as int)
    }
}

/// Whether there is one draw call per drawable, each painting its drawable.
pub open spec fn paints_each(draws: Seq<QuadDraw>, ds: Seq<Drawable>) -> bool {
    &&& draws.len() == ds.len()
    &&& forall|k: int| 0 <= k < draws.len() ==> (#[trigger] draws[k]).paints(ds[k])
}

/// Without stretching, the projection scale is that of the logical
/// resolution, whatever the size of the window.
pub proof fn lemma_fixed_scale_ignores_window(config: GameConfig, width: u32, height: u32)
    requires
        !config.stretch_mode,
    ensures
        scale_for(config, width, height) == (ProjectionScale {
            width: config.logical_width,
            height: config.logical_height,
        }),
{
}

/// With stretching, the projection scale is that of the window.
pub proof fn lemma_stretched_scale_follows_window(config: GameConfig, width: u32, height: u32)
    requires
        config.stretch_mode,
    ensures
        scale_for(config, width, height) == (ProjectionScale { width, height }),
{
}

/// While a frame is in flight no plan is handed out: nothing is written
/// into a slot that the GPU may still read.
pub proof fn lemma_no_plan_while_in_flight(
    renderer: Renderer,
    world: World,
    event: FrameEvent,
    action: FrameAction,
)
    requires
        renderer.phase() == FramePhase::InFlight,
        renderer.asks(&world, event, action),
    ensures
        !(action is Submit),
        next_phase(renderer.phase(), event, fits_slot(world.drawable_count() as int))
            == FramePhase::InFlight ==> next_slot(renderer.slot(), renderer.phase(), event)
            == renderer.slot(),
{
}

/// The frame state machine retries a surface as `surface_step` says: the
/// first refusal of a frame is retried, the second ends the frame.
pub proof fn lemma_surface_failures(fits: bool)
    ensures
        surface_step(1) == SurfaceStep::Retry,
        next_phase(FramePhase::Acquiring, FrameEvent::SurfaceUnavailable, fits)
            == FramePhase::Retrying,
        surface_step(2) == SurfaceStep::GiveUp,
        next_phase(FramePhase::Retrying, FrameEvent::SurfaceUnavailable, fits) == FramePhase::Idle,
{
}

/// Completed frames take the two slots in turn: the slot after a frame is
/// the other one, and the slot after two frames is the same one.
pub proof fn lemma_slots_alternate(slot: usize)
    requires
        slot < SLOT_COUNT,
    ensures
        next_slot(slot, FramePhase::InFlight, FrameEvent::WorkDone) == 1 - slot,
        next_slot((1 - slot) as usize, FramePhase::InFlight, FrameEvent::WorkDone) == slot,
{
}

/// The active slot changes with no other step than the completion of a
/// frame that is in flight.
pub proof fn lemma_slot_kept_until_done(slot: usize, phase: FramePhase, event: FrameEvent)
    requires
        !(phase == FramePhase::InFlight && event == FrameEvent::WorkDone),
    ensures
        next_slot(slot, phase, event) == slot,
{
}

} // verus!
