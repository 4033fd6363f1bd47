//! Decisions of the renderer that do not need the GPU: the size the surface
//! is configured with, which surface format is picked, what each frame
//! draws with which sampler, and how a failed frame acquisition is handled.

use vstd::prelude::*;

use crate::mesh::{
    grid_indices, grid_vertices, lattice_point, lemma_triangles_counter_clockwise, orientation,
    spec_quads_per_side,
};
use crate::sampler::SamplerKind;

verus! {

/// How many textured quads the renderer draws each frame.
pub const NUMBER_QUADS: i32 = 4;

/// Size the window surface is configured with. It is never zero-sized:
/// configuring a zero-sized surface is a GPU validation error.
pub struct SurfaceSize {
    width: u32,
    height: u32,
}

impl View for SurfaceSize {
    type V = (u32, u32);

    closed spec fn view(&self) -> (u32, u32) {
        (self.width, self.height)
    }
}

impl SurfaceSize {
    #[verifier::type_invariant]
    spec fn never_zero(self) -> bool {
        self.width >= 1 && self.height >= 1
    }

    /// The surface size for a window of the given inner size; a minimized
    /// window may report zero, which is raised to one.
    pub fn new(width: u32, height: u32) -> (s: Self)
        ensures
            s@ == (if width == 0 { 1u32 } else { width }, if height == 0 { 1u32 } else { height }),
    {
        let w = if width > 1 { width } else { 1 };
        let h = if height > 1 { height } else { 1 };
        SurfaceSize { width: w, height: h }
    }

    pub fn width(&self) -> (w: u32)
        ensures
            w == self@.0,
            w >= 1,
    {
        proof {
            use_type_invariant(self);
        }
        self.width
    }

    pub fn height(&self) -> (h: u32)
        ensures
            h == self@.1,
            h >= 1,
    {
        proof {
            use_type_invariant(self);
        }
        self.height
    }

    /// Follows a window resize. A zero width or height (a minimized window)
    /// is ignored and `false` returned; otherwise the size is taken over and
    /// `true` returned, and the surface must be reconfigured.
    pub fn resize(&mut self, width: u32, height: u32) -> (reconfigure: bool)
        ensures
            reconfigure == (width != 0 && height != 0),
            reconfigure ==> final(self)@ == (width, height),
            !reconfigure ==> final(self)@ == old(self)@,
    {
        if width == 0 || height == 0 {
            return false;
        }
        *self = SurfaceSize { width, height };
        true
    }
}

/// Picks the surface format among those the adapter supports, given whether
/// each is sRGB-encoded: the first sRGB format, so that a value of 0.5
/// displays as perceptual mid-grey, or else the first format.
pub fn choose_surface_format(is_srgb: &[bool]) -> (i: usize)
    requires
        is_srgb@.len() > 0,
    ensures
        i < is_srgb@.len(),
        is_srgb@[i as int] || forall|j: int| 0 <= j < is_srgb@.len() ==> !is_srgb@[j],
        is_srgb@[i as int] ==> forall|j: int| 0 <= j < i ==> !is_srgb@[j],
        !is_srgb@[i as int] ==> i == 0,
{
    let mut i: usize = 0;
    while i < is_srgb.len()
        invariant
            i <= is_srgb@.len(),
            forall|j: int| 0 <= j < i ==> !is_srgb@[j],
        decreases is_srgb@.len() - i,
    {
        if is_srgb[i] {
            return i;
        }
        i = i + 1;
    }
    0
}

/// One indexed draw of a frame: the index range of one quad and the sampler
/// its texture is read through.
#[derive(Clone, Copy, Debug, PartialEq, Eq, Structural)]
pub struct QuadDraw {
    pub first_index: u32,
    pub end_index: u32,
    pub sampler: SamplerKind,
}

/// The sampler the quad with the given number is drawn with.
pub open spec fn spec_quad_sampler(quad_index: int) -> SamplerKind {
    if quad_index == 0 {
        SamplerKind::RepeatNearest
    } else if quad_index == 1 {
        SamplerKind::MirrorNearest
    } else if quad_index == 2 {
        SamplerKind::RepeatLinear
    } else {
        SamplerKind::ClampLinear
    }
}

/// The draw of the quad with the given number: its six indices and its
/// sampler.
pub open spec fn spec_quad_draw(quad_index: int) -> QuadDraw {
    QuadDraw {
        first_index: (6 * quad_index) as u32,
        end_index: (6 * quad_index + 6) as u32,
        sampler: spec_quad_sampler(quad_index),
    }
}

/// The draw of one quad: indices `6 * quad_index` up to, not including,
/// `6 * quad_index + 6`, read through the quad's own sampler.
pub fn quad_draw(quad_index: i32) -> (d: QuadDraw)
    requires
        0 <= quad_index < NUMBER_QUADS,
    ensures
        d == spec_quad_draw(quad_index as int),
        d.first_index == 6 * quad_index,
        d.end_index == d.first_index + 6,
        quad_index == 0 ==> d.sampler == SamplerKind::RepeatNearest,
        quad_index == 1 ==> d.sampler == SamplerKind::MirrorNearest,
        quad_index == 2 ==> d.sampler == SamplerKind::RepeatLinear,
        quad_index == 3 ==> d.sampler == SamplerKind::ClampLinear,
{
    let start = (quad_index * 6) as u32;
    let end = start + 6;
    let sampler = match quad_index {
        0 => SamplerKind::RepeatNearest,
        1 => SamplerKind::MirrorNearest,
        2 => SamplerKind::RepeatLinear,
        _ => SamplerKind::ClampLinear,
    };
    QuadDraw { first_index: start, end_index: end, sampler }
}

/// The draws of one frame, one per quad, in quad order.
pub fn frame_draws() -> (draws: Vec<QuadDraw>)
    ensures
        draws@.len() == NUMBER_QUADS,
        forall|k: int| 0 <= k < draws@.len() ==> #[trigger] draws@[k] == spec_quad_draw(k),
        forall|k: int|
            0 <= k < draws@.len() ==> #[trigger] draws@[k].first_index == 6 * k && draws@[k].end_index
                == 6 * k + 6,
        draws@[0].sampler == SamplerKind::RepeatNearest,
        draws@[1].sampler == SamplerKind::MirrorNearest,
        draws@[2].sampler == SamplerKind::RepeatLinear,
        draws@[3].sampler == SamplerKind::ClampLinear,
{
    let mut draws: Vec<QuadDraw> = Vec::new();
    let mut quad_index: i32 = 0;
    while quad_index < NUMBER_QUADS
        invariant
            0 <= quad_index <= NUMBER_QUADS,
            draws@.len() == quad_index,
            forall|k: int| 0 <= k < draws@.len() ==> #[trigger] draws@[k] == spec_quad_draw(k),
        decreases NUMBER_QUADS - quad_index,
    {
        draws.push(quad_draw(quad_index));
        quad_index = quad_index + 1;
    }
    draws
}

/// A frame draws the whole index buffer of the renderer's mesh exactly once:
/// the draws cover consecutive, disjoint six-index ranges from the first
/// index to the last, each quad with a sampler of its own.
pub proof fn lemma_frame_draws_cover_mesh()
    ensures
        6 * NUMBER_QUADS == grid_indices(spec_quads_per_side(NUMBER_QUADS as int)).len(),
        spec_quad_draw(0).first_index == 0,
        spec_quad_draw(NUMBER_QUADS - 1).end_index == grid_indices(
            spec_quads_per_side(NUMBER_QUADS as int),
        ).len(),
        forall|k: int|
            0 <= k < NUMBER_QUADS - 1 ==> #[trigger] spec_quad_draw(k).end_index == spec_quad_draw(k + 1).first_index,
        forall|k: int|
            0 <= k < NUMBER_QUADS ==> #[trigger] spec_quad_draw(k).end_index == spec_quad_draw(k).first_index + 6,
        forall|k: int, l: int|
            0 <= k < l < NUMBER_QUADS ==> #[trigger] spec_quad_sampler(k) != #[trigger] spec_quad_sampler(l),
{
    crate::mesh::lemma_perfect_square_quad_count(2);
}

/// Which winding of a triangle's corners counts as its front.
#[derive(Clone, Copy, Debug, PartialEq, Eq, Structural)]
pub enum FrontFace {
    /// Counter-clockwise corners face the viewer.
    Ccw,
    /// Clockwise corners face the viewer.
    Cw,
}

/// A side of a triangle.
#[derive(Clone, Copy, Debug, PartialEq, Eq, Structural)]
pub enum Face {
    Front,
    Back,
}

/// How the pipeline turns triangles into pixels: which winding is the
/// front, and which side, if any, is thrown away.
#[derive(Clone, Copy, Debug, PartialEq, Eq, Structural)]
pub struct PrimitiveSettings {
    pub front_face: FrontFace,
    pub cull_mode: Option<Face>,
}

/// The pipeline's rasterization settings.
pub open spec fn spec_primitive_settings() -> PrimitiveSettings {
    PrimitiveSettings { front_face: FrontFace::Ccw, cull_mode: Some(Face::Back) }
}

/// The pipeline's rasterization settings: counter-clockwise triangles face
/// the viewer, and triangles showing their back are culled.
pub fn primitive_settings() -> (p: PrimitiveSettings)
    ensures
        p == spec_primitive_settings(),
        p.front_face == FrontFace::Ccw,
        p.cull_mode == Some(Face::Back),
{
    PrimitiveSettings { front_face: FrontFace::Ccw, cull_mode: Some(Face::Back) }
}

/// Whether the pipeline discards a triangle whose corners have the given
/// orientation (positive: counter-clockwise in clip space).
pub open spec fn culled(settings: PrimitiveSettings, orientation: int) -> bool {
    let front = match settings.front_face {
        FrontFace::Ccw => orientation > 0,
        FrontFace::Cw => orientation < 0,
    };
    match settings.cull_mode {
        None => false,
        Some(Face::Back) => !front,
        Some(Face::Front) => front,
    }
}

/// No triangle of the mesh is culled by the pipeline: every triangle winds
/// counter-clockwise, which the pipeline takes as facing the viewer, and only
/// back faces are culled.
pub proof fn lemma_no_triangle_culled(q: nat, k: int)
    requires
        0 <= k < 2 * q * q,
    ensures
        ({
            let vs = grid_vertices(q);
            let is = grid_indices(q);
            !culled(
                spec_primitive_settings(),
                orientation(
                    lattice_point(vs[is[3 * k] as int]),
                    lattice_point(vs[is[3 * k + 1] as int]),
                    lattice_point(vs[is[3 * k + 2] as int]),
                ),
            )
        }),
{
    lemma_triangles_counter_clockwise(q, k);
}

/// Every one of the four samplers is shown: some quad of the frame is drawn
/// through it.
pub proof fn lemma_every_sampler_drawn(kind: SamplerKind)
    ensures
        exists|k: int| 0 <= k < NUMBER_QUADS && #[trigger] spec_quad_sampler(k) == kind,
{
    match kind {
        SamplerKind::RepeatNearest => assert(spec_quad_sampler(0) == kind),
        SamplerKind::MirrorNearest => assert(spec_quad_sampler(1) == kind),
        SamplerKind::RepeatLinear => assert(spec_quad_sampler(2) == kind),
        SamplerKind::ClampLinear => assert(spec_quad_sampler(3) == kind),
    }
}

/// What went wrong when asking the surface for the next frame's texture, or
/// that nothing did.
#[derive(Clone, Copy, Debug, PartialEq, Eq, Structural)]
pub enum AcquireOutcome {
    Acquired,
    Timeout,
    Outdated,
    Lost,
    OutOfMemory,
    Other,
}

/// What the renderer does with a frame after asking for its texture.
#[derive(Clone, Copy, Debug, PartialEq, Eq, Structural)]
pub enum FrameAction {
    /// Draw the frame and present it.
    Draw,
    /// The surface no longer matches the window (after a resize or a wake
    /// from sleep): reconfigure it and drop this frame.
    ReconfigureAndSkip,
    /// Report the error and drop this frame.
    ReportAndSkip,
}

/// Decides how to go on after asking the surface for a frame texture.
pub fn frame_action(outcome: AcquireOutcome) -> (a: FrameAction)
    ensures
        outcome == AcquireOutcome::Acquired <==> a == FrameAction::Draw,
        (outcome == AcquireOutcome::Lost || outcome == AcquireOutcome::Outdated) <==> a
            == FrameAction::ReconfigureAndSkip,
{
    match outcome {
        AcquireOutcome::Acquired => FrameAction::Draw,
        AcquireOutcome::Lost | AcquireOutcome::Outdated => FrameAction::ReconfigureAndSkip,
        _ => FrameAction::ReportAndSkip,
    }
}

} // verus!
