//! The render context: the compiled programs that can be bound, and a record
//! of every draw submitted, of the G-buffer, and of the shaded image.

use vstd::prelude::*;
use crate::base::Viewport;
use crate::material::{subset, AttributeSet, MaterialDesc};

verus! {

/// Why a render call failed.
#[derive(Clone, Copy, Debug, PartialEq, Eq, Structural)]
pub enum RenderError {
    /// A program (or other resource) the call needs is not available.
    ResourceBindFailure,
    /// The material needs a vertex attribute the geometry does not have.
    AttributeMismatch,
    /// The lighting pass ran without a geometry pass before it.
    PipelineStateError,
}

/// Where a draw writes.
#[derive(Clone, Copy, Debug, PartialEq, Eq, Structural)]
pub enum Target {
    Screen,
    GBuffer,
}

/// One draw submission.
#[derive(Clone, Copy, Debug, PartialEq, Eq, Structural)]
pub struct DrawCall {
    pub program: u32,
    pub target: Target,
    pub vertices: u64,
    pub viewport: Viewport,
}

/// A rasterised surface: what the geometry pass writes into the G-buffer.
#[derive(Clone, Copy, Debug, PartialEq, Eq, Structural)]
pub struct Surface {
    pub program: u32,
    pub vertices: u64,
    pub viewport: Viewport,
}

/// A surface of the final image and the number of lights summed over it.
#[derive(Clone, Copy, Debug, PartialEq, Eq, Structural)]
pub struct Shade {
    pub surface: Surface,
    pub lights: u128,
}

pub struct ContextView {
    pub programs: Seq<u32>,
    pub draws: Seq<DrawCall>,
    pub gbuffer: Seq<Surface>,
    pub geometry_pass_done: bool,
    pub image: Seq<Shade>,
}

pub struct RenderContext {
    programs: Vec<u32>,
    draws: Vec<DrawCall>,
    gbuffer: Vec<Surface>,
    geometry_pass_done: bool,
    image: Vec<Shade>,
}

impl View for RenderContext {
    type V = ContextView;

    closed spec fn view(&self) -> ContextView {
        ContextView {
            programs: self.programs@,
            draws: self.draws@,
            gbuffer: self.gbuffer@,
            geometry_pass_done: self.geometry_pass_done,
            image: self.image@,
        }
    }
}

/// What a forward render of a geometry that has the attributes `supplied`
/// and `vertices` vertices gives: an attribute mismatch, a missing program,
/// or one draw to the screen that shades one surface with `lights` lights.
pub open spec fn forward_outcome(
    supplied: AttributeSet,
    vertices: u64,
    m: MaterialDesc,
    viewport: Viewport,
    lights: u128,
    c: ContextView,
) -> (Result<(), RenderError>, ContextView) {
    if !subset(m.required, supplied) {
        (Err(RenderError::AttributeMismatch), c)
    } else if !c.programs.contains(m.program) {
        (Err(RenderError::ResourceBindFailure), c)
    } else {
        let s = Surface { program: m.program, vertices, viewport };
        (
            Ok(()),
            ContextView {
                draws: c.draws.push(
                    DrawCall { program: m.program, target: Target::Screen, vertices, viewport },
                ),
                image: c.image.push(Shade { surface: s, lights }),
                ..c
            },
        )
    }
}

/// What a deferred render gives: the same failures as a forward one, or one
/// draw into the G-buffer that stores one surface there.
pub open spec fn deferred_outcome(
    supplied: AttributeSet,
    vertices: u64,
    m: MaterialDesc,
    viewport: Viewport,
    c: ContextView,
) -> (Result<(), RenderError>, ContextView) {
    if !subset(m.required, supplied) {
        (Err(RenderError::AttributeMismatch), c)
    } else if !c.programs.contains(m.program) {
        (Err(RenderError::ResourceBindFailure), c)
    } else {
        (
            Ok(()),
            ContextView {
                draws: c.draws.push(
                    DrawCall { program: m.program, target: Target::GBuffer, vertices, viewport },
                ),
                gbuffer: c.gbuffer.push(Surface { program: m.program, vertices, viewport }),
                ..c
            },
        )
    }
}

/// Each G-buffer surface lit by `lights` lights.
pub open spec fn lit(g: Seq<Surface>, lights: u128) -> Seq<Shade> {
    g.map_values(|s: Surface| Shade { surface: s, lights })
}

/// The number of vertices of the full-screen quad of the lighting pass.
pub const SCREEN_QUAD_VERTICES: u64 = 6;

/// What the lighting pass gives: without a geometry pass before it a
/// pipeline error; without its program a bind failure; else one full-screen
/// draw, and every G-buffer surface added to the image, lit.
pub open spec fn lighting_outcome(
    program: u32,
    viewport: Viewport,
    lights: u128,
    c: ContextView,
) -> (Result<(), RenderError>, ContextView) {
    if !c.geometry_pass_done {
        (Err(RenderError::PipelineStateError), c)
    } else if !c.programs.contains(program) {
        (Err(RenderError::ResourceBindFailure), c)
    } else {
        (
            Ok(()),
            ContextView {
                draws: c.draws.push(
                    DrawCall {
                        program,
                        target: Target::Screen,
                        vertices: SCREEN_QUAD_VERTICES,
                        viewport,
                    },
                ),
                image: c.image + lit(c.gbuffer, lights),
                ..c
            },
        )
    }
}

impl RenderContext {
    /// A context with the given compiled programs and nothing drawn.
    pub fn new(programs: Vec<u32>) -> (r: RenderContext)
        ensures
            r@.programs == programs@,
            r@.draws.len() == 0,
            r@.gbuffer.len() == 0,
            !r@.geometry_pass_done,
            r@.image.len() == 0,
    {
        RenderContext {
            programs,
            draws: Vec::new(),
            gbuffer: Vec::new(),
            geometry_pass_done: false,
            image: Vec::new(),
        }
    }

    /// Makes one more program available to bind.
    pub fn add_program(&mut self, program: u32)
        ensures
            final(self)@ == (ContextView { programs: old(self)@.programs.push(program), ..old(self)@ }),
    {
        self.programs.push(program);
    }

    pub fn has_program(&self, program: u32) -> (r: bool)
        ensures
            r == self@.programs.contains(program),
    {
        let mut i: usize = 0;
        while i < self.programs.len()
            invariant
                i <= self.programs@.len(),
                forall|j: int| 0 <= j < i ==> self.programs@[j] != program,
            decreases self.programs@.len() - i,
        {
            if self.programs[i] == program {
                return true;
            }
            i = i + 1;
        }
        false
    }

    pub fn draws(&self) -> (r: &Vec<DrawCall>)
        ensures
            r@ == self@.draws,
    {
        &self.draws
    }

    pub fn gbuffer(&self) -> (r: &Vec<Surface>)
        ensures
            r@ == self@.gbuffer,
    {
        &self.gbuffer
    }

    pub fn image(&self) -> (r: &Vec<Shade>)
        ensures
            r@ == self@.image,
    {
        &self.image
    }

    /// Binds the material and draws to the screen; see `forward_outcome`.
    pub fn submit_forward(
        &mut self,
        supplied: AttributeSet,
        vertices: u64,
        m: MaterialDesc,
        viewport: Viewport,
        lights: u128,
    ) -> (r: Result<(), RenderError>)
        ensures
            (r, final(self)@) == forward_outcome(supplied, vertices, m, viewport, lights, old(self)@),
    {
        if !m.required.is_subset_of(&supplied) {
            return Err(RenderError::AttributeMismatch);
        }
        if !self.has_program(m.program) {
            return Err(RenderError::ResourceBindFailure);
        }
        self.draws.push(DrawCall { program: m.program, target: Target::Screen, vertices, viewport });
        self.image.push(Shade { surface: Surface { program: m.program, vertices, viewport }, lights });
        Ok(())
    }

    /// Binds the material and draws into the G-buffer; see `deferred_outcome`.
    pub fn submit_deferred(
        &mut self,
        supplied: AttributeSet,
        vertices: u64,
        m: MaterialDesc,
        viewport: Viewport,
    ) -> (r: Result<(), RenderError>)
        ensures
            (r, final(self)@) == deferred_outcome(supplied, vertices, m, viewport, old(self)@),
    {
        if !m.required.is_subset_of(&supplied) {
            return Err(RenderError::AttributeMismatch);
        }
        if !self.has_program(m.program) {
            return Err(RenderError::ResourceBindFailure);
        }
        self.draws.push(DrawCall { program: m.program, target: Target::GBuffer, vertices, viewport });
        self.gbuffer.push(Surface { program: m.program, vertices, viewport });
        Ok(())
    }

    /// Clears the G-buffer and marks that a geometry pass has begun.
    pub fn begin_geometry_pass(&mut self)
        ensures
            final(self)@ == (ContextView {
                gbuffer: Seq::empty(),
                geometry_pass_done: true,
                ..old(self)@
            }),
    {
        self.gbuffer = Vec::new();
        self.geometry_pass_done = true;
    }

    /// Lights the G-buffer onto the screen; see `lighting_outcome`.
    pub fn resolve_lighting(&mut self, program: u32, viewport: Viewport, lights: u128) -> (r:
        Result<(), RenderError>)
        ensures
            (r, final(self)@) == lighting_outcome(program, viewport, lights, old(self)@),
    {
        if !self.geometry_pass_done {
            return Err(RenderError::PipelineStateError);
        }
        if !self.has_program(program) {
            return Err(RenderError::ResourceBindFailure);
        }
        self.draws.push(
            DrawCall { program, target: Target::Screen, vertices: SCREEN_QUAD_VERTICES, viewport },
        );
        let ghost start = self.image@;
        let ghost before = self@;
        let mut i: usize = 0;
        while i < self.gbuffer.len()
            invariant
                i <= self.gbuffer@.len(),
                self.programs@ == before.programs,
                self.draws@ == before.draws,
                self.gbuffer@ == before.gbuffer,
                self.geometry_pass_done == before.geometry_pass_done,
                self.image@ == start + lit(self.gbuffer@.subrange(0, i as int), lights),
            decreases self.gbuffer@.len() - i,
        {
            let s = self.gbuffer[i];
            self.image.push(Shade { surface: s, lights });
            proof {
                assert(lit(self.gbuffer@.subrange(0, i + 1), lights) =~= lit(
                    self.gbuffer@.subrange(0, i as int),
                    lights,
                ).push(Shade { surface: s, lights }));
            }
            i = i + 1;
        }
        proof {
            assert(self.gbuffer@.subrange(0, i as int) =~= self.gbuffer@);
        }
        Ok(())
    }
}

} // verus!
