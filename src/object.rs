//! The capability contracts a renderable thing satisfies (`Shadable`,
//! `Geometry`, `Object`, `Shadable2D`) and `Glue`, which binds one geometry
//! to one material.

use vstd::prelude::*;
use crate::base::{AxisAlignedBoundingBox, Viewport};
use crate::camera::Camera;
use crate::context::{deferred_outcome, forward_outcome, ContextView, RenderContext, RenderError};
use crate::light::Lights;
use crate::material::{subset, AttributeSet, DeferredMaterial, ForwardMaterial, MaterialDesc};

verus! {

/// Something that renders itself with a material it is handed, in one
/// forward pass or into the G-buffer of a deferred pass. It supplies the
/// vertex attributes `supplied()` and draws `vertex_count()` vertices; a
/// material that needs any other attribute fails with an attribute mismatch.
pub trait Shadable {
    spec fn supplied(&self) -> AttributeSet;

    spec fn vertex_count(&self) -> u64;

    fn render_forward<Mat: ForwardMaterial>(
        &self,
        material: &Mat,
        camera: &Camera,
        lights: &Lights,
        ctx: &mut RenderContext,
    ) -> (r: Result<(), RenderError>)
        ensures
            (r, final(ctx)@) == forward_outcome(
                self.supplied(),
                self.vertex_count(),
                material.desc(),
                camera.viewport,
                lights.count_spec(),
                old(ctx)@,
            ),
    ;

    fn render_deferred<Mat: DeferredMaterial>(
        &self,
        material: &Mat,
        camera: &Camera,
        viewport: Viewport,
        ctx: &mut RenderContext,
    ) -> (r: Result<(), RenderError>)
        ensures
            (r, final(ctx)@) == deferred_outcome(
                self.supplied(),
                self.vertex_count(),
                material.desc(),
                viewport,
                old(ctx)@,
            ),
    ;
}

/// A shadable thing with a bounding box.
pub trait Geometry: Shadable {
    spec fn aabb_spec(&self) -> AxisAlignedBoundingBox;

    fn aabb(&self) -> (r: &AxisAlignedBoundingBox)
        ensures
            *r == self.aabb_spec(),
    ;
}

/// A geometry with a material of its own: what a scene stores.
pub trait Object: Geometry {
    spec fn material_desc(&self) -> MaterialDesc;

    /// The object's own material.
    fn material(&self) -> (r: MaterialDesc)
        ensures
            r == self.material_desc(),
    ;

    /// Renders with the object's own material.
    fn render(&self, camera: &Camera, lights: &Lights, ctx: &mut RenderContext) -> (r: Result<
        (),
        RenderError,
    >)
        ensures
            (r, final(ctx)@) == forward_outcome(
                self.supplied(),
                self.vertex_count(),
                self.material_desc(),
                camera.viewport,
                lights.count_spec(),
                old(ctx)@,
            ),
    ;

    /// Whether the object's material blends with what is behind it.
    fn is_transparent(&self) -> (r: bool)
        ensures
            r == self.material_desc().transparent,
    ;
}

/// Something drawn in screen space, with no camera and no lights.
pub trait Shadable2D {
    spec fn supplied(&self) -> AttributeSet;

    spec fn vertex_count(&self) -> u64;

    fn render_forward<Mat: ForwardMaterial>(
        &self,
        material: &Mat,
        viewport: Viewport,
        ctx: &mut RenderContext,
    ) -> (r: Result<(), RenderError>)
        ensures
            (r, final(ctx)@) == forward_outcome(
                self.supplied(),
                self.vertex_count(),
                material.desc(),
                viewport,
                0,
                old(ctx)@,
            ),
    ;
}

/// One geometry bound to one forward material.
pub struct Glue<G: Geometry, M: ForwardMaterial> {
    pub geometry: G,
    pub material: M,
}

impl<G: Geometry, M: ForwardMaterial> Shadable for Glue<G, M> {
    open spec fn supplied(&self) -> AttributeSet {
        self.geometry.supplied()
    }

    open spec fn vertex_count(&self) -> u64 {
        self.geometry.vertex_count()
    }

    /// Renders the geometry with the material handed in, not the bound one.
    fn render_forward<Mat: ForwardMaterial>(
        &self,
        material: &Mat,
        camera: &Camera,
        lights: &Lights,
        ctx: &mut RenderContext,
    ) -> (r: Result<(), RenderError>) {
        self.geometry.render_forward(material, camera, lights, ctx)
    }

    fn render_deferred<Mat: DeferredMaterial>(
        &self,
        material: &Mat,
        camera: &Camera,
        viewport: Viewport,
        ctx: &mut RenderContext,
    ) -> (r: Result<(), RenderError>) {
        self.geometry.render_deferred(material, camera, viewport, ctx)
    }
}

impl<G: Geometry, M: ForwardMaterial> Geometry for Glue<G, M> {
    open spec fn aabb_spec(&self) -> AxisAlignedBoundingBox {
        self.geometry.aabb_spec()
    }

    fn aabb(&self) -> (r: &AxisAlignedBoundingBox) {
        self.geometry.aabb()
    }
}

impl<G: Geometry, M: ForwardMaterial> Object for Glue<G, M> {
    open spec fn material_desc(&self) -> MaterialDesc {
        self.material.desc()
    }

    fn material(&self) -> (r: MaterialDesc) {
        self.material.descriptor()
    }

    fn render(&self, camera: &Camera, lights: &Lights, ctx: &mut RenderContext) -> (r: Result<
        (),
        RenderError,
    >) {
        self.geometry.render_forward(&self.material, camera, lights, ctx)
    }

    fn is_transparent(&self) -> (r: bool) {
        self.material.is_transparent()
    }
}

impl<'a, T: Shadable> Shadable for &'a T {
    open spec fn supplied(&self) -> AttributeSet {
        (**self).supplied()
    }

    open spec fn vertex_count(&self) -> u64 {
        (**self).vertex_count()
    }

    fn render_forward<Mat: ForwardMaterial>(
        &self,
        material: &Mat,
        camera: &Camera,
        lights: &Lights,
        ctx: &mut RenderContext,
    ) -> (r: Result<(), RenderError>) {
        (**self).render_forward(material, camera, lights, ctx)
    }

    fn render_deferred<Mat: DeferredMaterial>(
        &self,
        material: &Mat,
        camera: &Camera,
        viewport: Viewport,
        ctx: &mut RenderContext,
    ) -> (r: Result<(), RenderError>) {
        (**self).render_deferred(material, camera, viewport, ctx)
    }
}

impl<'a, T: Geometry> Geometry for &'a T {
    open spec fn aabb_spec(&self) -> AxisAlignedBoundingBox {
        (**self).aabb_spec()
    }

    fn aabb(&self) -> (r: &AxisAlignedBoundingBox) {
        (**self).aabb()
    }
}

impl<'a, T: Object> Object for &'a T {
    open spec fn material_desc(&self) -> MaterialDesc {
        (**self).material_desc()
    }

    fn material(&self) -> (r: MaterialDesc) {
        (**self).material()
    }

    fn render(&self, camera: &Camera, lights: &Lights, ctx: &mut RenderContext) -> (r: Result<
        (),
        RenderError,
    >) {
        (**self).render(camera, lights, ctx)
    }

    fn is_transparent(&self) -> (r: bool) {
        (**self).is_transparent()
    }
}

/// Rendering a glued object is rendering its geometry with its material;
/// when the geometry supplies every attribute the material needs and the
/// material's program is available, it succeeds.
pub proof fn lemma_glue_delegates<G: Geometry, M: ForwardMaterial>(
    glue: Glue<G, M>,
    camera: Camera,
    lights: Lights,
    c: ContextView,
)
    ensures
        forward_outcome(
            glue.supplied(),
            glue.vertex_count(),
            glue.material_desc(),
            camera.viewport,
            lights.count_spec(),
            c,
        ) == forward_outcome(
            glue.geometry.supplied(),
            glue.geometry.vertex_count(),
            glue.material.desc(),
            camera.viewport,
            lights.count_spec(),
            c,
        ),
        subset(glue.material.desc().required, glue.geometry.supplied()) && c.programs.contains(
            glue.material.desc().program,
        ) ==> forward_outcome(
            glue.supplied(),
            glue.vertex_count(),
            glue.material_desc(),
            camera.viewport,
            lights.count_spec(),
            c,
        ).0 is Ok,
{
}

} // verus!
