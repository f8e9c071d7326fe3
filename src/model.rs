//! A triangle mesh geometry built from vertex arrays, and the full-screen
//! quad used by screen-space passes.

use vstd::prelude::*;
use crate::base::{box_of, lemma_box_of_bounds, AxisAlignedBoundingBox, Vec3, Viewport};
use crate::camera::Camera;
use crate::context::{deferred_outcome, forward_outcome, RenderContext, RenderError};
use crate::light::Lights;
use crate::material::{AttributeSet, DeferredMaterial, ForwardMaterial};
use crate::object::{Geometry, Shadable, Shadable2D};

verus! {

/// Why a model could not be built.
#[derive(Clone, Copy, Debug, PartialEq, Eq, Structural)]
pub enum Error {
    /// An attribute array does not hold one entry per vertex position.
    AttributeLengthMismatch,
}

/// A texture coordinate.
#[derive(Clone, Copy, Debug, PartialEq, Eq, Structural)]
pub struct Uv {
    pub u: i32,
    pub v: i32,
}

/// Vertex data as the asset loader hands it over: positions, and per-vertex
/// normals, texture coordinates and colors where the asset has them.
pub struct CpuMesh {
    pub positions: Vec<Vec3>,
    pub normals: Option<Vec<Vec3>>,
    pub uvs: Option<Vec<Uv>>,
    pub colors: Option<Vec<crate::material::Rgba>>,
}

/// An extra per-vertex attribute array for a model.
pub enum CustomAttribute {
    Normals(Vec<Vec3>),
    Uvs(Vec<Uv>),
    Colors(Vec<crate::material::Rgba>),
}

/// The attribute set a mesh with these optional arrays supplies.
pub open spec fn attributes_of(normals: bool, uvs: bool, colors: bool) -> AttributeSet {
    AttributeSet { position: true, normal: normals, uv: uvs, color: colors }
}

impl CpuMesh {
    /// Each attribute array that is present has one entry per position.
    pub open spec fn lengths_match(&self) -> bool {
        (self.normals matches Some(n) ==> n@.len() == self.positions@.len()) && (self.uvs matches Some(
            u,
        ) ==> u@.len() == self.positions@.len()) && (self.colors matches Some(c) ==> c@.len()
            == self.positions@.len())
    }
}

/// A mesh ready to render: its vertex arrays and its bounding box, which is
/// always the box of its positions.
pub struct Model {
    positions: Vec<Vec3>,
    normals: Option<Vec<Vec3>>,
    uvs: Option<Vec<Uv>>,
    colors: Option<Vec<crate::material::Rgba>>,
    aabb: AxisAlignedBoundingBox,
}

impl Model {
    /// The stored box is the box of the positions, and each attribute array
    /// has one entry per position.
    pub closed spec fn wf(&self) -> bool {
        &&& self.aabb == box_of(self.positions@)
        &&& self.normals matches Some(n) ==> n@.len() == self.positions@.len()
        &&& self.uvs matches Some(u) ==> u@.len() == self.positions@.len()
        &&& self.colors matches Some(c) ==> c@.len() == self.positions@.len()
    }

    /// The vertex positions.
    pub closed spec fn positions_spec(&self) -> Seq<Vec3> {
        self.positions@
    }

    /// Builds a model from vertex arrays; fails when an attribute array does
    /// not have one entry per position.
    pub fn create(mesh: CpuMesh) -> (r: Result<Model, Error>)
        ensures
            mesh.lengths_match() <==> r is Ok,
            !mesh.lengths_match() ==> r == Err::<Model, Error>(Error::AttributeLengthMismatch),
            r matches Ok(m) ==> {
                &&& m.wf()
                &&& m.positions_spec() == mesh.positions@
                &&& m.supplied() == attributes_of(
                    mesh.normals is Some,
                    mesh.uvs is Some,
                    mesh.colors is Some,
                )
                &&& m.vertex_count() == mesh.positions@.len()
                &&& m.aabb_spec() == box_of(mesh.positions@)
            },
    {
        let n = mesh.positions.len();
        let ok = (match &mesh.normals {
            Some(v) => v.len() == n,
            None => true,
        }) && (match &mesh.uvs {
            Some(v) => v.len() == n,
            None => true,
        }) && (match &mesh.colors {
            Some(v) => v.len() == n,
            None => true,
        });
        if !ok {
            return Err(Error::AttributeLengthMismatch);
        }
        let aabb = AxisAlignedBoundingBox::new_with_positions(&mesh.positions);
        Ok(
            Model {
                positions: mesh.positions,
                normals: mesh.normals,
                uvs: mesh.uvs,
                colors: mesh.colors,
                aabb,
            },
        )
    }

    /// Adds or replaces an attribute array; fails, leaving the model as it
    /// was, when the array does not have one entry per position.
    pub fn add_custom_attribute(&mut self, attribute: CustomAttribute) -> (r: Result<(), Error>)
        requires
            old(self).wf(),
        ensures
            final(self).wf(),
            r is Ok <==> match attribute {
                CustomAttribute::Normals(v) => v@.len() == old(self).positions_spec().len(),
                CustomAttribute::Uvs(v) => v@.len() == old(self).positions_spec().len(),
                CustomAttribute::Colors(v) => v@.len() == old(self).positions_spec().len(),
            },
            r is Err ==> r == Err::<(), Error>(Error::AttributeLengthMismatch),
            final(self).positions_spec() == old(self).positions_spec(),
            final(self).aabb_spec() == old(self).aabb_spec(),
            final(self).vertex_count() == old(self).vertex_count(),
            r is Err ==> final(self).supplied() == old(self).supplied(),
            r is Ok ==> final(self).supplied() == match attribute {
                CustomAttribute::Normals(_) => AttributeSet { normal: true, ..old(self).supplied() },
                CustomAttribute::Uvs(_) => AttributeSet { uv: true, ..old(self).supplied() },
                CustomAttribute::Colors(_) => AttributeSet { color: true, ..old(self).supplied() },
            },
    {
        let n = self.positions.len();
        match attribute {
            CustomAttribute::Normals(v) => {
                if v.len() != n {
                    return Err(Error::AttributeLengthMismatch);
                }
                self.normals = Some(v);
            },
            CustomAttribute::Uvs(v) => {
                if v.len() != n {
                    return Err(Error::AttributeLengthMismatch);
                }
                self.uvs = Some(v);
            },
            CustomAttribute::Colors(v) => {
                if v.len() != n {
                    return Err(Error::AttributeLengthMismatch);
                }
                self.colors = Some(v);
            },
        }
        Ok(())
    }

    /// The attributes this model can supply to a material.
    pub fn attributes(&self) -> (r: AttributeSet)
        ensures
            r == self.supplied(),
    {
        AttributeSet {
            position: true,
            normal: self.normals.is_some(),
            uv: self.uvs.is_some(),
            color: self.colors.is_some(),
        }
    }
}

/// The bounding box of a model holds each of its vertex positions.
pub proof fn lemma_model_aabb_contains_positions(m: &Model)
    requires
        m.wf(),
    ensures
        m.aabb_spec().wf(),
        forall|i: int|
            0 <= i < m.positions_spec().len() ==> m.aabb_spec().contains_spec(
                #[trigger] m.positions_spec()[i],
            ),
{
    lemma_box_of_bounds(m.positions@);
}

impl Shadable for Model {
    closed spec fn supplied(&self) -> AttributeSet {
        attributes_of(self.normals is Some, self.uvs is Some, self.colors is Some)
    }

    closed spec fn vertex_count(&self) -> u64 {
        self.positions@.len() as u64
    }

    fn render_forward<Mat: ForwardMaterial>(
        &self,
        material: &Mat,
        camera: &Camera,
        lights: &Lights,
        ctx: &mut RenderContext,
    ) -> (r: Result<(), RenderError>) {
        let supplied = self.attributes();
        let m = material.descriptor();
        let l = lights.count();
        ctx.submit_forward(supplied, self.positions.len() as u64, m, camera.viewport, l)
    }

    fn render_deferred<Mat: DeferredMaterial>(
        &self,
        material: &Mat,
        camera: &Camera,
        viewport: Viewport,
        ctx: &mut RenderContext,
    ) -> (r: Result<(), RenderError>) {
        let supplied = self.attributes();
        let m = material.descriptor();
        ctx.submit_deferred(supplied, self.positions.len() as u64, m, viewport)
    }
}

impl Geometry for Model {
    closed spec fn aabb_spec(&self) -> AxisAlignedBoundingBox {
        self.aabb
    }

    fn aabb(&self) -> (r: &AxisAlignedBoundingBox) {
        &self.aabb
    }
}

/// Two triangles covering the whole viewport, with texture coordinates.
#[derive(Clone, Copy, Debug, PartialEq, Eq, Structural)]
pub struct ScreenQuad {}

impl Shadable2D for ScreenQuad {
    open spec fn supplied(&self) -> AttributeSet {
        AttributeSet { position: true, normal: false, uv: true, color: false }
    }

    open spec fn vertex_count(&self) -> u64 {
        crate::context::SCREEN_QUAD_VERTICES
    }

    fn render_forward<Mat: ForwardMaterial>(
        &self,
        material: &Mat,
        viewport: Viewport,
        ctx: &mut RenderContext,
    ) -> (r: Result<(), RenderError>) {
        let supplied = AttributeSet { position: true, normal: false, uv: true, color: false };
        ctx.submit_forward(
            supplied,
            crate::context::SCREEN_QUAD_VERTICES,
            material.descriptor(),
            viewport,
            0,
        )
    }
}

} // verus!
