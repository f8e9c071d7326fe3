//! Materials: which vertex attributes they need, which shader program they
//! bind, and whether they draw transparently.

use vstd::prelude::*;

verus! {

/// A set of vertex attributes; position is the one every geometry has.
#[derive(Clone, Copy, Debug, PartialEq, Eq, Structural)]
pub struct AttributeSet {
    pub position: bool,
    pub normal: bool,
    pub uv: bool,
    pub color: bool,
}

/// Every attribute of `a` is in `b`.
pub open spec fn subset(a: AttributeSet, b: AttributeSet) -> bool {
    (a.position ==> b.position) && (a.normal ==> b.normal) && (a.uv ==> b.uv) && (a.color
        ==> b.color)
}

impl AttributeSet {
    pub fn is_subset_of(&self, other: &AttributeSet) -> (r: bool)
        ensures
            r == subset(*self, *other),
    {
        (!self.position || other.position) && (!self.normal || other.normal) && (!self.uv
            || other.uv) && (!self.color || other.color)
    }
}

/// What a render call needs to know of a material.
#[derive(Clone, Copy, Debug, PartialEq, Eq, Structural)]
pub struct MaterialDesc {
    /// The shader program it binds.
    pub program: u32,
    /// The vertex attributes its program reads.
    pub required: AttributeSet,
    /// Whether it blends with what is behind.
    pub transparent: bool,
}

/// A material that shades a surface in one pass, lights included.
pub trait ForwardMaterial {
    spec fn desc(&self) -> MaterialDesc;

    fn descriptor(&self) -> (r: MaterialDesc)
        ensures
            r == self.desc(),
    ;

    fn is_transparent(&self) -> (r: bool)
        ensures
            r == self.desc().transparent,
    ;
}

/// A material that writes surface parameters into the G-buffer.
pub trait DeferredMaterial {
    spec fn desc(&self) -> MaterialDesc;

    fn descriptor(&self) -> (r: MaterialDesc)
        ensures
            r == self.desc(),
    ;
}

/// A material given by its description alone, so that objects with
/// different kinds of material can share one collection.
impl ForwardMaterial for MaterialDesc {
    open spec fn desc(&self) -> MaterialDesc {
        *self
    }

    fn descriptor(&self) -> (r: MaterialDesc) {
        *self
    }

    fn is_transparent(&self) -> (r: bool) {
        self.transparent
    }
}

/// An RGBA color.
#[derive(Clone, Copy, Debug, PartialEq, Eq, Structural)]
pub struct Rgba {
    pub r: u8,
    pub g: u8,
    pub b: u8,
    pub a: u8,
}

/// One color over the whole surface; transparent when its alpha is below 255.
#[derive(Clone, Copy, Debug, PartialEq, Eq, Structural)]
pub struct ColorMaterial {
    pub program: u32,
    pub color: Rgba,
}

pub open spec fn position_only() -> AttributeSet {
    AttributeSet { position: true, normal: false, uv: false, color: false }
}

impl ForwardMaterial for ColorMaterial {
    open spec fn desc(&self) -> MaterialDesc {
        MaterialDesc { program: self.program, required: position_only(), transparent: self.color.a < 255 }
    }

    fn descriptor(&self) -> (r: MaterialDesc) {
        MaterialDesc {
            program: self.program,
            required: AttributeSet { position: true, normal: false, uv: false, color: false },
            transparent: self.color.a < 255,
        }
    }

    fn is_transparent(&self) -> (r: bool) {
        self.color.a < 255
    }
}

/// Colors interpolated from the geometry's per-vertex colors; opaque.
#[derive(Clone, Copy, Debug, PartialEq, Eq, Structural)]
pub struct VertexColorMaterial {
    pub program: u32,
}

impl ForwardMaterial for VertexColorMaterial {
    open spec fn desc(&self) -> MaterialDesc {
        MaterialDesc {
            program: self.program,
            required: AttributeSet { position: true, normal: false, uv: false, color: true },
            transparent: false,
        }
    }

    fn descriptor(&self) -> (r: MaterialDesc) {
        MaterialDesc {
            program: self.program,
            required: AttributeSet { position: true, normal: false, uv: false, color: true },
            transparent: false,
        }
    }

    fn is_transparent(&self) -> (r: bool) {
        false
    }
}

/// A texture sampled at the geometry's uv coordinates; transparent when the
/// texture has an alpha channel.
#[derive(Clone, Copy, Debug, PartialEq, Eq, Structural)]
pub struct TextureMaterial {
    pub program: u32,
    pub texture: u32,
    pub has_alpha: bool,
}

impl ForwardMaterial for TextureMaterial {
    open spec fn desc(&self) -> MaterialDesc {
        MaterialDesc {
            program: self.program,
            required: AttributeSet { position: true, normal: false, uv: true, color: false },
            transparent: self.has_alpha,
        }
    }

    fn descriptor(&self) -> (r: MaterialDesc) {
        MaterialDesc {
            program: self.program,
            required: AttributeSet { position: true, normal: false, uv: true, color: false },
            transparent: self.has_alpha,
        }
    }

    fn is_transparent(&self) -> (r: bool) {
        self.has_alpha
    }
}

/// The material the geometry pass renders an object with: it writes the
/// object's own material into the G-buffer, so it binds the same program
/// and reads the same attributes.
#[derive(Clone, Copy, Debug, PartialEq, Eq, Structural)]
pub struct GeometryPassMaterial {
    pub source: MaterialDesc,
}

impl GeometryPassMaterial {
    pub fn for_material(source: MaterialDesc) -> (r: GeometryPassMaterial)
        ensures
            r.source == source,
    {
        GeometryPassMaterial { source }
    }
}

impl DeferredMaterial for GeometryPassMaterial {
    open spec fn desc(&self) -> MaterialDesc {
        self.source
    }

    fn descriptor(&self) -> (r: MaterialDesc) {
        self.source
    }
}

} // verus!
