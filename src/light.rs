//! Light descriptors and the set of lights a frame is rendered with.

use vstd::prelude::*;
use crate::base::Vec3;

verus! {

/// An RGB color.
#[derive(Clone, Copy, Debug, PartialEq, Eq, Structural)]
pub struct Rgb {
    pub r: u8,
    pub g: u8,
    pub b: u8,
}

#[derive(Clone, Copy, Debug, PartialEq, Eq, Structural)]
pub struct AmbientLight {
    pub color: Rgb,
    pub intensity: u8,
}

#[derive(Clone, Copy, Debug, PartialEq, Eq, Structural)]
pub struct DirectionalLight {
    pub color: Rgb,
    pub intensity: u8,
    pub direction: Vec3,
}

#[derive(Clone, Copy, Debug, PartialEq, Eq, Structural)]
pub struct PointLight {
    pub color: Rgb,
    pub intensity: u8,
    pub position: Vec3,
}

#[derive(Clone, Copy, Debug, PartialEq, Eq, Structural)]
pub struct SpotLight {
    pub color: Rgb,
    pub intensity: u8,
    pub position: Vec3,
    pub direction: Vec3,
    pub cutoff_degrees: u16,
}

/// The lights of a scene: at most one ambient light and any number of the
/// other kinds, each in the order given.
pub struct Lights {
    pub ambient: Option<AmbientLight>,
    pub directional: Vec<DirectionalLight>,
    pub point: Vec<PointLight>,
    pub spot: Vec<SpotLight>,
}

impl Lights {
    /// The number of light contributions a shaded surface sums.
    pub open spec fn count_spec(&self) -> u128 {
        ((if self.ambient is Some { 1nat } else { 0nat }) + self.directional@.len()
            + self.point@.len() + self.spot@.len()) as u128
    }

    /// No light at all.
    pub fn none() -> (r: Lights)
        ensures
            r.ambient is None,
            r.directional@.len() == 0,
            r.point@.len() == 0,
            r.spot@.len() == 0,
            r.count_spec() == 0,
    {
        Lights { ambient: None, directional: Vec::new(), point: Vec::new(), spot: Vec::new() }
    }

    pub fn count(&self) -> (r: u128)
        ensures
            r == self.count_spec(),
    {
        let a: u128 = if self.ambient.is_some() { 1 } else { 0 };
        a + self.directional.len() as u128 + self.point.len() as u128 + self.spot.len() as u128
    }
}

} // verus!
