//! The camera: where the scene is seen from and which viewport it fills.

use vstd::prelude::*;
use crate::base::{Vec3, Viewport};

verus! {

/// A camera looking from `position` toward `target`. The view transform is
/// invertible exactly when the two points differ, which `wf` requires.
#[derive(Clone, Copy, Debug, PartialEq, Eq, Structural)]
pub struct Camera {
    pub position: Vec3,
    pub target: Vec3,
    pub viewport: Viewport,
}

impl Camera {
    pub open spec fn wf(self) -> bool {
        self.position != self.target
    }

    /// A camera at `position` looking toward `target`; `None` when the two
    /// points coincide, since no view direction follows from them.
    pub fn new(position: Vec3, target: Vec3, viewport: Viewport) -> (r: Option<Camera>)
        ensures
            position == target <==> r is None,
            r matches Some(c) ==> c.wf() && c == (Camera { position, target, viewport }),
    {
        if position == target {
            None
        } else {
            Some(Camera { position, target, viewport })
        }
    }

    /// Moves the camera; the viewport is kept.
    pub fn set_view(&mut self, position: Vec3, target: Vec3) -> (r: bool)
        ensures
            r == (position != target),
            r ==> *final(self) == (Camera { position, target, viewport: old(self).viewport }),
            !r ==> *final(self) == *old(self),
    {
        if position == target {
            false
        } else {
            self.position = position;
            self.target = target;
            true
        }
    }

    /// Resizes the area the camera renders into; the view is kept.
    pub fn set_viewport(&mut self, viewport: Viewport)
        ensures
            *final(self) == (Camera { viewport, ..*old(self) }),
    {
        self.viewport = viewport;
    }

    pub fn viewport(&self) -> (r: Viewport)
        ensures
            r == self.viewport,
    {
        self.viewport
    }
}

} // verus!
