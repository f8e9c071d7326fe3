//! Settings for the window and the surface it draws on.

use vstd::prelude::*;

verus! {

/// The level of hardware graphics acceleration asked for.
#[derive(Clone, Copy, Debug, PartialEq, Eq, Structural)]
pub enum HardwareAcceleration {
    /// Require graphics acceleration.
    Required,
    /// Prefer graphics acceleration, but fall back to software.
    Preferred,
    /// Do not use graphics acceleration.
    Off,
}

/// How the surface that is drawn on and presented is set up.
#[derive(Clone, Copy, Debug, PartialEq, Eq, Structural)]
pub struct SurfaceSettings {
    /// Vertical syncing, limiting the frame rate to the display's.
    pub vsync: bool,
    /// Bits in the depth buffer; 0 means none.
    pub depth_buffer: u8,
    /// Bits in the stencil buffer; 0 means none.
    pub stencil_buffer: u8,
    /// Multisampling level, a power of two; 0 turns it off.
    pub multisamples: u8,
    pub hardware_acceleration: HardwareAcceleration,
}

pub open spec fn default_surface_settings() -> SurfaceSettings {
    SurfaceSettings {
        vsync: true,
        depth_buffer: 24,
        stencil_buffer: 0,
        multisamples: 4,
        hardware_acceleration: HardwareAcceleration::Preferred,
    }
}

impl Default for SurfaceSettings {
    /// Vsync on, a 24-bit depth buffer, no stencil buffer, 4x multisampling,
    /// hardware acceleration preferred.
    fn default() -> (r: SurfaceSettings)
        ensures
            r == default_surface_settings(),
    {
        SurfaceSettings {
            vsync: true,
            depth_buffer: 24,
            stencil_buffer: 0,
            multisamples: 4,
            hardware_acceleration: HardwareAcceleration::Preferred,
        }
    }
}

/// A window icon as RGBA pixels, with the path it was loaded from; two icons
/// are equal when their paths are.
#[derive(Clone, Debug)]
pub struct WindowIcon {
    rgba: Vec<u8>,
    width: u32,
    height: u32,
    path: String,
}

impl WindowIcon {
    pub closed spec fn path_spec(&self) -> Seq<char> {
        self.path@
    }

    pub closed spec fn pixels_spec(&self) -> (Seq<u8>, u32, u32) {
        (self.rgba@, self.width, self.height)
    }

    /// An icon from its pixels and the path it came from.
    pub fn new(rgba: Vec<u8>, width: u32, height: u32, path: String) -> (r: WindowIcon)
        ensures
            r.pixels_spec() == (rgba@, width, height),
            r.path_spec() == path@,
    {
        WindowIcon { rgba, width, height, path }
    }

    /// The RGBA pixels, row by row.
    pub fn rgba(&self) -> (r: &Vec<u8>)
        ensures
            r@ == self.pixels_spec().0,
    {
        &self.rgba
    }

    /// `(width, height)` in pixels.
    pub fn size(&self) -> (r: (u32, u32))
        ensures
            r == (self.pixels_spec().1, self.pixels_spec().2),
    {
        (self.width, self.height)
    }

    pub fn path(&self) -> (r: &str)
        ensures
            r@ == self.path_spec(),
    {
        self.path.as_str()
    }
}

impl From<(Vec<u8>, u32, u32, String)> for WindowIcon {
    /// An icon from `(rgba, width, height, path)`.
    fn from(parts: (Vec<u8>, u32, u32, String)) -> (r: WindowIcon) {
        let (rgba, width, height, path) = parts;
        WindowIcon { rgba, width, height, path }
    }
}

impl vstd::std_specs::convert::FromSpecImpl<(Vec<u8>, u32, u32, String)> for WindowIcon {
    open spec fn obeys_from_spec() -> bool {
        true
    }

    closed spec fn from_spec(parts: (Vec<u8>, u32, u32, String)) -> WindowIcon {
        WindowIcon { rgba: parts.0, width: parts.1, height: parts.2, path: parts.3 }
    }
}

impl PartialEq for WindowIcon {
    fn eq(&self, other: &WindowIcon) -> (r: bool) {
        self.path == other.path
    }
}

impl vstd::std_specs::cmp::PartialEqSpecImpl for WindowIcon {
    open spec fn obeys_eq_spec() -> bool {
        true
    }

    open spec fn eq_spec(&self, other: &WindowIcon) -> bool {
        self.path_spec() == other.path_spec()
    }
}

impl Eq for WindowIcon {

}

/// Settings of the default window.
#[derive(Debug)]
pub struct WindowSettings {
    /// The window's title.
    pub title: String,
    /// The smallest size, `(width, height)`, in logical pixels.
    pub min_size: (u32, u32),
    /// The largest and first size; `None` maximises the window.
    pub max_size: Option<(u32, u32)>,
    pub borderless: bool,
    pub icon: Option<WindowIcon>,
    pub surface_settings: SurfaceSettings,
}

impl Default for WindowSettings {
    /// No title, at least 2 by 2 pixels, maximised, with a border and no
    /// icon, and the default surface.
    fn default() -> (r: WindowSettings)
        ensures
            r.title@ == Seq::<char>::empty(),
            r.min_size == (2u32, 2u32),
            r.max_size is None,
            !r.borderless,
            r.icon is None,
            r.surface_settings == default_surface_settings(),
    {
        WindowSettings {
            title: String::new(),
            min_size: (2, 2),
            max_size: None,
            borderless: false,
            icon: None,
            surface_settings: SurfaceSettings::default(),
        }
    }
}

impl WindowSettings {
    /// The surface part of the settings.
    pub fn surface(&self) -> (r: &SurfaceSettings)
        ensures
            *r == self.surface_settings,
    {
        &self.surface_settings
    }
}

impl std::ops::Deref for WindowSettings {
    type Target = SurfaceSettings;

    fn deref(&self) -> (r: &SurfaceSettings)
        ensures
            *r == self.surface_settings,
    {
        &self.surface_settings
    }
}

impl std::ops::DerefMut for WindowSettings {
    fn deref_mut(&mut self) -> (r: &mut SurfaceSettings)
        ensures
            *r == old(self).surface_settings,
            final(self).surface_settings == *final(r),
            final(self).title == old(self).title,
            final(self).min_size == old(self).min_size,
            final(self).max_size == old(self).max_size,
            final(self).borderless == old(self).borderless,
            final(self).icon == old(self).icon,
    {
        &mut self.surface_settings
    }
}

} // verus!
