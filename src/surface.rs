//! Surface configuration: choice of color format and modes from what the
//! surface supports, and the size kept in step with the window.
use vstd::prelude::*;

verus! {

/// A window's inner size in physical pixels.
#[derive(Clone, Copy, Debug, PartialEq, Eq, Structural)]
pub struct WindowSize {
    pub width: u32,
    pub height: u32,
}

/// What a surface supports, as the choice of a configuration reads it: for
/// each supported color format in the order reported, whether it is an SRGB
/// format; and how many present modes and alpha modes are reported.
#[derive(Clone, Debug)]
pub struct SurfaceCaps {
    pub srgb_formats: Vec<bool>,
    pub present_mode_count: usize,
    pub alpha_mode_count: usize,
}

/// The least index whose flag is set at or after `start`, if any.
pub open spec fn first_set_from(flags: Seq<bool>, start: int) -> Option<int>
    decreases flags.len() - start,
{
    if start < 0 || start >= flags.len() {
        None
    } else if flags[start] {
        Some(start)
    } else {
        first_set_from(flags, start + 1)
    }
}

/// The format to configure, by index: the first SRGB format if there is one,
/// else the first format; none when no format is reported.
pub open spec fn chosen_format(srgb: Seq<bool>) -> Option<int> {
    if srgb.len() == 0 {
        None
    } else {
        match first_set_from(srgb, 0) {
            Some(i) => Some(i),
            None => Some(0),
        }
    }
}

/// Index of the format to configure among the reported ones, whose SRGB
/// flags are `srgb`.
pub fn choose_format(srgb: &Vec<bool>) -> (r: Option<usize>)
    ensures
        r matches Some(i) ==> chosen_format(srgb@) == Some(i as int),
        r is None ==> chosen_format(srgb@) is None,
{
    if srgb.len() == 0 {
        return None;
    }
    let mut i: usize = 0;
    while i < srgb.len()
        invariant
            i <= srgb@.len(),
            first_set_from(srgb@, 0) == first_set_from(srgb@, i as int),
        decreases srgb@.len() - i,
    {
        if srgb[i] {
            return Some(i);
        }
        i = i + 1;
    }
    Some(0)
}

/// Why no configuration can be made.
#[derive(Clone, Copy, Debug, PartialEq, Eq, Structural)]
pub enum ConfigError {
    /// The surface reports no color format.
    NoFormat,
    /// The surface reports no present mode.
    NoPresentMode,
    /// The surface reports no alpha mode.
    NoAlphaMode,
    /// The window has a zero width or height.
    ZeroSize,
}

/// A surface configuration: indices into the reported formats, present modes
/// and alpha modes, and the size presented at.
#[derive(Clone, Copy, Debug, PartialEq, Eq, Structural)]
pub struct SurfaceSettings {
    pub format: usize,
    pub present_mode: usize,
    pub alpha_mode: usize,
    pub width: u32,
    pub height: u32,
}

/// The error, if any, of configuring a surface with `caps` at `size`.
pub open spec fn config_error(caps: SurfaceCaps, size: WindowSize) -> Option<ConfigError> {
    if caps.srgb_formats@.len() == 0 {
        Some(ConfigError::NoFormat)
    } else if caps.present_mode_count == 0 {
        Some(ConfigError::NoPresentMode)
    } else if caps.alpha_mode_count == 0 {
        Some(ConfigError::NoAlphaMode)
    } else if size.width == 0 || size.height == 0 {
        Some(ConfigError::ZeroSize)
    } else {
        None
    }
}

impl SurfaceSettings {
    /// Sizes are never degenerate.
    pub open spec fn wf(&self) -> bool {
        self.width > 0 && self.height > 0
    }

    /// The aspect ratio presented at, as width over height.
    pub open spec fn aspect_spec(&self) -> (int, int) {
        (self.width as int, self.height as int)
    }

    /// The configuration for a surface with `caps` in a window of `size`:
    /// the first SRGB format, else the first format; the first present mode
    /// and the first alpha mode; the window's size.
    pub fn new(caps: &SurfaceCaps, size: WindowSize) -> (r: Result<Self, ConfigError>)
        ensures
            r matches Err(e) ==> config_error(*caps, size) == Some(e),
            r is Ok <==> config_error(*caps, size) is None,
            r matches Ok(s) ==> {
                &&& s.wf()
                &&& chosen_format(caps.srgb_formats@) == Some(s.format as int)
                &&& s.present_mode == 0
                &&& s.alpha_mode == 0
                &&& s.width == size.width
                &&& s.height == size.height
            },
    {
        let format = match choose_format(&caps.srgb_formats) {
            Some(i) => i,
            None => {
                return Err(ConfigError::NoFormat);
            },
        };
        if caps.present_mode_count == 0 {
            return Err(ConfigError::NoPresentMode);
        }
        if caps.alpha_mode_count == 0 {
            return Err(ConfigError::NoAlphaMode);
        }
        if size.width == 0 || size.height == 0 {
            return Err(ConfigError::ZeroSize);
        }
        Ok(SurfaceSettings { format, present_mode: 0, alpha_mode: 0, width: size.width, height: size.height })
    }

    /// Takes the window's new size, so the surface is to be reconfigured,
    /// and returns `true`; or, for a zero width or height (a minimised
    /// window), leaves the configuration as it was and returns `false`.
    pub fn resize(&mut self, size: WindowSize) -> (r: bool)
        requires
            old(self).wf(),
        ensures
            final(self).wf(),
            r == (size.width > 0 && size.height > 0),
            r ==> *final(self) == (SurfaceSettings {
                width: size.width,
                height: size.height,
                ..*old(self)
            }),
            !r ==> *final(self) == *old(self),
            r ==> final(self).aspect_spec() == (size.width as int, size.height as int),
            final(self).aspect_spec().1 > 0,
    {
        if size.width == 0 || size.height == 0 {
            return false;
        }
        self.width = size.width;
        self.height = size.height;
        true
    }

    /// The aspect ratio presented at, as (width, height).
    pub fn aspect(&self) -> (r: (u32, u32))
        ensures
            (r.0 as int, r.1 as int) == self.aspect_spec(),
    {
        (self.width, self.height)
    }

    /// The size presented at.
    pub fn size(&self) -> (r: WindowSize)
        ensures
            r == (WindowSize { width: self.width, height: self.height }),
    {
        WindowSize { width: self.width, height: self.height }
    }
}

} // verus!
