//! The display sink that windows are laid out on.

use vstd::prelude::*;
use crate::geometry::{Point, Rectangle, Size, Transform, spec_to_logical};
use crate::shell::FullscreenSurface;

verus! {

/// A video mode: the resolution in physical pixels and the refresh rate in mHz.
#[derive(Clone, Copy, Debug, PartialEq, Eq, Structural)]
pub struct Mode {
    pub size: Size,
    pub refresh: i32,
}

/// An output: where it lies in the logical space, its active mode, the
/// transformation and the integer scale it applies, and its fullscreen slot.
#[derive(Clone, Copy, Debug, PartialEq, Eq, Structural)]
pub struct Output {
    pub location: Point,
    pub mode: Option<Mode>,
    pub transform: Transform,
    pub scale: i32,
    pub fullscreen: FullscreenSurface,
}

impl Output {
    /// The output has a mode that a logical size can be taken from: a mode is
    /// active, its resolution is not negative and the scale is at least one.
    pub open spec fn has_usable_mode(self) -> bool {
        self.mode.is_some() && self.mode.unwrap().size.is_valid() && self.scale >= 1
    }

    /// The size of the output in logical units: the resolution of the mode, put
    /// through the transformation and divided by the scale. Without a usable
    /// mode it is zero by zero.
    pub open spec fn spec_logical_size(self) -> Size {
        if self.has_usable_mode() {
            spec_to_logical(
                self.transform.spec_transform_size(self.mode.unwrap().size),
                self.scale as int,
            )
        } else {
            Size { w: 0, h: 0 }
        }
    }

    /// The rectangle the output covers in the logical space, if it has a usable mode.
    pub open spec fn spec_geometry(self) -> Option<Rectangle> {
        if self.has_usable_mode() {
            Some(Rectangle { loc: self.location, size: self.spec_logical_size() })
        } else {
            None
        }
    }

    /// An output at `location` with what it currently applies, and an empty
    /// fullscreen slot.
    pub fn new(location: Point, mode: Option<Mode>, transform: Transform, scale: i32) -> (r: Output)
        ensures
            r == (Output { location, mode, transform, scale, fullscreen: FullscreenSurface { window: None } }),
    {
        Output { location, mode, transform, scale, fullscreen: FullscreenSurface::new() }
    }

    /// The size of the output in logical units, zero by zero without a usable mode.
    pub fn logical_size(&self) -> (r: Size)
        ensures
            r == self.spec_logical_size(),
            r.is_valid(),
    {
        match self.mode {
            Some(mode) => {
                if mode.size.w >= 0 && mode.size.h >= 0 && self.scale >= 1 {
                    let turned = self.transform.transform_size(mode.size);
                    turned.to_logical(self.scale)
                } else {
                    Size { w: 0, h: 0 }
                }
            },
            None => Size { w: 0, h: 0 },
        }
    }

    /// The rectangle the output covers in the logical space, if it has a usable mode.
    pub fn geometry(&self) -> (r: Option<Rectangle>)
        ensures
            r == self.spec_geometry(),
    {
        match self.mode {
            Some(mode) => {
                if mode.size.w >= 0 && mode.size.h >= 0 && self.scale >= 1 {
                    Some(Rectangle { loc: self.location, size: self.logical_size() })
                } else {
                    None
                }
            },
            None => None,
        }
    }
}

} // verus!
