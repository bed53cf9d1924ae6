use vstd::prelude::*;

verus! {

/// How the camera projects the world.
#[derive(Clone, Copy, Debug, PartialEq, Eq, Structural)]
pub enum ProjectionType {
    Orthographic,
    Perspective,
}

/// The window size that the camera's projection was last computed for.
#[derive(Clone, Copy, Debug, PartialEq, Eq, Structural)]
pub struct ProjectionCache {
    pub width: u32,
    pub height: u32,
}

impl ProjectionCache {
    pub fn new(width: u32, height: u32) -> (r: Self)
        ensures
            r == (ProjectionCache { width, height }),
    {
        ProjectionCache { width, height }
    }

    /// Takes the current window size; tells whether it differs from the one
    /// the projection was computed for, in which case the projection must be
    /// recomputed for the new size (which is then kept).
    pub fn update(&mut self, width: u32, height: u32) -> (changed: bool)
        ensures
            changed == (old(self).width != width || old(self).height != height),
            *final(self) == (ProjectionCache { width, height }),
    {
        if self.width == width && self.height == height {
            return false;
        }
        self.width = width;
        self.height = height;
        true
    }
}

} // verus!
