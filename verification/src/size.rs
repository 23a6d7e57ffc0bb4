//! Logical sizes of textures and viewports.

use vstd::prelude::*;

verus! {

/// A size in pixels that is at least 1 in each dimension.
#[derive(Debug, Clone, Copy, PartialEq, Eq)]
pub struct Size2d {
    width: u32,
    height: u32,
}

/// `extent` itself, or 1 where it is 0.
pub open spec fn clamp_extent(extent: u32) -> u32 {
    if extent == 0 {
        1
    } else {
        extent
    }
}

impl Size2d {
    #[verifier::type_invariant]
    spec fn positive(self) -> bool {
        self.width >= 1 && self.height >= 1
    }

    pub closed spec fn spec_width(&self) -> u32 {
        self.width
    }

    pub closed spec fn spec_height(&self) -> u32 {
        self.height
    }

    /// The size `width` by `height`, with a degenerate dimension raised to 1.
    pub fn new(width: u32, height: u32) -> (size: Self)
        ensures
            size.spec_width() == clamp_extent(width),
            size.spec_height() == clamp_extent(height),
    {
        let width = if width == 0 { 1 } else { width };
        let height = if height == 0 { 1 } else { height };
        Size2d { width, height }
    }

    #[verifier::when_used_as_spec(spec_width)]
    pub fn width(&self) -> (w: u32)
        ensures
            w == self.spec_width(),
            w >= 1,
    {
        proof {
            use_type_invariant(self);
        }
        self.width
    }

    #[verifier::when_used_as_spec(spec_height)]
    pub fn height(&self) -> (h: u32)
        ensures
            h == self.spec_height(),
            h >= 1,
    {
        proof {
            use_type_invariant(self);
        }
        self.height
    }
}

} // verus!
