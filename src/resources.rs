//! The accumulation texture's size and the resource set built over it.

use vstd::prelude::*;

verus! {

/// A size in pixels.
#[derive(Clone, Copy, Debug, PartialEq, Eq, Structural)]
pub struct Extent {
    pub width: u32,
    pub height: u32,
}

/// The smaller of `a` and `b`.
pub open spec fn min_u32(a: u32, b: u32) -> u32 {
    if a <= b {
        a
    } else {
        b
    }
}

/// `requested` with each side cut to the device's largest 2D texture side.
pub open spec fn clamped(requested: Extent, max_dim: u32) -> Extent {
    Extent { width: min_u32(requested.width, max_dim), height: min_u32(requested.height, max_dim) }
}

/// Size of the accumulation texture for a surface of size `requested`.
pub fn clamp_extent(requested: Extent, max_dim: u32) -> (r: Extent)
    ensures
        r == clamped(requested, max_dim),
        r.width <= max_dim && r.height <= max_dim,
{
    let width = if requested.width <= max_dim {
        requested.width
    } else {
        max_dim
    };
    let height = if requested.height <= max_dim {
        requested.height
    } else {
        max_dim
    };
    Extent { width, height }
}

/// The accumulation texture, zeroed when made, together with the three bind
/// groups that view it (decay, update, blit). The whole set is replaced at
/// once; `generation` tells one set from the next.
#[derive(Clone, Copy, Debug, PartialEq, Eq, Structural)]
pub struct ResourceSet {
    pub extent: Extent,
    pub generation: u64,
}

/// Generation of the set that replaces one of generation `g`.
pub open spec fn next_generation(g: u64) -> u64 {
    if g == u64::MAX {
        0
    } else {
        (g + 1) as u64
    }
}

/// The set that replaces `previous` for a surface of size `size`.
pub open spec fn derived(previous: ResourceSet, size: Extent, max_dim: u32) -> ResourceSet {
    ResourceSet { extent: clamped(size, max_dim), generation: next_generation(previous.generation) }
}

impl ResourceSet {
    /// The set that replaces `self` for a surface of size `size`: a fresh
    /// texture of the clamped size, never the old one resized.
    pub fn derive(&self, size: Extent, max_dim: u32) -> (r: ResourceSet)
        ensures
            r == derived(*self, size, max_dim),
            r.generation != self.generation,
    {
        let generation = if self.generation == u64::MAX {
            0
        } else {
            self.generation + 1
        };
        ResourceSet { extent: clamp_extent(size, max_dim), generation }
    }
}

} // verus!
