//! Workgroup counts of the two compute passes.

use vstd::prelude::*;

verus! {

/// Edge length, in texels, of the square workgroup of the decay pass.
pub const SHADOW_WORKGROUP: u32 = 16;

/// Number of particles that one workgroup of the update pass handles.
pub const UPDATE_WORKGROUP: u32 = 512;

/// Workgroups launched along one axis of `extent` items with groups of `group`:
/// one more than the number of whole groups, so the last item is always covered.
pub open spec fn groups_for(extent: nat, group: nat) -> nat
    recommends
        group > 0,
{
    extent / group + 1
}

/// A compute dispatch: workgroup counts along x, y and z.
#[derive(Clone, Copy, Debug, PartialEq, Eq, Structural)]
pub struct Dispatch {
    pub x: u32,
    pub y: u32,
    pub z: u32,
}

/// Dispatch of the decay pass over a `width` by `height` surface.
pub fn shadow_dispatch(width: u32, height: u32) -> (r: Dispatch)
    ensures
        r.x == groups_for(width as nat, SHADOW_WORKGROUP as nat),
        r.y == groups_for(height as nat, SHADOW_WORKGROUP as nat),
        r.z == 1,
        width < r.x * SHADOW_WORKGROUP <= width + SHADOW_WORKGROUP,
        height < r.y * SHADOW_WORKGROUP <= height + SHADOW_WORKGROUP,
{
    let r = Dispatch { x: width / SHADOW_WORKGROUP + 1, y: height / SHADOW_WORKGROUP + 1, z: 1 };
    proof {
        lemma_groups_cover(width as nat, SHADOW_WORKGROUP as nat);
        lemma_groups_cover(height as nat, SHADOW_WORKGROUP as nat);
    }
    r
}

/// Number of workgroups of the update pass over `particles` particles.
pub fn update_dispatch(particles: u32) -> (r: u32)
    ensures
        r == groups_for(particles as nat, UPDATE_WORKGROUP as nat),
        particles < r * UPDATE_WORKGROUP <= particles + UPDATE_WORKGROUP,
{
    proof {
        lemma_groups_cover(particles as nat, UPDATE_WORKGROUP as nat);
    }
    particles / UPDATE_WORKGROUP + 1
}

/// The groups launched for `extent` items cover every item, and at most one
/// whole group of threads lies past the end.
pub proof fn lemma_groups_cover(extent: nat, group: nat)
    requires
        group > 0,
    ensures
        extent < groups_for(extent, group) * group <= extent + group,
{
    let q = extent / group;
    let r = extent % group;
    assert(extent == q * group + r) by (nonlinear_arith)
        requires
            group > 0,
            q == extent / group,
            r == extent % group,
    ;
    assert((q + 1) * group == q * group + group) by (nonlinear_arith);
}

} // verus!
