//! The per-frame pass sequence and the state it depends on.
//!
//! Each frame runs three passes, in this order, in one command sequence: the
//! decay compute pass over the accumulation texture, the update compute pass
//! over the particles, and the blit render pass that samples the texture onto
//! the surface. `GraphicsCore::frame` decides what each pass binds, pushes and
//! launches; the caller records and submits exactly that.

use vstd::prelude::*;
use crate::dispatch::{
    groups_for, shadow_dispatch, update_dispatch, Dispatch, SHADOW_WORKGROUP, UPDATE_WORKGROUP,
};
use crate::resources::{clamped, derived, Extent, ResourceSet};
use crate::settings::RuntimeSettings;

verus! {

/// Vertices of the full-surface triangle strip drawn by the blit pass.
pub const BLIT_VERTICES: u32 = 4;

/// The fixed pipelines; none depends on the flags.
#[derive(Clone, Copy, Debug, PartialEq, Eq, Structural)]
pub enum Pipeline {
    Shadow,
    Update,
    Blit,
}

/// A bind group of the resource set of generation `generation`.
#[derive(Clone, Copy, Debug, PartialEq, Eq, Structural)]
pub struct BindGroupRef {
    pub pipeline: Pipeline,
    pub generation: u64,
}

/// What a pass launches.
#[derive(Clone, Copy, Debug, PartialEq, Eq, Structural)]
pub enum PassWork {
    Dispatch(Dispatch),
    Draw { vertices: u32, instances: u32 },
}

/// One pass of a frame. `flags` is pushed as a constant; the update pass also
/// pushes the cursor and the elapsed time, which the caller supplies.
#[derive(Clone, Copy, Debug, PartialEq, Eq, Structural)]
pub struct PassPlan {
    pub pipeline: Pipeline,
    pub bind_group: BindGroupRef,
    pub flags: u32,
    pub work: PassWork,
    /// The pass first clears its target to transparent.
    pub clear_target: bool,
}

/// The three passes of a frame, run in field order.
#[derive(Clone, Copy, Debug, PartialEq, Eq, Structural)]
pub struct FramePlan {
    pub shadow: PassPlan,
    pub update: PassPlan,
    pub blit: PassPlan,
    /// The accumulation texture is all zero when the first pass starts.
    pub texture_zeroed: bool,
}

/// State of the renderer between frames.
#[derive(Clone, Copy, Debug, PartialEq, Eq, Structural)]
pub struct GraphicsCore {
    /// Largest side of a 2D texture that the device accepts.
    pub max_dim: u32,
    /// Size of the surface, which follows the window.
    pub size: Extent,
    /// The current accumulation texture and its bind groups.
    pub resources: ResourceSet,
    /// Number of particles, fixed at start.
    pub particles: u32,
    /// No pass has written the current accumulation texture yet.
    pub texture_zeroed: bool,
}

impl GraphicsCore {
    /// The resource set matches the surface: its texture is the surface size
    /// clamped to the device's limit.
    pub open spec fn wf(&self) -> bool {
        self.resources.extent == clamped(self.size, self.max_dim)
    }

    /// State after the window is resized to `size`.
    pub open spec fn after_resize(&self, size: Extent) -> GraphicsCore {
        GraphicsCore {
            max_dim: self.max_dim,
            size,
            resources: derived(self.resources, size, self.max_dim),
            particles: self.particles,
            texture_zeroed: true,
        }
    }

    /// State after a frame is rendered.
    pub open spec fn after_frame(&self) -> GraphicsCore {
        GraphicsCore { texture_zeroed: false, ..*self }
    }

    /// The bind group of `pipeline` in the current resource set.
    pub open spec fn bind_group(&self, pipeline: Pipeline) -> BindGroupRef {
        BindGroupRef { pipeline, generation: self.resources.generation }
    }

    /// The passes of the next frame, with `flags` pushed to each.
    pub open spec fn plan_for(&self, flags: u32) -> FramePlan {
        FramePlan {
            shadow: PassPlan {
                pipeline: Pipeline::Shadow,
                bind_group: self.bind_group(Pipeline::Shadow),
                flags,
                work: PassWork::Dispatch(
                    Dispatch {
                        x: groups_for(self.size.width as nat, SHADOW_WORKGROUP as nat) as u32,
                        y: groups_for(self.size.height as nat, SHADOW_WORKGROUP as nat) as u32,
                        z: 1,
                    },
                ),
                clear_target: false,
            },
            update: PassPlan {
                pipeline: Pipeline::Update,
                bind_group: self.bind_group(Pipeline::Update),
                flags,
                work: PassWork::Dispatch(
                    Dispatch {
                        x: groups_for(self.particles as nat, UPDATE_WORKGROUP as nat) as u32,
                        y: 1,
                        z: 1,
                    },
                ),
                clear_target: false,
            },
            blit: PassPlan {
                pipeline: Pipeline::Blit,
                bind_group: self.bind_group(Pipeline::Blit),
                flags,
                work: PassWork::Draw { vertices: BLIT_VERTICES, instances: 1 },
                clear_target: true,
            },
            texture_zeroed: self.texture_zeroed,
        }
    }

    /// State at start, for a surface of size `size`, a device whose largest
    /// texture side is `max_dim`, and `particles` particles.
    pub fn new(max_dim: u32, size: Extent, particles: u32) -> (r: GraphicsCore)
        ensures
            r.wf(),
            r.max_dim == max_dim,
            r.size == size,
            r.resources.extent == clamped(size, max_dim),
            r.resources.generation == 0,
            r.particles == particles,
            r.texture_zeroed,
    {
        let resources = ResourceSet { extent: crate::resources::clamp_extent(size, max_dim), generation: 0 };
        GraphicsCore { max_dim, size, resources, particles, texture_zeroed: true }
    }

    /// The window now measures `width` by `height`: the surface takes that
    /// size and the resource set is replaced by a fresh one. Returns the new
    /// set, which the caller builds before the next frame.
    pub fn resized(&mut self, width: u32, height: u32) -> (r: ResourceSet)
        requires
            old(self).wf(),
        ensures
            *final(self) == old(self).after_resize(Extent { width, height }),
            final(self).wf(),
            r == final(self).resources,
            r.generation != old(self).resources.generation,
    {
        let size = Extent { width, height };
        let resources = self.resources.derive(size, self.max_dim);
        self.size = size;
        self.resources = resources;
        self.texture_zeroed = true;
        resources
    }

    /// The passes of one frame, for the flags in `settings`.
    pub fn frame(&mut self, settings: &RuntimeSettings) -> (plan: FramePlan)
        requires
            old(self).wf(),
        ensures
            plan == old(self).plan_for(settings.f),
            *final(self) == old(self).after_frame(),
            final(self).wf(),
    {
        let flags = settings.f;
        let generation = self.resources.generation;
        let shadow = PassPlan {
            pipeline: Pipeline::Shadow,
            bind_group: BindGroupRef { pipeline: Pipeline::Shadow, generation },
            flags,
            work: PassWork::Dispatch(shadow_dispatch(self.size.width, self.size.height)),
            clear_target: false,
        };
        let update = PassPlan {
            pipeline: Pipeline::Update,
            bind_group: BindGroupRef { pipeline: Pipeline::Update, generation },
            flags,
            work: PassWork::Dispatch(Dispatch { x: update_dispatch(self.particles), y: 1, z: 1 }),
            clear_target: false,
        };
        let blit = PassPlan {
            pipeline: Pipeline::Blit,
            bind_group: BindGroupRef { pipeline: Pipeline::Blit, generation },
            flags,
            work: PassWork::Draw { vertices: BLIT_VERTICES, instances: 1 },
            clear_target: true,
        };
        let plan = FramePlan { shadow, update, blit, texture_zeroed: self.texture_zeroed };
        self.texture_zeroed = false;
        plan
    }
}

/// Resizing twice to the same size gives the texture the same clamped size
/// both times.
pub proof fn lemma_resize_idempotent(c: GraphicsCore, size: Extent)
    requires
        c.wf(),
    ensures
        c.after_resize(size).after_resize(size).resources.extent == c.after_resize(
            size,
        ).resources.extent,
        c.after_resize(size).after_resize(size).size == c.after_resize(size).size,
        c.after_resize(size).after_resize(size).wf(),
{
}

/// The accumulation texture never exceeds the device's largest texture side.
pub proof fn lemma_texture_within_limit(c: GraphicsCore)
    requires
        c.wf(),
    ensures
        c.resources.extent.width <= c.max_dim,
        c.resources.extent.height <= c.max_dim,
        c.resources.extent.width <= c.size.width,
        c.resources.extent.height <= c.size.height,
{
}

/// All three passes of a frame bind the current resource set.
pub proof fn lemma_plan_binds_current_set(c: GraphicsCore, flags: u32)
    ensures
        c.plan_for(flags).shadow.bind_group.generation == c.resources.generation,
        c.plan_for(flags).update.bind_group.generation == c.resources.generation,
        c.plan_for(flags).blit.bind_group.generation == c.resources.generation,
{
}

/// Between two frames with no resize, the second frame's passes run on the
/// texture that the first one left, which is no longer all zero.
pub proof fn lemma_trails_persist(c: GraphicsCore, first: u32, second: u32)
    requires
        c.wf(),
    ensures
        c.after_frame().wf(),
        c.after_frame().plan_for(second).shadow.bind_group == c.plan_for(first).shadow.bind_group,
        c.after_frame().plan_for(second).update.bind_group == c.plan_for(first).update.bind_group,
        c.after_frame().plan_for(second).blit.bind_group == c.plan_for(first).blit.bind_group,
        !c.after_frame().plan_for(second).texture_zeroed,
{
}

/// After a resize the next frame starts on a new, all-zero texture: none of
/// its passes binds the superseded set.
pub proof fn lemma_resize_resets_trails(c: GraphicsCore, size: Extent, flags: u32)
    requires
        c.wf(),
    ensures
        c.after_resize(size).plan_for(flags).texture_zeroed,
        c.after_resize(size).plan_for(flags).shadow.bind_group.generation
            != c.resources.generation,
        c.after_resize(size).plan_for(flags).update.bind_group.generation
            != c.resources.generation,
        c.after_resize(size).plan_for(flags).blit.bind_group.generation
            != c.resources.generation,
{
}

/// Changing the flags between two frames changes only what each pass
/// pushes: pipelines, bind groups and launch sizes stay the same.
pub proof fn lemma_flags_only_change_push_constants(c: GraphicsCore, a: u32, b: u32)
    ensures
        (PassPlan { flags: b, ..c.plan_for(a).shadow }) == c.plan_for(b).shadow,
        (PassPlan { flags: b, ..c.plan_for(a).update }) == c.plan_for(b).update,
        (PassPlan { flags: b, ..c.plan_for(a).blit }) == c.plan_for(b).blit,
        c.plan_for(a).texture_zeroed == c.plan_for(b).texture_zeroed,
        c.plan_for(b).shadow.flags == b && c.plan_for(b).update.flags == b
            && c.plan_for(b).blit.flags == b,
{
}

} // verus!
