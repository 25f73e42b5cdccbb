use particle_trails::compositor::{GraphicsCore, PassWork, Pipeline};
use particle_trails::dispatch::Dispatch;
use particle_trails::resources::{clamp_extent, Extent, ResourceSet};
use particle_trails::settings::RuntimeSettings;

fn full_hd() -> GraphicsCore {
    GraphicsCore::new(8192, Extent { width: 1920, height: 1080 }, 100_000)
}

#[test]
fn resize_is_clamped_to_the_device_limit() {
    let mut c = full_hd();
    let set = c.resized(100_000, 100_000);
    assert_eq!(set.extent, Extent { width: 8192, height: 8192 });
    assert_eq!(c.size, Extent { width: 100_000, height: 100_000 });
}

#[test]
fn resizing_twice_gives_the_same_extent() {
    let mut c = full_hd();
    let first = c.resized(3000, 9000);
    let second = c.resized(3000, 9000);
    assert_eq!(first.extent, second.extent);
    assert_eq!(first.extent, Extent { width: 3000, height: 8192 });
    assert_ne!(first.generation, second.generation);
}

#[test]
fn clamp_keeps_small_sizes() {
    assert_eq!(
        clamp_extent(Extent { width: 640, height: 480 }, 8192),
        Extent { width: 640, height: 480 }
    );
    assert_eq!(
        clamp_extent(Extent { width: 0, height: 8193 }, 8192),
        Extent { width: 0, height: 8192 }
    );
}

#[test]
fn generation_wraps_around() {
    let set = ResourceSet { extent: Extent { width: 1, height: 1 }, generation: u64::MAX };
    let next = set.derive(Extent { width: 2, height: 3 }, 8192);
    assert_eq!(next.generation, 0);
    assert_eq!(next.extent, Extent { width: 2, height: 3 });
}

#[test]
fn frame_runs_the_three_passes() {
    let mut c = full_hd();
    let plan = c.frame(&RuntimeSettings { f: 5 });
    assert_eq!(plan.shadow.pipeline, Pipeline::Shadow);
    assert_eq!(plan.shadow.work, PassWork::Dispatch(Dispatch { x: 121, y: 68, z: 1 }));
    assert!(!plan.shadow.clear_target);
    assert_eq!(plan.update.pipeline, Pipeline::Update);
    assert_eq!(plan.update.work, PassWork::Dispatch(Dispatch { x: 196, y: 1, z: 1 }));
    assert_eq!(plan.blit.pipeline, Pipeline::Blit);
    assert_eq!(plan.blit.work, PassWork::Draw { vertices: 4, instances: 1 });
    assert!(plan.blit.clear_target);
    assert_eq!((plan.shadow.flags, plan.update.flags, plan.blit.flags), (5, 5, 5));
    assert_eq!(plan.shadow.bind_group.pipeline, Pipeline::Shadow);
    assert_eq!(plan.update.bind_group.pipeline, Pipeline::Update);
    assert_eq!(plan.blit.bind_group.pipeline, Pipeline::Blit);
}

#[test]
fn trails_persist_until_a_resize() {
    let mut c = full_hd();
    let first = c.frame(&RuntimeSettings { f: 0 });
    assert!(first.texture_zeroed);
    let second = c.frame(&RuntimeSettings { f: 0 });
    assert!(!second.texture_zeroed);
    assert_eq!(first.shadow.bind_group, second.shadow.bind_group);
    assert_eq!(first.update.bind_group, second.update.bind_group);
    assert_eq!(first.blit.bind_group, second.blit.bind_group);

    let set = c.resized(800, 600);
    let third = c.frame(&RuntimeSettings { f: 0 });
    assert!(third.texture_zeroed);
    assert_ne!(third.shadow.bind_group, second.shadow.bind_group);
    assert_eq!(third.shadow.bind_group.generation, set.generation);
    assert_eq!(third.shadow.work, PassWork::Dispatch(Dispatch { x: 51, y: 38, z: 1 }));
}

#[test]
fn toggling_a_flag_changes_only_push_constants() {
    let mut c = full_hd();
    let mut settings = RuntimeSettings::new();
    let before = c.frame(&settings);
    settings.toggle_function_key(3);
    let after = c.frame(&settings);
    assert_eq!(after.shadow.flags, 4);
    assert_eq!(before.shadow.pipeline, after.shadow.pipeline);
    assert_eq!(before.shadow.bind_group, after.shadow.bind_group);
    assert_eq!(before.shadow.work, after.shadow.work);
    assert_eq!(before.update.pipeline, after.update.pipeline);
    assert_eq!(before.update.bind_group, after.update.bind_group);
    assert_eq!(before.update.work, after.update.work);
    assert_eq!(before.blit.pipeline, after.blit.pipeline);
    assert_eq!(before.blit.bind_group, after.blit.bind_group);
    assert_eq!(before.blit.work, after.blit.work);
}
