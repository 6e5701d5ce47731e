use vxrt::renderer::{EventDirective, InputEvent, Renderer};
use vxrt::targets::SurfaceTargets;

#[test]
fn configure_sizes_surface_and_both_targets() {
    let mut t = SurfaceTargets::new(4);
    assert!(!t.configured);
    t.configure(800, 600);
    assert!(t.configured);
    assert_eq!((t.surface_width, t.surface_height), (800, 600));
    assert_eq!((t.color.width, t.color.height), (800, 600));
    assert_eq!((t.depth.width, t.depth.height), (800, 600));
    assert_eq!(t.color.sample_count, 4);
    assert_eq!(t.depth.sample_count, 4);
}

#[test]
fn nondegenerate_resize_recreates_targets() {
    let mut t = SurfaceTargets::new(4);
    t.configure(800, 600);
    let applied = t.request_resize(1920, 1080);
    assert!(applied);
    assert_eq!((t.surface_width, t.surface_height), (1920, 1080));
    assert_eq!((t.color.width, t.color.height), (1920, 1080));
    assert_eq!((t.depth.width, t.depth.height), (1920, 1080));
}

#[test]
fn zero_width_resize_is_ignored() {
    let mut t = SurfaceTargets::new(4);
    t.configure(800, 600);
    let before = t;
    assert!(!t.request_resize(0, 1080));
    assert_eq!(t, before);
}

#[test]
fn zero_height_resize_is_ignored() {
    let mut t = SurfaceTargets::new(4);
    t.configure(800, 600);
    let before = t;
    assert!(!t.request_resize(1080, 0));
    assert_eq!(t, before);
}

#[test]
fn resize_sequence_keeps_last_nondegenerate_size() {
    let mut t = SurfaceTargets::new(4);
    t.configure(640, 480);
    for &(w, h) in &[(800u32, 600u32), (0, 0), (1024, 768), (0, 768), (1280, 0), (333, 777), (0, 0)] {
        t.request_resize(w, h);
    }
    assert_eq!((t.surface_width, t.surface_height), (333, 777));
    assert_eq!((t.color.width, t.color.height), (333, 777));
    assert_eq!((t.depth.width, t.depth.height), (333, 777));
    assert_eq!(t.color.sample_count, t.depth.sample_count);
    assert_eq!(t.color.sample_count, 4);
}

#[test]
fn all_degenerate_resizes_keep_initial_size() {
    let mut t = SurfaceTargets::new(2);
    t.configure(640, 480);
    let before = t;
    for &(w, h) in &[(0u32, 0u32), (0, 600), (800, 0)] {
        t.request_resize(w, h);
    }
    assert_eq!(t, before);
}

#[test]
fn largest_size_is_accepted() {
    let mut t = SurfaceTargets::new(4);
    t.configure(u32::MAX, u32::MAX);
    assert_eq!((t.color.width, t.color.height), (u32::MAX, u32::MAX));
    assert_eq!((t.depth.width, t.depth.height), (u32::MAX, u32::MAX));
}

#[test]
fn minimize_then_restore_ends_at_restored_size() {
    let mut t = SurfaceTargets::new(4);
    t.configure(800, 600);
    let mut r = Renderer::new(t, 100);

    let d1 = r.handle_window_event(InputEvent::Resized { width: 0, height: 0 });
    assert_eq!(d1, EventDirective::NoAction);
    assert_eq!((r.targets.surface_width, r.targets.surface_height), (800, 600));

    let d2 = r.handle_window_event(InputEvent::Resized { width: 1024, height: 768 });
    assert_eq!(d2, EventDirective::RecreateTargets { width: 1024, height: 768 });
    assert_eq!((r.targets.surface_width, r.targets.surface_height), (1024, 768));
    assert_eq!((r.targets.color.width, r.targets.color.height), (1024, 768));
    assert_eq!((r.targets.depth.width, r.targets.depth.height), (1024, 768));
}
