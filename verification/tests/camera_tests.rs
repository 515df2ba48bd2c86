use rocket_planets::camera::{blend_zoom, follow_zoom, nudged_zoom, Camera};
use rocket_planets::geom::Vec2i;

fn world_camera() -> Camera {
    Camera::new(Vec2i::new(0, 0), Vec2i::new(0, -500), 3_000, 0)
}

#[test]
fn world_to_screen_scales_and_shifts() {
    let c = world_camera();
    let s = c.world_to_screen(Vec2i::new(10_000_000, 20_000_000));
    assert_eq!(s, Vec2i { x: 30_000, y: 59_500 });
}

#[test]
fn screen_to_world_unshifts_and_scales_back() {
    let c = world_camera();
    let w = c.screen_to_world(Vec2i::new(400, -400));
    assert_eq!(w, Vec2i { x: 133_333, y: 33_333 });
    let back = c.screen_to_world(Vec2i::new(-400, 0));
    assert_eq!(back.x, -133_333);
}

#[test]
fn round_trip_near_the_target() {
    let c = Camera::new(Vec2i::new(5_000, 6_000), Vec2i::new(0, -500), 1_000_000, 0);
    let s = c.world_to_screen(Vec2i::new(5_700, 6_800));
    let w = c.screen_to_world(s);
    assert_eq!(w, Vec2i { x: 5_700, y: 6_800 });
}

#[test]
fn magic_camera_pulls_the_target_back() {
    let c = world_camera();
    let m = c.magic_zoomed(Vec2i::new(1_000_000, 2_000_000), 500);
    assert_eq!(m.zoom, 500);
    assert_eq!(m.offset, Vec2i { x: 0, y: -500 });
    assert_eq!(m.rotation, 0);
    // The focus maps to (3000, 5500); that displacement (measured from
    // the offset vertically) scaled back by the new zoom is the
    // pull-back.
    assert_eq!(m.target, Vec2i { x: 1_000_000 - 6_000_000, y: 2_000_000 - 12_000_000 });
}

#[test]
fn magic_camera_keeps_the_focus_on_screen() {
    // With exact divisions the derived camera maps the focus to the very
    // screen point the source camera did, odd coordinates included.
    let c = Camera::new(Vec2i::new(0, 0), Vec2i::new(0, 0), 1_000_000, 0);
    let focus = Vec2i::new(5, 7);
    let before = c.world_to_screen(focus);
    assert_eq!(before, Vec2i { x: 5, y: 7 });
    let m = c.magic_zoomed(focus, 500_000);
    assert_eq!(m.target, Vec2i { x: -5, y: -7 });
    assert_eq!(m.world_to_screen(focus), before);
}

#[test]
fn line_thickness_covers_five_pixels() {
    let c = Camera::new(Vec2i::new(77_000, 0), Vec2i::new(0, -500), 3_000, 0);
    assert_eq!(c.line_thickness(1_000), 1_666);
}

#[test]
fn follow_shifts_only_past_the_edge() {
    let c = Camera::new(Vec2i::new(1_000, 2_000), Vec2i::new(0, -500), 1_000_000, 0);
    // Inside the band nothing moves.
    assert_eq!(c.follow_target(Vec2i::new(100, -100)), Vec2i { x: 1_000, y: 2_000 });
    // Past the right edge the target follows by the overshoot.
    assert_eq!(c.follow_target(Vec2i::new(450, -100)), Vec2i { x: 1_050, y: 2_000 });
    // Past the bottom edge, measured from the offset.
    assert_eq!(c.follow_target(Vec2i::new(0, -450)), Vec2i { x: 1_000, y: 1_950 });
}

#[test]
fn zoom_follows_speed() {
    // At rest and under the threshold: the base zoom.
    assert_eq!(follow_zoom(0, 1_000), 2_000);
    assert_eq!(follow_zoom(999, 1_000), 2_000);
    // Fast: inverse to speed and screen width.
    assert_eq!(follow_zoom(1_000_000, 1_000), 500);
    // Slow but above the threshold: capped at the base zoom.
    assert_eq!(follow_zoom(100_000, 1_000), 2_000);
}

#[test]
fn zoom_blending_and_nudging() {
    assert_eq!(blend_zoom(3_000, 2_000), 2_990);
    assert_eq!(nudged_zoom(3_000, true), 3_030);
    assert_eq!(nudged_zoom(3_000, false), 2_970);
    assert_eq!(nudged_zoom(99, true), 99);
}
