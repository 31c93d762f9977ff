use veyra::compositor::damage::{
    logical_geometry_from_buffer as g, sanitize_damage, Rect, SourceUv, ViewportSource,
};

fn rect(x: i32, y: i32, w: i32, h: i32) -> Rect {
    Rect { x, y, w, h }
}

fn source(loc: (f64, f64), size: (f64, f64)) -> Option<ViewportSource> {
    let fixed = |v: f64| (v * 256.0) as i32;
    Some(ViewportSource { x: fixed(loc.0), y: fixed(loc.1), w: fixed(size.0), h: fixed(size.1) })
}

fn texture(uv: SourceUv) -> [f32; 4] {
    let s = uv.source;
    [
        (s.x as f64 / uv.over_w as f64) as f32,
        (s.y as f64 / uv.over_h as f64) as f32,
        (s.w as f64 / uv.over_w as f64) as f32,
        (s.h as f64 / uv.over_h as f64) as f32,
    ]
}

#[test]
fn no_last_size_means_full_upload() {
    let d = vec![rect(0, 0, 100, 100)];
    assert!(sanitize_damage(&d, None).is_empty());
}

#[test]
fn damage_within_buffer_is_kept() {
    let d = vec![rect(10, 10, 100, 50)];
    let out = sanitize_damage(&d, Some((696, 432)));
    assert_eq!(out.len(), 1);
    assert_eq!(out[0].w, 100);
    assert_eq!(out[0].h, 50);
}

#[test]
fn oversized_damage_is_clamped() {
    // Client raced its resize: 1280-wide damage against a 696-wide buffer
    let d = vec![rect(0, 0, 1280, 768)];
    let out = sanitize_damage(&d, Some((696, 432)));
    assert_eq!(out.len(), 1);
    assert_eq!(out[0].w, 696);
    assert_eq!(out[0].h, 432);
}

#[test]
fn negative_offset_damage_clamps_origin() {
    let d = vec![rect(-4, -8, 100, 100)];
    let out = sanitize_damage(&d, Some((696, 432)));
    assert_eq!(out.len(), 1);
    assert_eq!(out[0].x, 0);
    assert_eq!(out[0].y, 0);
    assert_eq!(out[0].w, 96);
    assert_eq!(out[0].h, 92);
}

#[test]
fn fully_outside_damage_is_dropped() {
    // x beyond width; y beyond height — both no-overlap rects vanish
    let d = vec![rect(700, 0, 100, 100), rect(0, 500, 696, 464)];
    let out = sanitize_damage(&d, Some((696, 432)));
    assert!(out.is_empty());
}

#[test]
fn partially_overlapping_damage_is_clamped() {
    // Real-world case: xoffset 1 + width 1278 > 696
    let d = vec![rect(1, 0, 1278, 432)];
    let out = sanitize_damage(&d, Some((696, 432)));
    assert_eq!(out.len(), 1);
    assert_eq!(out[0].x, 1);
    assert_eq!(out[0].w, 695);
}

#[test]
fn empty_damage_rects_are_dropped() {
    // Real-world case: yoffset 464 + height 0 > 432 GL spam
    let d = vec![rect(0, 464, 0, 0), rect(1, 1, 10, 10)];
    let out = sanitize_damage(&d, Some((696, 432)));
    assert_eq!(out.len(), 1);
    assert_eq!(out[0].w, 10);
}

#[test]
fn all_invalid_damage_degenerates_to_full_upload() {
    let d = vec![rect(700, 0, 100, 100)];
    assert!(sanitize_damage(&d, Some((696, 432))).is_empty());
}

#[test]
fn damage_far_corner_saturates() {
    let d = vec![rect(i32::MAX - 10, 0, i32::MAX, 5)];
    let out = sanitize_damage(&d, Some((i32::MAX, 10)));
    assert_eq!(out, vec![rect(i32::MAX - 10, 0, 10, 5)]);
}

#[test]
fn scale1_buffer_is_identity() {
    let (size, src) = g((800, 600), 1, None, None);
    assert_eq!(size, (800, 600));
    assert_eq!(src, None);
}

#[test]
fn buffer_scale_2_halves_logical_size() {
    let (size, src) = g((1600, 1200), 2, None, None);
    assert_eq!(size, (800, 600));
    assert_eq!(src, None);
}

#[test]
fn zero_scale_treated_as_one() {
    let (size, _) = g((800, 600), 0, None, None);
    assert_eq!(size, (800, 600));
}

#[test]
fn viewport_dst_wins_over_buffer_scale() {
    let (size, _) = g((1600, 1200), 2, Some((640, 480)), None);
    assert_eq!(size, (640, 480));
}

#[test]
fn viewport_src_size_used_when_no_dst() {
    let src = source((10.0, 20.0), (320.0, 240.0));
    let (size, uv) = g((640, 480), 1, None, src);
    assert_eq!(size, (320, 240));
    let uv = texture(uv.expect("src rect produces normalized uv"));
    assert_eq!(uv, [10.0 / 640.0, 20.0 / 480.0, 0.5, 0.5]);
}

#[test]
fn viewport_dst_and_src_both_set_uses_dst_with_src_uv() {
    let src = source((0.0, 0.0), (100.0, 50.0));
    let (size, uv) = g((1000, 500), 1, Some((200, 100)), src);
    assert_eq!(size, (200, 100));
    let uv = texture(uv.expect("src rect still crops the texture"));
    assert_eq!(uv, [0.0, 0.0, 0.1, 0.1]);
}

#[test]
fn no_viewport_has_identity_uv() {
    let (_, src) = g((800, 600), 1, None, None);
    assert!(src.is_none(), "no viewport means identity (None) uv rect");
}

#[test]
fn half_pixel_sources_round_away_from_zero() {
    let (size, _) = g((640, 480), 1, None, source((0.0, 0.0), (10.5, 9.25)));
    assert_eq!(size, (11, 9));
}
