use ray_tracer::hit::{pick_root, NearestHit};
use ray_tracer::interval::{clamp, Range};
use ray_tracer::ppm::{encode_channel, pixel_line, ppm_header, ppm_image, push_decimal};

#[test]
fn clamp_keeps_inner_value() {
    assert_eq!(clamp(5i64, 0, 10), 5);
    assert_eq!(clamp(0.25f32, 0.0, 1.0), 0.25);
}

#[test]
fn clamp_limits_outer_values() {
    assert_eq!(clamp(-3i64, 0, 10), 0);
    assert_eq!(clamp(11i64, 0, 10), 10);
    assert_eq!(clamp(1.5f32, 0.0, 1.0), 1.0);
    assert_eq!(clamp(-0.5f64, 0.0, 1.0), 0.0);
}

#[test]
fn clamp_at_endpoints() {
    assert_eq!(clamp(0i64, 0, 10), 0);
    assert_eq!(clamp(10i64, 0, 10), 10);
}

#[test]
fn range_endpoints_closed_and_open() {
    let r = Range::from(1.0f32, 2.0);
    assert!(!r.surrounds(1.0));
    assert!(r.contains(1.0));
    assert!(!r.surrounds(2.0));
    assert!(r.contains(2.0));
    assert!(r.surrounds(1.5));
    assert!(r.contains(1.5));
    assert!(!r.contains(2.5));
    assert!(!r.surrounds(0.5));
}

#[test]
fn range_on_integers() {
    let r = Range::from(1i64, 2);
    assert_eq!(r.min, 1);
    assert_eq!(r.max, 2);
    assert!(!r.surrounds(1));
    assert!(r.contains(1));
    assert!(!r.surrounds(2));
    assert!(r.contains(2));
}

#[test]
fn reversed_range_holds_nothing() {
    let r = Range::from(f32::INFINITY, f32::NEG_INFINITY);
    assert!(!r.contains(0.0));
    assert!(!r.surrounds(0.0));
    assert!(!r.contains(f32::INFINITY));
}

#[test]
fn range_rejects_nan() {
    let r = Range::from(0.0f32, 1.0);
    assert!(!r.contains(f32::NAN));
    assert!(!r.surrounds(f32::NAN));
}

#[test]
fn pick_root_prefers_near() {
    let r = Range::from(0.0f32, f32::INFINITY);
    assert_eq!(pick_root(&r, 0.5, 1.5), Some(0.5));
}

#[test]
fn pick_root_falls_back_to_far() {
    let r = Range::from(0.0f32, f32::INFINITY);
    assert_eq!(pick_root(&r, -0.5, 0.5), Some(0.5));
    let r = Range::from(0i64, 10);
    assert_eq!(pick_root(&r, 0, 4), Some(4));
}

#[test]
fn pick_root_none_outside() {
    let r = Range::from(0.0f32, 1.0);
    assert_eq!(pick_root(&r, -2.0, -1.0), None);
    assert_eq!(pick_root(&r, 1.0, 3.0), None);
    assert_eq!(pick_root(&r, -1.0, 1.0), None);
}

#[test]
fn scan_keeps_the_nearer_of_two_hits() {
    let ray_t = Range::from(0.0f32, f32::INFINITY);
    let mut scan: NearestHit<f32, &str> = NearestHit::start(&ray_t);
    assert_eq!(scan.bound, f32::INFINITY);
    scan = scan.offer("far sphere", 1.5);
    let w = scan.window(ray_t.min);
    assert_eq!(w.min, 0.0);
    assert_eq!(w.max, 1.5);
    scan = scan.offer("near sphere", 0.5);
    assert_eq!(scan.bound, 0.5);
    assert_eq!(scan.finish(), Some("near sphere"));
}

#[test]
fn scan_ignores_a_farther_hit() {
    let ray_t = Range::from(0.0f32, f32::INFINITY);
    let scan: NearestHit<f32, u32> = NearestHit::start(&ray_t);
    let scan = scan.offer(1, 0.5).offer(2, 1.5);
    assert_eq!(scan.bound, 0.5);
    assert_eq!(scan.finish(), Some(1));
}

#[test]
fn scan_first_of_equal_hits_wins() {
    let ray_t = Range::from(0i64, 100);
    let scan: NearestHit<i64, u32> = NearestHit::start(&ray_t);
    let scan = scan.offer(1, 7).offer(2, 7);
    assert_eq!(scan.finish(), Some(1));
}

#[test]
fn scan_of_empty_scene_finds_nothing() {
    let ray_t = Range::from(0.0f32, f32::INFINITY);
    let scan: NearestHit<f32, u32> = NearestHit::start(&ray_t);
    assert_eq!(scan.finish(), None);
}

#[test]
fn decimal_digits() {
    let mut out = Vec::new();
    push_decimal(&mut out, 0);
    assert_eq!(out, b"0".to_vec());
    let mut out = b"x".to_vec();
    push_decimal(&mut out, 4294967295);
    assert_eq!(out, b"x4294967295".to_vec());
    let mut out = Vec::new();
    push_decimal(&mut out, 100);
    assert_eq!(out, b"100".to_vec());
}

#[test]
fn header_format() {
    assert_eq!(ppm_header(800, 450), b"P3\n800 450\n255\n".to_vec());
    assert_eq!(ppm_header(2, 2), b"P3\n2 2\n255\n".to_vec());
}

#[test]
fn pixel_line_format() {
    assert_eq!(pixel_line(0, 128, 255), b"0 128 255\n".to_vec());
    assert_eq!(pixel_line(7, 7, 7), b"7 7 7\n".to_vec());
}

#[test]
fn image_rows_in_order() {
    let pixels = vec![(255, 255, 255), (0, 0, 0), (1, 2, 3), (128, 179, 255)];
    let text = ppm_image(2, 2, &pixels);
    assert_eq!(
        String::from_utf8(text).unwrap(),
        "P3\n2 2\n255\n255 255 255\n0 0 0\n1 2 3\n128 179 255\n"
    );
}

#[test]
fn image_without_pixels() {
    let text = ppm_image(0, 3, &Vec::new());
    assert_eq!(text, b"P3\n0 3\n255\n".to_vec());
}

#[test]
fn channel_encoding_clamps() {
    assert_eq!(encode_channel(-1), 0);
    assert_eq!(encode_channel(i64::MIN), 0);
    assert_eq!(encode_channel(0), 0);
    assert_eq!(encode_channel(128), 128);
    assert_eq!(encode_channel(255), 255);
    assert_eq!(encode_channel(256), 255);
    assert_eq!(encode_channel(i64::MAX), 255);
}
