use fracgen::pixel_offset;

#[test]
fn corners_reflect_about_origin() {
    let (w, h) = (640u32, 640u32);
    let a = pixel_offset(0, 0, w, h);
    let b = pixel_offset(w, h, w, h);
    assert_eq!(a, (-640, -640));
    assert_eq!(b, (640, 640));
    assert_eq!(a.0, -b.0);
    assert_eq!(a.1, -b.1);
}

#[test]
fn offset_is_linear_in_pixel_index() {
    let (w, h) = (300u32, 200u32);
    for x in 0..10u32 {
        let p = pixel_offset(x, 7, w, h);
        let q = pixel_offset(x + 1, 7, w, h);
        assert_eq!(q.0 - p.0, 2);
        assert_eq!(q.1, p.1);
    }
    assert_eq!(pixel_offset(150, 100, w, h), (0, 0));
}

#[test]
fn offset_scaled_matches_plane_formula() {
    let (w, h, zoom) = (400u32, 300u32, 0.7f64);
    let (x, y) = (37u32, 211u32);
    let (ox, oy) = pixel_offset(x, y, w, h);
    let re = ox as f64 / (w as f64 * zoom);
    let im = oy as f64 / (w as f64 * zoom);
    let re_direct = (2.0 * (x as f64 / w as f64) - 1.0) / zoom;
    let im_direct = (2.0 * (y as f64 / h as f64) - 1.0) * (h as f64 / w as f64) / zoom;
    assert!((re - re_direct).abs() < 1e-12);
    assert!((im - im_direct).abs() < 1e-12);
}
