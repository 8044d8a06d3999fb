use mat2image::custom_pix::bgr_to_luma;
use mat2image::Bgr;

#[test]
fn luma_of_pure_red() {
    let p = Bgr([0, 0, 255]);
    assert_eq!(bgr_to_luma(&p), 54);
    assert_eq!(p.to_luma(), [54]);
    assert_eq!(p.to_luma_alpha(), [54, 255]);
}

#[test]
fn luma_weights() {
    assert_eq!(bgr_to_luma(&Bgr([0, 255, 0])), 182);
    assert_eq!(bgr_to_luma(&Bgr([255, 0, 0])), 18);
    assert_eq!(bgr_to_luma(&Bgr([255, 255, 255])), 255);
    assert_eq!(bgr_to_luma(&Bgr([0, 0, 0])), 0);
    assert_eq!(bgr_to_luma(&Bgr([30, 20, 10])), 18);
}

#[test]
fn invert_twice_is_identity() {
    let orig = Bgr([0, 77, 255]);
    let mut p = orig;
    p.invert();
    assert_eq!(p.0, [255, 178, 0]);
    p.invert();
    assert_eq!(p.0, orig.0);
}

#[test]
fn reorders_to_rgb_and_rgba() {
    let p = Bgr([10, 20, 30]);
    assert_eq!(p.to_rgb(), [30, 20, 10]);
    assert_eq!(p.to_rgba(), [30, 20, 10, 255]);
    assert_eq!(p.channels4(), (10, 20, 30, 255));
    assert_eq!(p.channels(), &[10, 20, 30]);
    assert_eq!(Bgr::CHANNEL_COUNT, 3);
    assert_eq!(Bgr::COLOR_MODEL, "BGR");
}

#[test]
fn builds_from_channels_and_slices() {
    assert_eq!(Bgr::from_channels(1, 2, 3, 4).0, [1, 2, 3]);
    assert_eq!(Bgr::from_slice(&[7, 8, 9]).0, [7, 8, 9]);
}

#[test]
fn channels_mut_writes_through() {
    let mut p = Bgr([1, 2, 3]);
    p.channels_mut()[1] = 99;
    assert_eq!(p.0, [1, 99, 3]);
}

#[test]
fn map_and_apply_each_channel() {
    let p = Bgr([1, 2, 3]);
    assert_eq!(p.map(|v| v.wrapping_mul(10)).0, [10, 20, 30]);
    let mut q = p;
    q.apply(|v| v + 100);
    assert_eq!(q.0, [101, 102, 103]);
    assert_eq!(p.map_with_alpha(|v| v + 1, |_| 0).0, [2, 3, 4]);
    let mut r = p;
    r.apply_with_alpha(|v| v * 2, |_| 0);
    assert_eq!(r.0, [2, 4, 6]);
}

#[test]
fn map2_and_apply2_pair_channels() {
    let a = Bgr([1, 2, 3]);
    let b = Bgr([10, 20, 30]);
    assert_eq!(a.map2(&b, |x, y| y - x).0, [9, 18, 27]);
    let mut c = a;
    c.apply2(&b, |x, y| x.max(y));
    assert_eq!(c.0, [10, 20, 30]);
}

#[test]
fn blend_replaces() {
    let mut a = Bgr([1, 2, 3]);
    a.blend(&Bgr([4, 5, 6]));
    assert_eq!(a.0, [4, 5, 6]);
}
