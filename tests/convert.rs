use mat2image::{Error, Mat, ToImage, CV_8UC3, STS_UNMATCHED_SIZES};

fn sample_bytes(w: usize, h: usize) -> Vec<u8> {
    (0..w * h * 3).map(|i| ((i * 37 + 11) % 256) as u8).collect()
}

fn rgb_of(bgr: &[u8]) -> Vec<u8> {
    bgr.chunks(3).flat_map(|p| [p[2], p[1], p[0]]).collect()
}

#[test]
fn serial_eq_par() {
    let data = sample_bytes(7, 5);
    let mat = Mat::new(CV_8UC3, 5, 7, &data);
    let im1 = mat.to_image().expect("Failed to serially convert");
    let im2 = mat.to_image_par().expect("Failed to parallelly convert");

    assert_eq!(im1.as_raw(), im2.as_raw())
}

#[test]
fn unchecked_eq_serial() {
    let data = sample_bytes(4, 9);
    let mat = Mat::new(CV_8UC3, 9, 4, &data);
    let im1 = mat.to_image().unwrap();
    let im3 = mat.to_image_unchecked().unwrap();
    assert_eq!(im1.as_raw(), im3.as_raw());
    assert_eq!(im3.width(), 4);
    assert_eq!(im3.height(), 9);
}

#[test]
fn one_pixel_channels_swapped() {
    let data = [10u8, 20, 30];
    let mat = Mat::new(CV_8UC3, 1, 1, &data);
    let im = mat.to_image().unwrap();
    assert_eq!(im.as_raw(), &vec![30u8, 20, 10]);
    let im = mat.to_image_par().unwrap();
    assert_eq!(im.as_raw(), &vec![30u8, 20, 10]);
}

#[test]
fn pixels_land_row_by_row() {
    // 3 wide, 2 high: pixel (x, y) has blue = 10 * y + x.
    let mut data = Vec::new();
    for y in 0..2u8 {
        for x in 0..3u8 {
            data.extend_from_slice(&[10 * y + x, 100 + x, 200 + y]);
        }
    }
    let mat = Mat::new(CV_8UC3, 2, 3, &data);
    let im = mat.to_image().unwrap();
    assert_eq!(im.width(), 3);
    assert_eq!(im.height(), 2);
    let raw = im.into_raw();
    assert_eq!(raw.len(), 18);
    for y in 0..2usize {
        for x in 0..3usize {
            let k = (y * 3 + x) * 3;
            assert_eq!(&raw[k..k + 3], &[200 + y as u8, 100 + x as u8, (10 * y + x) as u8]);
        }
    }
    assert_eq!(raw, rgb_of(&data));
}

#[test]
fn parallel_matches_reversal() {
    let data = sample_bytes(16, 11);
    let mat = Mat::new(CV_8UC3, 11, 16, &data);
    let im = mat.to_image_par().unwrap();
    assert_eq!(im.width(), 16);
    assert_eq!(im.height(), 11);
    assert_eq!(im.into_raw(), rgb_of(&data));
}

#[test]
fn zero_width_is_invalid() {
    let data = [1u8, 2, 3];
    let mat = Mat::new(CV_8UC3, 1, 0, &data);
    assert!(matches!(mat.to_image(), Err(Error::InvalidDimensions)));
    assert!(matches!(mat.to_image_par(), Err(Error::InvalidDimensions)));
    assert!(matches!(mat.as_image_buffer(), Err(Error::InvalidDimensions)));
}

#[test]
fn zero_height_is_invalid() {
    let data: [u8; 0] = [];
    let mat = Mat::new(CV_8UC3, 0, 4, &data);
    assert!(matches!(mat.to_image(), Err(Error::InvalidDimensions)));
    assert!(matches!(mat.to_image_par(), Err(Error::InvalidDimensions)));
    assert!(matches!(mat.as_image_buffer(), Err(Error::InvalidDimensions)));
}

#[test]
fn negative_size_is_invalid() {
    let data = [0u8; 12];
    let mat = Mat::new(CV_8UC3, -2, 2, &data);
    assert!(matches!(mat.to_image(), Err(Error::InvalidDimensions)));
    let mat = Mat::new(CV_8UC3, 2, -2, &data);
    assert!(matches!(mat.as_image_buffer(), Err(Error::InvalidDimensions)));
}

#[test]
fn other_element_types_unsupported() {
    let data = [0u8; 12];
    for typ in [0, 8, 17, 21, 24] {
        let mat = Mat::new(typ, 2, 2, &data);
        assert!(matches!(mat.to_image(), Err(Error::UnsupportedFormat)));
        assert!(matches!(mat.to_image_par(), Err(Error::UnsupportedFormat)));
        assert!(matches!(mat.as_image_buffer(), Err(Error::UnsupportedFormat)));
    }
}

#[test]
fn format_checked_before_dimensions() {
    let data: [u8; 0] = [];
    let mat = Mat::new(0, 0, 0, &data);
    assert!(matches!(mat.to_image(), Err(Error::UnsupportedFormat)));
}

#[test]
fn size_mismatch_in_view_is_container_error() {
    let short = [0u8; 9];
    let mat = Mat::new(CV_8UC3, 2, 2, &short);
    assert!(matches!(mat.as_image_buffer(), Err(Error::ContainerNotBigEnough)));
    let long = [0u8; 15];
    let mat = Mat::new(CV_8UC3, 2, 2, &long);
    assert!(matches!(mat.as_image_buffer(), Err(Error::ContainerNotBigEnough)));
}

#[test]
fn size_mismatch_in_copy_is_accessor_error() {
    let short = [0u8; 9];
    let mat = Mat::new(CV_8UC3, 2, 2, &short);
    match mat.to_image() {
        Err(Error::Cv(e)) => assert_eq!(e.code, STS_UNMATCHED_SIZES),
        other => panic!("unexpected result {:?}", other.map(|im| im.into_raw())),
    }
    let long = [0u8; 15];
    let mat = Mat::new(CV_8UC3, 2, 2, &long);
    match mat.to_image_par() {
        Err(Error::Cv(e)) => assert_eq!(e.code, STS_UNMATCHED_SIZES),
        other => panic!("unexpected result {:?}", other.map(|im| im.into_raw())),
    }
}

#[test]
fn accessor_checks_length() {
    let data = [0u8; 12];
    assert!(Mat::new(CV_8UC3, 2, 2, &data).data_bytes().is_ok());
    assert!(Mat::new(CV_8UC3, 2, 3, &data).data_bytes().is_err());
    assert!(Mat::new(CV_8UC3, -1, 2, &data).data_bytes().is_err());
}

#[test]
fn view_reads_in_place() {
    let data = sample_bytes(3, 2);
    let mat = Mat::new(CV_8UC3, 2, 3, &data);
    let view = mat.as_image_buffer().unwrap();
    assert_eq!(view.width(), 3);
    assert_eq!(view.height(), 2);
    assert_eq!(view.as_raw().as_ptr(), data.as_ptr());
    let p = view.get_pixel(2, 1);
    assert_eq!(p.0, [data[15], data[16], data[17]]);
}

#[test]
fn view_round_trips_with_copy() {
    let data = sample_bytes(6, 4);
    let mat = Mat::new(CV_8UC3, 4, 6, &data);
    let view = mat.as_image_buffer().unwrap();
    let im = mat.to_image().unwrap();
    let raw = im.as_raw();
    for y in 0..4u32 {
        for x in 0..6u32 {
            let k = ((y * 6 + x) * 3) as usize;
            assert_eq!(view.get_pixel(x, y).to_rgb(), [raw[k], raw[k + 1], raw[k + 2]]);
        }
    }
}

#[test]
fn view_from_raw_needs_exact_length() {
    let data = [0u8; 18];
    assert!(mat2image::BgrView::from_raw(3, 2, &data).is_some());
    assert!(mat2image::BgrView::from_raw(2, 2, &data).is_none());
    assert!(mat2image::BgrView::from_raw(4, 2, &data).is_none());
}
