use ray_tracer::ppm::{encode_image, pixel_line, ppm_header};

#[test]
fn header_names_format_size_and_range() {
    assert_eq!(ppm_header(600, 337), b"P3\n600 337\n255\n".to_vec());
}

#[test]
fn header_of_single_pixel_image() {
    assert_eq!(ppm_header(1, 1), b"P3\n1 1\n255\n".to_vec());
}

#[test]
fn header_of_largest_size() {
    assert_eq!(
        ppm_header(u32::MAX, 0),
        b"P3\n4294967295 0\n255\n".to_vec()
    );
}

#[test]
fn pixel_line_has_three_decimal_channels() {
    assert_eq!(pixel_line(255, 0, 17), b"255 0 17\n".to_vec());
    assert_eq!(pixel_line(0, 0, 0), b"0 0 0\n".to_vec());
    assert_eq!(pixel_line(9, 10, 100), b"9 10 100\n".to_vec());
}

#[test]
fn image_is_header_then_lines_in_order() {
    let pixels = vec![(1, 2, 3), (40, 50, 60), (255, 128, 0), (7, 8, 9)];
    let bytes = encode_image(2, 2, &pixels).unwrap();
    assert_eq!(
        bytes,
        b"P3\n2 2\n255\n1 2 3\n40 50 60\n255 128 0\n7 8 9\n".to_vec()
    );
}

#[test]
fn image_with_wrong_pixel_count_is_refused() {
    let pixels = vec![(1, 2, 3), (4, 5, 6), (7, 8, 9)];
    assert_eq!(encode_image(2, 2, &pixels), None);
    assert_eq!(encode_image(1, 1, &Vec::new()), None);
}

#[test]
fn empty_image_is_header_alone() {
    assert_eq!(
        encode_image(0, 5, &Vec::new()),
        Some(b"P3\n0 5\n255\n".to_vec())
    );
}
