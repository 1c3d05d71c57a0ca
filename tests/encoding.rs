use raytrace::ppm::{ppm_headers, ppm_pixel, push_decimal};

fn text(bytes: Vec<u8>) -> String {
    String::from_utf8(bytes).unwrap()
}

/// The plain-text PPM magic number, then `rest`.
fn after_magic(rest: &str) -> String {
    let mut expected = String::from("P");
    expected.push('3');
    expected.push('\n');
    expected.push_str(rest);
    expected
}

#[test]
fn header_names_format_size_and_maximum() {
    assert_eq!(text(ppm_headers(384, 216, 255)), after_magic("384 216\n255\n"));
}

#[test]
fn header_of_single_pixel_image() {
    assert_eq!(text(ppm_headers(1, 1, 1)), after_magic("1 1\n1\n"));
}

#[test]
fn pixel_line_separates_channels_by_spaces() {
    assert_eq!(text(ppm_pixel(255, 0, 17)), "255 0 17\n");
}

#[test]
fn pixel_line_of_black() {
    assert_eq!(text(ppm_pixel(0, 0, 0)), "0 0 0\n");
}

#[test]
fn decimal_matches_std_formatting_at_the_extremes() {
    for n in [0, 7, 9, 10, 99, 100, 1000, -1, -10, -2147483647, i32::MAX, i32::MIN] {
        let mut out = vec![b'x'];
        push_decimal(&mut out, n);
        assert_eq!(text(out), format!("x{}", n));
    }
}
