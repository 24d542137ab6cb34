use raytracer::ppm::{encode_image, header, push_decimal, push_pixel, Pixel};

fn text(b: Vec<u8>) -> String {
    String::from_utf8(b).unwrap()
}

fn pixel_line(p: Pixel) -> Vec<u8> {
    let mut out = Vec::new();
    push_pixel(&mut out, p);
    out
}

#[test]
fn decimal_numerals() {
    for (n, s) in [(0u32, "0"), (7, "7"), (10, "10"), (255, "255"), (400, "400"), (u32::MAX, "4294967295")] {
        let mut out = b"x".to_vec();
        push_decimal(&mut out, n);
        assert_eq!(text(out), format!("x{}", s));
    }
}

#[test]
fn header_of_image() {
    assert_eq!(text(header(400, 225)), "P3\n400 225\n255\n");
    assert_eq!(text(header(1, 1)), "P3\n1 1\n255\n");
}

#[test]
fn pixel_appended_after_existing_text() {
    let mut out = b"P3\n1 1\n255\n".to_vec();
    push_pixel(&mut out, Pixel { r: 1, g: 20, b: 200 });
    assert_eq!(text(out), "P3\n1 1\n255\n1 20 200\n");
}

#[test]
fn pixel_lines() {
    assert_eq!(text(pixel_line(Pixel { r: 128, g: 179, b: 255 })), "128 179 255\n");
    assert_eq!(text(pixel_line(Pixel { r: 0, g: 0, b: 0 })), "0 0 0\n");
    assert_eq!(text(pixel_line(Pixel { r: 255, g: 255, b: 255 })), "255 255 255\n");
}

#[test]
fn image_in_scan_order() {
    let px = vec![
        Pixel { r: 255, g: 0, b: 0 },
        Pixel { r: 0, g: 255, b: 0 },
        Pixel { r: 0, g: 0, b: 255 },
        Pixel { r: 9, g: 10, b: 99 },
    ];
    let out = encode_image(2, 2, &px).unwrap();
    assert_eq!(text(out), "P3\n2 2\n255\n255 0 0\n0 255 0\n0 0 255\n9 10 99\n");
}

#[test]
fn image_with_wrong_pixel_count_is_refused() {
    let px = vec![Pixel { r: 1, g: 2, b: 3 }; 3];
    assert_eq!(encode_image(2, 2, &px), None);
    assert_eq!(encode_image(0, 5, &vec![]), Some(b"P3\n0 5\n255\n".to_vec()));
}
