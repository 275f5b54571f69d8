use ray_tracing::canvas::Canvas;
use ray_tracing::color::RGB;
use ray_tracing::ppm::{ppm_encode, push_decimal, push_pixel_line};

#[test]
fn decimal_digits_of_small_and_large_numbers() {
    let cases: Vec<(u32, &str)> = vec![
        (0, "0"),
        (7, "7"),
        (10, "10"),
        (255, "255"),
        (1200, "1200"),
        (4294967295, "4294967295"),
    ];
    for (n, expected) in cases {
        let mut out: Vec<u8> = Vec::new();
        push_decimal(n, &mut out);
        assert_eq!(out, expected.as_bytes().to_vec());
    }
}

#[test]
fn pixel_line_has_spaces_and_newline() {
    let mut out: Vec<u8> = Vec::new();
    push_pixel_line(&RGB::new(0, 128, 255), &mut out);
    assert_eq!(out, b"0 128 255\n".to_vec());
}

#[test]
fn ppm_of_single_pixel_canvas() {
    let canvas = Canvas::new(1, 1, RGB::new(53, 81, 92));
    let out = ppm_encode(&canvas);
    assert_eq!(out, b"P3\n1 1\n255\n53 81 92\n".to_vec());
}

#[test]
fn ppm_lists_pixels_top_row_first() {
    let mut canvas = Canvas::new(2, 2, RGB::new(0, 0, 0));
    canvas.change_pixel_color(0, 0, RGB::new(255, 0, 0));
    canvas.change_pixel_color(1, 0, RGB::new(0, 255, 0));
    canvas.change_pixel_color(0, 1, RGB::new(0, 0, 255));
    let out = ppm_encode(&canvas);
    assert_eq!(
        out,
        b"P3\n2 2\n255\n255 0 0\n0 255 0\n0 0 255\n0 0 0\n".to_vec()
    );
}

#[test]
fn gradient_image_ppm() {
    // A classic first image: red grows along x, green along y, blue stays
    // zero; the color of each pixel is derived from its own coordinates.
    let mut image = Canvas::new(256, 256, RGB::new(255, 255, 255));
    for y in 0..image.get_height() {
        for x in 0..image.get_width() {
            let red = f64::from(x) / f64::from(image.get_width() - 1);
            let green = f64::from(y) / f64::from(image.get_height() - 1);
            image.change_pixel_color(
                x,
                y,
                RGB::new((255.0 * red).floor() as u8, (255.0 * green).floor() as u8, 0),
            );
        }
    }

    let out = String::from_utf8(ppm_encode(&image)).unwrap();
    let lines: Vec<&str> = out.lines().collect();
    assert_eq!(lines.len(), 3 + 256 * 256);
    assert_eq!(&lines[..3], &["P3", "256 256", "255"]);
    // the first pixel of the first row, the last of the first row, and the
    // last of the last row
    assert_eq!(lines[3], "0 0 0");
    assert_eq!(lines[3 + 255], "255 0 0");
    assert_eq!(lines[3 + 256 * 256 - 1], "255 255 0");
}

#[test]
fn ppm_header_carries_the_dimensions() {
    let canvas = Canvas::new(800, 400, RGB::new(1, 2, 3));
    let out = ppm_encode(&canvas);
    let text = String::from_utf8(out).unwrap();
    assert!(text.starts_with("P3\n800 400\n255\n"));
    assert_eq!(text.lines().count(), 3 + 800 * 400);
    assert!(text.lines().skip(3).all(|line| line == "1 2 3"));
}
