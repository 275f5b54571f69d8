use ray_tracing::color::RGB;
use ray_tracing::texture::Texture;
use ray_tracing::viewport::ViewportAngles;

#[test]
fn texture_lookup_is_row_major() {
    // A 3 x 2 bitmap: one recognizable color per pixel, rows stored one
    // after the other.
    let grid: Vec<RGB> = vec![
        RGB::new(10, 0, 0),
        RGB::new(20, 0, 0),
        RGB::new(30, 0, 0),
        RGB::new(40, 0, 0),
        RGB::new(50, 0, 0),
        RGB::new(60, 0, 0),
    ];
    let t = Texture::new(grid, 3, 2);
    assert_eq!(t.get_width(), 3);
    assert_eq!(t.get_height(), 2);
    assert_eq!(t.get_color(0, 0), RGB::new(10, 0, 0));
    assert_eq!(t.get_color(2, 0), RGB::new(30, 0, 0));
    assert_eq!(t.get_color(0, 1), RGB::new(40, 0, 0));
    assert_eq!(t.get_color(2, 1), RGB::new(60, 0, 0));
}

#[test]
fn texture_single_pixel() {
    let t = Texture::new(vec![RGB::new(9, 9, 9)], 1, 1);
    assert_eq!(t.get_color(0, 0), RGB::new(9, 9, 9));
}

#[test]
fn decode_round_trips_an_encoded_bitmap() {
    // encode a small recognizable bitmap as PNG, then decode it through
    // the library and read every pixel back
    let img: image::ImageBuffer<image::Rgb<u8>, Vec<u8>> =
        image::ImageBuffer::from_fn(3, 2, |x, y| {
            image::Rgb([(10 * (x + 1)) as u8, (100 + y) as u8, 7])
        });
    let mut bytes: Vec<u8> = Vec::new();
    img.write_to(
        &mut std::io::Cursor::new(&mut bytes),
        image::ImageFormat::Png,
    )
    .unwrap();

    let t = Texture::decode(&bytes).expect("a PNG this test just wrote must decode");
    assert_eq!(t.get_width(), 3);
    assert_eq!(t.get_height(), 2);
    for y in 0..2u32 {
        for x in 0..3u32 {
            assert_eq!(
                t.get_color(x, y),
                RGB::new((10 * (x + 1)) as u8, (100 + y) as u8, 7)
            );
        }
    }
}

#[test]
fn decode_of_arbitrary_bytes_is_none() {
    assert!(Texture::decode(&vec![1, 2, 3, 4]).is_none());
    assert!(Texture::decode(&Vec::new()).is_none());
}

#[test]
fn viewport_angles_are_distinct() {
    let corners = [
        ViewportAngles::UpperLeft,
        ViewportAngles::UpperRight,
        ViewportAngles::LowerLeft,
        ViewportAngles::LowerRight,
    ];
    for (i, a) in corners.iter().enumerate() {
        for (j, b) in corners.iter().enumerate() {
            assert_eq!(i == j, a == b);
        }
    }
}
