use pixpipe::{Color, PixBuf};

fn all_pixels_are(buf: &PixBuf, color: Color) -> bool {
    buf.as_slice().iter().all(|pixel| *pixel == color)
}

#[test]
fn new_buffer_is_opaque_black() {
    let buf = PixBuf::with_dimensions(4, 3);
    assert_eq!(buf.width(), 4);
    assert_eq!(buf.height(), 3);
    assert_eq!(buf.as_slice().len(), 12);
    assert!(all_pixels_are(&buf, Color::new(0, 0, 0, 255)));
    assert_eq!(buf.as_raw_slice(), &[0, 0, 0, 255].repeat(12)[..]);
}

#[test]
fn buffer_without_pixels() {
    let mut buf = PixBuf::with_dimensions(0, 5);
    assert_eq!(buf.width(), 0);
    assert_eq!(buf.height(), 5);
    assert!(buf.as_slice().is_empty());
    assert!(buf.as_raw_slice().is_empty());
    buf.set(0, 0, Color::red());
    buf.fill(Color::blue());
    assert!(buf.as_slice().is_empty());
    assert!(buf.as_raw_slice().is_empty());
}

#[test]
fn fixed_dimensions_survive_painting() {
    let mut buf = PixBuf::with_dimensions(7, 2);
    buf.fill(Color::cyan());
    buf.set(6, 1, Color::red());
    buf.set(9, 9, Color::red());
    assert_eq!(buf.width(), 7);
    assert_eq!(buf.height(), 2);
    assert_eq!(buf.as_slice().len(), 14);
    assert_eq!(buf.as_raw_slice().len(), 56);
}

#[test]
fn set_then_read_back() {
    let mut buf = PixBuf::with_dimensions(5, 4);
    buf.fill(Color::dark_gray());
    let before: Vec<Color> = buf.as_slice().to_vec();
    buf.set(3, 2, Color::bright_magenta());
    let after = buf.as_slice();
    assert_eq!(after[2 * 5 + 3], Color::bright_magenta());
    for at in 0..20 {
        if at != 2 * 5 + 3 {
            assert_eq!(after[at], before[at]);
        }
    }
}

#[test]
fn set_reaches_every_corner() {
    let mut buf = PixBuf::with_dimensions(3, 2);
    buf.set(0, 0, Color::red());
    buf.set(2, 0, Color::green());
    buf.set(0, 1, Color::blue());
    buf.set(2, 1, Color::white());
    let black = Color::black();
    assert_eq!(
        buf.as_slice(),
        &[Color::red(), black, Color::green(), Color::blue(), black, Color::white()][..]
    );
}

#[test]
fn set_below_the_last_row_changes_nothing() {
    let mut buf = PixBuf::with_dimensions(320, 200);
    buf.fill(Color::dark_gray());
    buf.set(0, 200, Color::red());
    buf.set(319, 200, Color::red());
    buf.set(5, 4_000_000, Color::red());
    assert!(all_pixels_are(&buf, Color::dark_gray()));
}

#[test]
fn set_beyond_the_last_pixel_changes_nothing() {
    let mut buf = PixBuf::with_dimensions(320, 200);
    buf.set(320, 199, Color::red());
    buf.set(64_000, 0, Color::red());
    buf.set(u32::MAX, 0, Color::red());
    buf.set(u32::MAX, u32::MAX, Color::red());
    assert!(all_pixels_are(&buf, Color::black()));
    assert_eq!(buf.as_raw_slice(), &[0, 0, 0, 255].repeat(64_000)[..]);
}

#[test]
fn set_past_the_last_column_changes_nothing() {
    let mut buf = PixBuf::with_dimensions(320, 200);
    buf.set(320, 0, Color::red());
    assert_eq!(buf.as_slice().len(), 64_000);
    assert!(all_pixels_are(&buf, Color::black()));
    assert_eq!(buf.as_slice()[320], Color::black());

    buf.fill(Color::dark_gray());
    buf.set(320, 0, Color::red());
    buf.set(321, 5, Color::red());
    buf.set(639, 198, Color::red());
    assert!(all_pixels_are(&buf, Color::dark_gray()));
    assert_eq!(buf.as_raw_slice(), &[85, 85, 85, 255].repeat(64_000)[..]);
}

#[test]
fn set_past_the_last_column_of_a_small_buffer() {
    let mut buf = PixBuf::with_dimensions(4, 3);
    buf.set(4, 0, Color::red());
    buf.set(7, 1, Color::red());
    assert!(all_pixels_are(&buf, Color::black()));
    buf.set(3, 0, Color::red());
    assert_eq!(buf.as_slice()[3], Color::red());
    assert_eq!(buf.as_slice()[4], Color::black());
}

#[test]
fn offsets_are_not_taken_modulo_two_to_the_thirty_two() {
    // 65536 * 65536 + 3 is 3 modulo 2^32.
    let mut buf = PixBuf::with_dimensions(65_536, 0);
    buf.set(3, 65_536, Color::red());
    assert!(buf.as_slice().is_empty());

    let mut buf = PixBuf::with_dimensions(4, 4);
    buf.set(3, 1 << 30, Color::red());
    buf.set(u32::MAX - 3, 1, Color::red());
    assert!(all_pixels_are(&buf, Color::black()));
}

#[test]
fn fill_reaches_every_pixel() {
    let mut buf = PixBuf::with_dimensions(6, 5);
    buf.set(1, 1, Color::yellow());
    buf.fill(Color::bright_cyan());
    assert_eq!(buf.as_slice().len(), 30);
    assert!(all_pixels_are(&buf, Color::bright_cyan()));
    assert_eq!(buf.as_raw_slice(), &[85, 255, 255, 255].repeat(30)[..]);
}

#[test]
fn raw_bytes_are_red_green_blue_alpha() {
    let mut buf = PixBuf::with_dimensions(2, 2);
    buf.set(0, 0, Color::new(1, 2, 3, 4));
    buf.set(1, 0, Color::new(5, 6, 7, 8));
    buf.set(0, 1, Color::new(9, 10, 11, 12));
    buf.set(1, 1, Color::new(13, 14, 15, 16));
    assert_eq!(
        buf.as_raw_slice(),
        &[1, 2, 3, 4, 5, 6, 7, 8, 9, 10, 11, 12, 13, 14, 15, 16][..]
    );
}

#[test]
fn raw_bytes_follow_the_pixels() {
    let mut buf = PixBuf::with_dimensions(9, 7);
    buf.fill(Color::magenta());
    buf.set(8, 6, Color::new(10, 20, 30, 40));
    buf.set(4, 3, Color::new(50, 60, 70, 80));
    let pixels = buf.as_slice();
    let bytes = buf.as_raw_slice();
    assert_eq!(bytes.len(), 9 * 7 * 4);
    for (at, pixel) in pixels.iter().enumerate() {
        assert_eq!(&bytes[4 * at..4 * at + 4], &[pixel.r, pixel.g, pixel.b, pixel.a][..]);
    }
    assert_eq!(&bytes[4 * 62..], &[10, 20, 30, 40][..]);
    assert_eq!(&bytes[4 * 31..4 * 32], &[50, 60, 70, 80][..]);
}

#[test]
fn last_write_wins() {
    let mut buf = PixBuf::with_dimensions(3, 3);
    buf.set(1, 1, Color::red());
    buf.set(1, 1, Color::green());
    buf.set(0, 2, Color::blue());
    assert_eq!(buf.as_slice()[4], Color::green());
    assert_eq!(buf.as_slice()[6], Color::blue());
    assert_eq!(buf.as_slice()[0], Color::black());

    buf.fill(Color::white());
    buf.set(2, 0, Color::yellow());
    let white = Color::white();
    assert_eq!(
        buf.as_slice(),
        &[white, white, Color::yellow(), white, white, white, white, white, white][..]
    );
}

#[test]
fn painted_scene() {
    let mut buf = PixBuf::with_dimensions(320, 200);
    buf.fill(Color::dark_gray());
    buf.set(10, 10, Color::red());
    buf.set(20, 30, Color::green());
    buf.set(30, 20, Color::blue());

    let bytes = buf.as_raw_slice();
    assert_eq!(bytes.len(), 256_000);
    let at = 4 * (10 * 320 + 10);
    assert_eq!(&bytes[at..at + 4], &[170, 0, 0, 255][..]);
    assert_eq!(&bytes[0..4], &[85, 85, 85, 255][..]);

    let pixels = buf.as_slice();
    assert_eq!(pixels.len(), 64_000);
    assert_eq!(pixels[10 * 320 + 10], Color::new(170, 0, 0, 255));
    assert_eq!(pixels[30 * 320 + 20], Color::new(0, 170, 0, 255));
    assert_eq!(pixels[20 * 320 + 30], Color::new(0, 0, 170, 255));
    assert_eq!(pixels[0], Color::new(85, 85, 85, 255));
    let painted = pixels.iter().filter(|pixel| **pixel != Color::dark_gray()).count();
    assert_eq!(painted, 3);
}
