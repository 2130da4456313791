use pixpipe::Color;

#[test]
fn new_keeps_the_channels() {
    let color = Color::new(1, 2, 3, 4);
    assert_eq!(color.r, 1);
    assert_eq!(color.g, 2);
    assert_eq!(color.b, 3);
    assert_eq!(color.a, 4);
    let extreme = Color::new(255, 0, 255, 0);
    assert_eq!((extreme.r, extreme.g, extreme.b, extreme.a), (255, 0, 255, 0));
}

#[test]
fn default_is_opaque_black() {
    let color = Color::default();
    assert_eq!((color.r, color.g, color.b, color.a), (0, 0, 0, 255));
    assert_eq!(color, Color::black());
}

#[test]
fn colors_are_copied() {
    let first = Color::new(9, 8, 7, 6);
    let second = first;
    let third = first.clone();
    assert_eq!(first, second);
    assert_eq!(first, third);
    assert_ne!(first, Color::new(9, 8, 7, 5));
}

#[test]
fn dark_half_of_the_palette() {
    assert_eq!(Color::black(), Color::new(0, 0, 0, 255));
    assert_eq!(Color::blue(), Color::new(0, 0, 170, 255));
    assert_eq!(Color::green(), Color::new(0, 170, 0, 255));
    assert_eq!(Color::cyan(), Color::new(0, 170, 170, 255));
    assert_eq!(Color::red(), Color::new(170, 0, 0, 255));
    assert_eq!(Color::magenta(), Color::new(170, 0, 170, 255));
    assert_eq!(Color::yellow(), Color::new(170, 85, 0, 255));
    assert_eq!(Color::white(), Color::new(170, 170, 170, 255));
}

#[test]
fn bright_half_of_the_palette() {
    assert_eq!(Color::dark_gray(), Color::new(85, 85, 85, 255));
    assert_eq!(Color::bright_blue(), Color::new(85, 85, 255, 255));
    assert_eq!(Color::bright_green(), Color::new(85, 255, 85, 255));
    assert_eq!(Color::bright_cyan(), Color::new(85, 255, 255, 255));
    assert_eq!(Color::bright_red(), Color::new(255, 85, 85, 255));
    assert_eq!(Color::bright_magenta(), Color::new(255, 85, 255, 255));
    assert_eq!(Color::bright_yellow(), Color::new(255, 255, 85, 255));
    assert_eq!(Color::bright_white(), Color::new(255, 255, 255, 255));
}
