use perlin_noise::{Canvas, Color};

#[test]
fn color_constructors() {
    assert_eq!(Color::new(1, 2, 3), Color { r: 1, g: 2, b: 3, a: 255 });
    assert_eq!(Color::new_rgba(1, 2, 3, 4), Color { r: 1, g: 2, b: 3, a: 4 });
    assert_eq!(Color::black(), Color { r: 0, g: 0, b: 0, a: 255 });
}

#[test]
fn new_canvas_is_zeroed() {
    let c = Canvas::new(3, 2, "grid");
    assert_eq!(c.name(), "grid");
    assert_eq!(c.width(), 3);
    assert_eq!(c.height(), 2);
    assert_eq!(c.data().len(), 24);
    assert!(c.data().iter().all(|b| *b == 0));
}

#[test]
fn pixel_writes_four_bytes() {
    let mut c = Canvas::new(3, 2, "grid");
    c.pixel(2, 1, Color::new_rgba(9, 8, 7, 6));
    let i = (2 + 1 * 3) * 4;
    assert_eq!(&c.data()[i..i + 4], &[9, 8, 7, 6]);
    assert_eq!(c.data().iter().filter(|b| **b != 0).count(), 4);
}

#[test]
fn pixel_outside_is_ignored() {
    let mut c = Canvas::new(3, 2, "grid");
    c.pixel(0, 2, Color::black());
    c.pixel(-1, 0, Color::black());
    c.pixel(0, -1, Color::black());
    c.pixel(i32::MAX, i32::MAX, Color::black());
    c.pixel(i32::MIN, i32::MIN, Color::black());
    assert!(c.data().iter().all(|b| *b == 0));
}

#[test]
fn pixel_past_the_row_end_wraps_to_the_next_row() {
    let mut c = Canvas::new(3, 2, "grid");
    c.pixel(3, 0, Color::new(1, 1, 1));
    assert_eq!(&c.data()[12..16], &[1, 1, 1, 255]);
}

#[test]
fn background_fills_every_pixel() {
    let mut c = Canvas::new(4, 4, "bg");
    c.pixel(1, 1, Color::black());
    c.background(Color::new(120, 121, 122));
    for px in c.data().chunks(4) {
        assert_eq!(px, &[120, 121, 122, 255]);
    }
}
