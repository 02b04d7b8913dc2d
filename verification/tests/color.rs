use simulation_engine::{Color, ColorMode, Pixel};

#[test]
fn constructors_order_their_channels() {
    let expected = Color { r: 1, g: 2, b: 3, a: 4, mode: ColorMode::RGB };
    assert_eq!(Color::rgba(1, 2, 3, 4), expected);
    assert_eq!(Color::argb(4, 1, 2, 3), expected);
    assert_eq!(Color::abgr(4, 3, 2, 1), expected);
    let opaque = Color { r: 1, g: 2, b: 3, a: 0xff, mode: ColorMode::RGB };
    assert_eq!(Color::rgb(1, 2, 3), opaque);
    assert_eq!(Color::bgr(3, 2, 1), opaque);
}

#[test]
fn named_colours() {
    assert_eq!(Color::black(), Color::rgb(0, 0, 0));
    assert_eq!(Color::white(), Color::rgb(0xff, 0xff, 0xff));
    assert_eq!(Color::red(), Color::rgb(0xff, 0, 0));
    assert_eq!(Color::green(), Color::rgb(0, 0xff, 0));
    assert_eq!(Color::blue(), Color::rgb(0, 0, 0xff));
    assert_eq!(Color::orange(), Color::rgb(0xff, 0xa5, 0));
    assert_eq!(Color::pink(), Color::rgb(0xff, 0xc0, 0xcb));
    assert_eq!(Color::cyan(), Color::rgb(0, 0xff, 0xff));
    assert_eq!(Color::purple(), Color::rgb(0x80, 0, 0x80));
    assert_eq!(Color::grey(), Color::rgb(0x80, 0x80, 0x80));
    assert_eq!(Color::gray(), Color::grey());
    assert_eq!(Color::transparent(), Color::rgba(0, 0, 0, 0));
    assert_eq!(Color::default(), Color::rgba(0, 0, 0, 0));
}

#[test]
fn pixel_packs_the_channels_in_the_order_of_the_mode() {
    let c = Color::rgba(0x12, 0x34, 0x56, 0x78);
    assert_eq!(c.to_u32(), 0x0012_3456);
    assert_eq!(c.to_bgr().to_u32(), 0x0056_3412);
    assert_eq!(c.to_bgr().to_rgb().to_u32(), 0x0012_3456);
    assert_eq!(Color::white().to_u32(), 0x00ff_ffff);
    assert_eq!(Color::black().to_u32(), 0);
    assert_eq!(Color::orange().to_u32(), 0x00ff_a500);
}

#[test]
fn mode_changes_in_place() {
    let mut c = Color::rgb(1, 2, 3);
    c.as_bgr();
    assert_eq!(c, Color { r: 1, g: 2, b: 3, a: 0xff, mode: ColorMode::BGR });
    assert_eq!(c.to_u32(), 0x0003_0201);
    c.as_bgr().as_rgb();
    assert_eq!(c, Color::rgb(1, 2, 3));
    assert_eq!(c.to_bgr(), Color { r: 1, g: 2, b: 3, a: 0xff, mode: ColorMode::BGR });
}

#[test]
fn blending_saturates_every_channel() {
    let full = Color::rgba(0xff, 0xff, 0xff, 0xff);
    let a = Color::rgba(10, 20, 30, 40);
    let b = Color::rgba(200, 250, 5, 255);
    assert_eq!(a.blend_add(b), full);
    assert_eq!(a.blend_sub(b), full);
    assert_eq!(b.blend_sub(a), full);
    assert_eq!(a + b, full);
    assert_eq!(a - b, full);
    assert_eq!(Color::black().blend_add(Color::black()), full);
    let bgr = a.to_bgr();
    assert_eq!(bgr.blend_add(b), full.to_bgr());
    assert_eq!(bgr + b, full.to_bgr());
}

#[test]
fn default_pixel_is_transparent_black_at_the_top_left() {
    assert_eq!(Pixel::default(), Pixel { color: Color::rgba(0, 0, 0, 0), x: 0, y: 0 });
}

#[test]
fn colour_converts_into_its_pixel() {
    let pixel: u32 = Color::rgb(0x12, 0x34, 0x56).into();
    assert_eq!(pixel, 0x0012_3456);
    assert_eq!(u32::from(Color::rgb(0x12, 0x34, 0x56).to_bgr()), 0x0056_3412);
}
