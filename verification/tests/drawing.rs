use simulation_engine::drawing::slope_line;
use simulation_engine::{Color, DrawMode, Drawer, Pixel, PixelBufferDrawer, Real, Scalar};

#[derive(Copy, Clone, Debug, PartialEq)]
struct F(f32);

impl Scalar for F {
    fn zero() -> Self {
        F(0.0)
    }
    fn one() -> Self {
        F(1.0)
    }
    fn add(self, rhs: Self) -> Self {
        F(self.0 + rhs.0)
    }
    fn mul(self, rhs: Self) -> Self {
        F(self.0 * rhs.0)
    }
    fn neg(self) -> Self {
        F(-self.0)
    }
}

impl Real for F {
    fn from_i32(value: i32) -> Self {
        F(value as f32)
    }
    fn pi() -> Self {
        F(std::f32::consts::PI)
    }
    fn div(self, rhs: Self) -> Self {
        F(self.0 / rhs.0)
    }
    fn rem_euclid(self, rhs: Self) -> Self {
        F(self.0.rem_euclid(rhs.0))
    }
    fn sin(self) -> Self {
        F(self.0.sin())
    }
    fn cos(self) -> Self {
        F(self.0.cos())
    }
    fn ceil(self) -> Self {
        F(self.0.ceil())
    }
    fn floor(self) -> Self {
        F(self.0.floor())
    }
    fn lt(self, rhs: Self) -> bool {
        self.0 < rhs.0
    }
    fn same(self, rhs: Self) -> bool {
        self.0 == rhs.0
    }
    fn to_i32(self) -> i32 {
        self.0 as i32
    }
}


#[test]
fn pixel_buffer_collects_points_in_the_current_colour() {
    let mut drawer = PixelBufferDrawer::new(Color::white());
    assert_eq!(drawer.get_bg_color(), Color::white());
    assert_eq!(drawer.get_draw_color(), Color::black());
    drawer.draw_point((1, 2));
    drawer.set_draw_color(Color::red());
    drawer.draw_point((3, 4));
    drawer.draw_point((u32::MAX, 0x8000_0000));
    assert_eq!(
        drawer.contents(),
        &vec![
            Pixel { color: Color::black(), x: 1, y: 2 },
            Pixel { color: Color::red(), x: 3, y: 4 },
            Pixel { color: Color::red(), x: -1, y: i32::MIN },
        ]
    );
    drawer.set_bg_color(Color::blue());
    assert_eq!(drawer.get_bg_color(), Color::blue());
    drawer.clear();
    assert!(drawer.contents().is_empty());
    drawer.draw_point((0, 0));
    drawer.fill(Color::green());
    assert!(drawer.contents().is_empty());
    assert_eq!(drawer.get_bg_color(), Color::green());
    assert_eq!(drawer.get_draw_color(), Color::red());
}

#[test]
fn drawer_writes_background_and_points_as_blue_green_red() {
    let bg = Color::rgb(1, 2, 3);
    let mut drawer = Drawer::new(bg, Color::rgb(10, 20, 30), DrawMode::PIXELBUFFER, 2, 2);
    assert_eq!(drawer.get_mode(), DrawMode::PIXELBUFFER);
    drawer.draw_point((1, 0));
    drawer.set_draw_color(Color::rgb(40, 50, 60));
    drawer.draw_point((0, 1));
    drawer.draw_point((1, 0));
    drawer.draw_point((2, 0));
    drawer.draw_point((0, -1));
    drawer.draw_point((-1, 1));
    drawer.draw_point((1, 2));
    let mut surface = vec![0xaau8; 18];
    drawer.draw(&mut surface);
    assert_eq!(
        surface,
        vec![
            3, 2, 1, 0xaa, //
            60, 50, 40, 0xaa, //
            60, 50, 40, 0xaa, //
            3, 2, 1, 0xaa, //
            0xaa, 0xaa,
        ]
    );
    // the points are gone
    let mut surface = vec![0u8; 16];
    drawer.draw(&mut surface);
    assert_eq!(surface, vec![3, 2, 1, 0, 3, 2, 1, 0, 3, 2, 1, 0, 3, 2, 1, 0]);
}

#[test]
fn drawer_settings() {
    let mut drawer = Drawer::new(Color::white(), Color::black(), DrawMode::CANVAS, 3, 4);
    assert_eq!(drawer.get_mode(), DrawMode::CANVAS);
    assert_eq!((drawer.get_bg_color(), drawer.get_draw_color()), (Color::white(), Color::black()));
    drawer.set_bg_color(Color::red());
    drawer.set_draw_color(Color::blue());
    assert_eq!((drawer.get_bg_color(), drawer.get_draw_color()), (Color::red(), Color::blue()));
    drawer.fill(Color::green());
    assert_eq!(drawer.get_bg_color(), Color::green());
    drawer.clear();
    drawer.set_size(1, 1);
    let mut pixels = Drawer::new(Color::white(), Color::black(), DrawMode::PIXELBUFFER, 1, 1);
    pixels.set_size(0, 5);
    let mut surface = vec![7u8; 3];
    pixels.draw(&mut surface);
    assert_eq!(surface, vec![7, 7, 7]);
}

#[test]
fn line_by_its_slope() {
    // half a row to the column
    assert_eq!(slope_line::<F>((0, 0), (4, 2)), vec![(0, 0), (1, 0), (2, 1), (3, 1)]);
    // three rows to the column: three points in every column
    assert_eq!(slope_line::<F>((0, 0), (2, 6)), vec![(0, 0), (0, 1), (0, 2), (1, 3), (1, 4), (1, 5)]);
    // falling: the points of a column lie below the line
    assert_eq!(slope_line::<F>((0, 4), (2, 0)), vec![(0, 2), (0, 3), (1, 0), (1, 1)]);
    // from the right: the same line as from the left
    assert_eq!(slope_line::<F>((4, 2), (0, 0)), slope_line::<F>((0, 0), (4, 2)));
    // not through the origin
    assert_eq!(slope_line::<F>((10, 20), (12, 21)), vec![(10, 20), (11, 20)]);
}

#[test]
fn level_and_upright_lines_end_before_their_last_point() {
    assert_eq!(slope_line::<F>((3, 5), (0, 5)), vec![(0, 5), (1, 5), (2, 5)]);
    assert_eq!(slope_line::<F>((2, 1), (2, 4)), vec![(2, 1), (2, 2), (2, 3)]);
    assert_eq!(slope_line::<F>((2, 4), (2, 1)), vec![(2, 1), (2, 2), (2, 3)]);
    assert_eq!(slope_line::<F>((1, 1), (1, 1)), vec![]);
    assert_eq!(slope_line::<F>((-2, -1), (1, -1)), vec![(-2, -1), (-1, -1), (0, -1)]);
}

#[test]
fn drawers_draw_lines_in_the_current_colour() {
    let mut drawer = Drawer::new(Color::white(), Color::red(), DrawMode::PIXELBUFFER, 8, 8);
    drawer.draw_point((7, 7));
    drawer.draw_line::<F>((0, 0), (4, 2));
    let mut surface = vec![0u8; 4 * 64];
    drawer.draw(&mut surface);
    let mut lit = Vec::new();
    for cell in 0..64 {
        if surface[4 * cell..4 * cell + 3] == [0, 0, 255] {
            lit.push((cell % 8, cell / 8));
        }
    }
    assert_eq!(lit, vec![(0, 0), (1, 0), (2, 1), (3, 1), (7, 7)]);
    let mut buffer = PixelBufferDrawer::new(Color::white());
    buffer.set_draw_color(Color::blue());
    buffer.draw_line::<F>((0, 4), (2, 0));
    assert_eq!(
        buffer.contents(),
        &vec![
            Pixel { color: Color::blue(), x: 0, y: 2 },
            Pixel { color: Color::blue(), x: 0, y: 3 },
            Pixel { color: Color::blue(), x: 1, y: 0 },
            Pixel { color: Color::blue(), x: 1, y: 1 },
        ]
    );
}
