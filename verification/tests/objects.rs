use simulation_engine::{
    Circle, Color, Cube, IdAllocator, Object, Quad, Real, Rectangle, Scalar, Shape, Spot, Square,
    Transform, Vector3D, Vertex,
};

#[derive(Copy, Clone, Debug, PartialEq)]
struct F(f32);

impl Scalar for F {
    fn zero() -> Self {
        F(0.0)
    }
    fn one() -> Self {
        F(1.0)
    }
    fn add(self, rhs: Self) -> Self {
        F(self.0 + rhs.0)
    }
    fn mul(self, rhs: Self) -> Self {
        F(self.0 * rhs.0)
    }
    fn neg(self) -> Self {
        F(-self.0)
    }
}

impl Real for F {
    fn from_i32(value: i32) -> Self {
        F(value as f32)
    }
    fn pi() -> Self {
        F(std::f32::consts::PI)
    }
    fn div(self, rhs: Self) -> Self {
        F(self.0 / rhs.0)
    }
    fn rem_euclid(self, rhs: Self) -> Self {
        F(self.0.rem_euclid(rhs.0))
    }
    fn sin(self) -> Self {
        F(self.0.sin())
    }
    fn cos(self) -> Self {
        F(self.0.cos())
    }
    fn ceil(self) -> Self {
        F(self.0.ceil())
    }
    fn floor(self) -> Self {
        F(self.0.floor())
    }
    fn lt(self, rhs: Self) -> bool {
        self.0 < rhs.0
    }
    fn same(self, rhs: Self) -> bool {
        self.0 == rhs.0
    }
    fn to_i32(self) -> i32 {
        self.0 as i32
    }
}

fn triple(v: Vector3D<F>) -> (f32, f32, f32) {
    (v.x.0, v.y.0, v.z.0)
}

fn corners(vertices: &Vec<Vertex<F>>) -> Vec<(f32, f32, f32)> {
    vertices.iter().map(|v| triple(v.get_rel_pos())).collect()
}

fn links(vertices: &Vec<Vertex<F>>) -> Vec<Vec<usize>> {
    vertices.iter().map(|v| v.get_connections().clone()).collect()
}

#[test]
fn vertex_collects_its_joins() {
    let mut v: Vertex<F> = Vertex::new(Vector3D::new(F(1.0), F(2.0), F(3.0)));
    assert_eq!(triple(v.get_rel_pos()), (1.0, 2.0, 3.0));
    assert!(v.get_connections().is_empty());
    v.add_connection(4).add_connection(2);
    v.add_connections(vec![7, 7, 0]).add_connections(vec![]);
    assert_eq!(v.get_connections(), &vec![4, 2, 7, 7, 0]);
}

#[test]
fn cube_has_eight_corners_and_twelve_edges() {
    let mut ids = IdAllocator::new();
    let cube: Cube<F> = Cube::new(&mut ids);
    assert_eq!(
        corners(cube.get_vertices()),
        vec![
            (-1.0, -1.0, -1.0),
            (1.0, -1.0, -1.0),
            (-1.0, -1.0, 1.0),
            (1.0, -1.0, 1.0),
            (-1.0, 1.0, -1.0),
            (1.0, 1.0, -1.0),
            (-1.0, 1.0, 1.0),
            (1.0, 1.0, 1.0),
        ]
    );
    assert_eq!(
        links(cube.get_vertices()),
        vec![
            vec![1, 2, 4],
            vec![0, 3, 5],
            vec![0, 3, 6],
            vec![1, 2, 7],
            vec![5, 6],
            vec![4, 7],
            vec![4, 7],
            vec![5, 6],
        ]
    );
    let mut edges = Vec::new();
    for (i, joined) in links(cube.get_vertices()).iter().enumerate() {
        for j in joined {
            let edge = (i.min(*j), i.max(*j));
            if !edges.contains(&edge) {
                edges.push(edge);
            }
        }
    }
    assert_eq!(edges.len(), 12);
    assert_eq!(cube.get_frame_color(), Color::black());
    assert_eq!(cube.get_fill_color(), Color::black());
    assert_eq!(triple(cube.transform().scale), (1.0, 1.0, 1.0));
    assert_eq!(triple(cube.get_cached_transform().scale), (1.0, 1.0, 1.0));
}

#[test]
fn cube_builders_set_the_pose() {
    let mut ids = IdAllocator::new();
    let cube: Cube<F> = Cube::new(&mut ids)
        .set_position(F(1.0), F(2.0), F(3.0))
        .set_rotation(F(4.0), F(5.0), F(6.0))
        .set_scale(F(7.0), F(8.0), F(9.0));
    assert_eq!(triple(cube.transform().position), (1.0, 2.0, 3.0));
    assert_eq!(triple(cube.transform().rotation), (4.0, 5.0, 6.0));
    assert_eq!(triple(cube.transform().scale), (7.0, 8.0, 9.0));
    assert_eq!(triple(cube.get_cached_transform().position), (0.0, 0.0, 0.0));
}

#[test]
fn spot_is_one_point_of_one_colour() {
    let mut ids = IdAllocator::new();
    let mut spot: Spot<F> = Spot::new(&mut ids, Color::red());
    assert_eq!(corners(spot.get_vertices()), vec![(0.0, 0.0, 0.0)]);
    assert_eq!(links(spot.get_vertices()), vec![Vec::<usize>::new()]);
    assert_eq!((spot.get_frame_color(), spot.get_fill_color()), (Color::red(), Color::red()));
    spot.set_frame_color(Color::blue());
    assert_eq!((spot.get_frame_color(), spot.get_fill_color()), (Color::blue(), Color::blue()));
    spot.set_fill_color(Color::green());
    assert_eq!((spot.get_frame_color(), spot.get_fill_color()), (Color::green(), Color::green()));
}

#[test]
fn flat_builders_take_the_third_component_from_the_position() {
    let mut ids = IdAllocator::new();
    let mut spot: Spot<F> = Spot::new(&mut ids, Color::red());
    spot.transform_mut().set_position(F(0.0), F(0.0), F(5.0));
    let spot = spot.set_position(F(1.0), F(2.0)).set_rotation(F(3.0), F(4.0)).set_scale(F(6.0), F(7.0));
    assert_eq!(triple(spot.transform().position), (1.0, 2.0, 5.0));
    assert_eq!(triple(spot.transform().rotation), (3.0, 4.0, 5.0));
    assert_eq!(triple(spot.transform().scale), (6.0, 7.0, 5.0));
    let circle: Circle<F> = Circle::new(&mut ids, Color::red(), Color::blue())
        .set_position(F(1.0), F(2.0))
        .set_rotation(F(3.0), F(4.0))
        .set_scale(F(6.0), F(7.0));
    assert_eq!(triple(circle.transform().position), (1.0, 2.0, 0.0));
    assert_eq!(triple(circle.transform().rotation), (3.0, 4.0, 0.0));
    assert_eq!(triple(circle.transform().scale), (6.0, 7.0, 0.0));
}

#[test]
fn colours_of_two_coloured_objects_are_set_apart() {
    let mut ids = IdAllocator::new();
    let mut cube: Cube<F> = Cube::new(&mut ids);
    cube.set_frame_color(Color::red());
    assert_eq!((cube.get_frame_color(), cube.get_fill_color()), (Color::red(), Color::black()));
    cube.set_fill_color(Color::blue());
    assert_eq!((cube.get_frame_color(), cube.get_fill_color()), (Color::red(), Color::blue()));
    let mut shape: Shape<F> = Shape::Circle(Circle::new(&mut ids, Color::red(), Color::blue()));
    shape.set_fill_color(Color::green());
    assert_eq!((shape.get_frame_color(), shape.get_fill_color()), (Color::red(), Color::green()));
    let mut quad: Quad<F> = Rectangle::new(&mut ids, F(1.0), F(1.0));
    quad.set_frame_color(Color::green());
    assert_eq!((quad.get_frame_color(), quad.get_fill_color()), (Color::green(), Color::black()));
}

#[test]
fn cache_transform_remembers_the_current_pose() {
    let mut ids = IdAllocator::new();
    for mut shape in [
        Shape::Cube(Cube::<F>::new(&mut ids)),
        Shape::Spot(Spot::new(&mut ids, Color::red())),
        Shape::Circle(Circle::new(&mut ids, Color::red(), Color::red())),
        Shape::Quad(Square::new(&mut ids, F(2.0))),
    ] {
        shape.transform_mut().set_position(F(1.0), F(2.0), F(3.0));
        assert_eq!(triple(shape.get_cached_transform().position), (0.0, 0.0, 0.0));
        shape.cache_transform();
        assert_eq!(triple(shape.get_cached_transform().position), (1.0, 2.0, 3.0));
        shape.transform_mut().translate(F(1.0), F(1.0), F(1.0));
        assert_eq!(triple(shape.get_cached_transform().position), (1.0, 2.0, 3.0));
        assert_eq!(triple(shape.transform().position), (2.0, 3.0, 4.0));
        let copy: Transform<F> = *shape.transform();
        assert_eq!(triple(copy.position), (2.0, 3.0, 4.0));
    }
}

#[test]
fn quad_corners_lie_at_half_its_dimensions() {
    let mut ids = IdAllocator::new();
    let quad: Quad<F> = Quad::from_dimensions(&mut ids, F(4.0), F(6.0));
    assert_eq!(
        corners(quad.get_vertices()),
        vec![(-2.0, -3.0, 0.0), (-2.0, 3.0, 0.0), (2.0, -3.0, 0.0), (2.0, 3.0, 0.0)]
    );
    assert_eq!(links(quad.get_vertices()), vec![vec![1, 2], vec![3], vec![3], vec![]]);
    let square: Quad<F> = Square::new(&mut ids, F(5.0));
    assert_eq!(
        corners(square.get_vertices()),
        vec![(-2.5, -2.5, 0.0), (-2.5, 2.5, 0.0), (2.5, -2.5, 0.0), (2.5, 2.5, 0.0)]
    );
    let rectangle: Quad<F> = Rectangle::new(&mut ids, F(1.0), F(3.0));
    assert_eq!(
        corners(rectangle.get_vertices()),
        vec![(-0.5, -1.5, 0.0), (-0.5, 1.5, 0.0), (0.5, -1.5, 0.0), (0.5, 1.5, 0.0)]
    );
    assert_eq!(links(rectangle.get_vertices()), links(quad.get_vertices()));
    assert_eq!((quad.get_id(), square.get_id(), rectangle.get_id()), (0, 1, 2));
}

#[test]
fn circle_is_a_closed_chain_of_ten_thousand_segments() {
    let mut ids = IdAllocator::new();
    let circle: Circle<F> = Circle::new(&mut ids, Color::red(), Color::blue());
    let vertices = circle.get_vertices();
    let count = vertices.len();
    // rounding lets the sweep run a few corners past the full turn
    assert!(count >= 10_000 && count <= 10_010, "{} corners", count);
    assert_eq!(triple(vertices[0].get_rel_pos()), (1.0, 0.0, 0.0));
    assert!(vertices[0].get_connections().is_empty());
    for i in 1..count - 1 {
        assert_eq!(vertices[i].get_connections(), &vec![i - 1]);
    }
    assert_eq!(vertices[count - 1].get_connections(), &vec![count - 2, 0]);
    for v in vertices.iter() {
        let (x, y, z) = triple(v.get_rel_pos());
        assert!((x * x + y * y - 1.0).abs() < 1.0e-5);
        assert_eq!(z, 0.0);
    }
    let quarter = triple(vertices[2500].get_rel_pos());
    assert!(quarter.0.abs() < 1.0e-3 && (quarter.1 - 1.0).abs() < 1.0e-3);
    assert_eq!((circle.get_frame_color(), circle.get_fill_color()), (Color::red(), Color::blue()));
}

#[test]
fn circle_radius_scales_its_outline() {
    let mut ids = IdAllocator::new();
    let circle: Circle<F> = Circle::new(&mut ids, Color::red(), Color::blue()).set_radius(F(100.0));
    let vertices = circle.get_vertices();
    assert_eq!(triple(vertices[0].get_rel_pos()), (100.0, 0.0, 0.0));
    let half = triple(vertices[5000].get_rel_pos());
    assert!((half.0 + 100.0).abs() < 0.1 && half.1.abs() < 0.1);
    assert_eq!(circle.get_id(), 0);
    assert_eq!(vertices[vertices.len() - 1].get_connections().last(), Some(&0));
}
