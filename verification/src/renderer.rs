//! The camera and the projection from object space to window pixels.

use vstd::prelude::*;

use crate::linearalgebra::{Matrix, MatrixBase, Vector2D, Vector3D};
use crate::scalar::{
    is_cosine, is_negation, is_number, is_one, is_pi, is_product, is_quotient, is_same, is_sine,
    is_sum, is_truncation, is_zero, Real,
};
use crate::transform::Transform;

verus! {

/// The point of the window that the origin of camera space is drawn at.
#[derive(Copy, Clone, Debug, PartialEq, Eq, Structural)]
pub enum OriginPosition {
    TOPLEFT,
    TOPRIGHT,
    BOTTOMLEFT,
    BOTTOMRIGHT,
    TOPMIDDLE,
    BOTTOMMIDDLE,
    MIDDLELEFT,
    MIDDLERIGHT,
    MIDDLEMIDDLE,
}

/// Which of the two projections a renderer applies.
#[derive(Copy, Clone, Debug, PartialEq, Eq, Structural)]
pub enum RenderMode {
    R2D,
    R3D,
}

/// The coordinate that stands for a point at depth zero, before the origin is
/// added to it.
pub const DEGENERATE: i32 = -1;

/// Degrees in half a turn.
pub const HALF_TURN: i32 = 180;

/// The top left corner of the rectangle of the view plane that a camera
/// records by default.
pub const VIEW_PLANE_TOP_LEFT: (i32, i32) = (-1, 1);

/// The bottom right corner of that rectangle.
pub const VIEW_PLANE_BOTTOM_RIGHT: (i32, i32) = (1, -1);

/// The depth of the view plane.
pub const VIEW_PLANE_Z: i32 = -1;

/// The width and the height of the image that the camera records by default.
pub const DEFAULT_RESOLUTION: (i32, i32) = (1920, 1080);

/// Half of `v`, rounded towards zero.
pub open spec fn half(v: int) -> int {
    if v >= 0 {
        v / 2
    } else {
        -((-v) / 2)
    }
}

/// The pixel of a window of size `window_size` that `origin` names.
pub open spec fn anchor(origin: OriginPosition, window_size: (i32, i32)) -> (i32, i32) {
    let (width, height) = window_size;
    let (middle, centre) = (half(width as int) as i32, half(height as int) as i32);
    match origin {
        OriginPosition::TOPLEFT => (0, 0),
        OriginPosition::TOPRIGHT => (width, 0),
        OriginPosition::BOTTOMLEFT => (0, height),
        OriginPosition::BOTTOMRIGHT => (width, height),
        OriginPosition::TOPMIDDLE => (middle, 0),
        OriginPosition::BOTTOMMIDDLE => (middle, height),
        OriginPosition::MIDDLELEFT => (0, centre),
        OriginPosition::MIDDLERIGHT => (width, centre),
        OriginPosition::MIDDLEMIDDLE => (middle, centre),
    }
}

/// `m` is a value that the matrix of a turn by `angle` radians about the x
/// axis may be.
pub open spec fn is_turn_about_x<T: Real>(angle: T, m: &Matrix<T>) -> bool {
    exists|zero: T, one: T, cos: T, sin: T, minus_sin: T|
        #![trigger is_zero(zero), is_one(one), is_cosine(angle, cos), is_negation(sin, minus_sin)]
        is_zero(zero) && is_one(one) && is_cosine(angle, cos) && is_sine(angle, sin) && is_negation(
            sin,
            minus_sin,
        ) && m.has_shape(3, 3) && m@ == seq![one, zero, zero, zero, cos, minus_sin, zero, sin, cos]
}

/// `m` is a value that the matrix of a turn by `angle` radians about the y
/// axis may be.
pub open spec fn is_turn_about_y<T: Real>(angle: T, m: &Matrix<T>) -> bool {
    exists|zero: T, one: T, cos: T, sin: T, minus_sin: T|
        #![trigger is_zero(zero), is_one(one), is_cosine(angle, cos), is_negation(sin, minus_sin)]
        is_zero(zero) && is_one(one) && is_cosine(angle, cos) && is_sine(angle, sin) && is_negation(
            sin,
            minus_sin,
        ) && m.has_shape(3, 3) && m@ == seq![cos, zero, minus_sin, zero, one, zero, sin, zero, cos]
}

/// `m` is a value that the matrix of a turn by `angle` radians about the z
/// axis may be.
pub open spec fn is_turn_about_z<T: Real>(angle: T, m: &Matrix<T>) -> bool {
    exists|zero: T, one: T, cos: T, sin: T, minus_sin: T|
        #![trigger is_zero(zero), is_one(one), is_cosine(angle, cos), is_negation(sin, minus_sin)]
        is_zero(zero) && is_one(one) && is_cosine(angle, cos) && is_sine(angle, sin) && is_negation(
            sin,
            minus_sin,
        ) && m.has_shape(3, 3) && m@ == seq![cos, minus_sin, zero, sin, cos, zero, zero, zero, one]
}

/// `m` is a value that the turn about x, then y, then z by the angles of
/// `radians` may be: the product of the three matrices in that order.
pub open spec fn is_rotation<T: Real>(radians: Vector3D<T>, m: &Matrix<T>) -> bool {
    exists|about_x: Matrix<T>, about_y: Matrix<T>, about_z: Matrix<T>, about_xy: Matrix<T>|
        #![trigger about_xy.is_product_of(&about_x, &about_y), m.is_product_of(&about_xy, &about_z)]
        is_turn_about_x(radians.x, &about_x) && is_turn_about_y(radians.y, &about_y)
            && is_turn_about_z(radians.z, &about_z) && about_xy.is_product_of(&about_x, &about_y)
            && m.is_product_of(&about_xy, &about_z)
}

/// `radians` is a value that the angles of `degrees` may have in radians:
/// each multiplied by a quotient of pi by 180.
pub open spec fn is_in_radians<T: Real>(degrees: Vector3D<T>, radians: Vector3D<T>) -> bool {
    exists|pi: T, half_turn: T, ratio: T|
        #![trigger is_quotient(pi, half_turn, ratio)]
        is_pi(pi) && is_number(HALF_TURN, half_turn) && is_quotient(pi, half_turn, ratio)
            && radians.is_scaling_of(degrees, ratio)
}

/// `turned` is a value that applying the rotation `m` to `point` may give.
pub open spec fn is_applied<T: Real>(m: &Matrix<T>, point: Vector3D<T>, turned: Vector3D<T>) -> bool {
    exists|column: Matrix<T>, image: Matrix<T>|
        #![trigger image.is_product_of(m, &column)]
        point.is_column(&column) && image.is_product_of(m, &column) && Vector3D::spec_from_matrix(
            &image,
        ) == Some(turned)
}

/// `world` is a place that `vertex`, posed by `transform`, may take before a
/// camera at `camera`: the vertex scaled, turned about x, y and z in that
/// order, moved to the pose's position, and seen from the camera's.
pub open spec fn is_world_position<T: Real>(
    transform: &Transform<T>,
    vertex: &Vector3D<T>,
    camera: Vector3D<T>,
    world: Vector3D<T>,
) -> bool {
    exists|
        radians: Vector3D<T>,
        scaled: Vector3D<T>,
        rotation: Matrix<T>,
        turned: Vector3D<T>,
        moved: Vector3D<T>,
    |
        #![trigger
            is_in_radians(transform.rotation, radians),
            scaled.is_product_of(*vertex, transform.scale),
            is_applied(&rotation, scaled, turned),
            moved.is_sum_of(turned, transform.position)
        ]
        is_in_radians(transform.rotation, radians) && scaled.is_product_of(
            *vertex,
            transform.scale,
        ) && is_rotation(radians, &rotation) && is_applied(&rotation, scaled, turned)
            && moved.is_sum_of(turned, transform.position) && world.is_difference_of(moved, camera)
}

/// `r` is a value that the perspective image of the coordinate `coordinate` at
/// depth `depth` may be, on a view plane `extent` wide at depth `plane` that
/// is recorded at `resolution`:
/// `(coordinate * resolution) / (depth / extent) * plane`.
pub open spec fn is_perspective<T: Real>(
    coordinate: T,
    resolution: T,
    depth: T,
    extent: T,
    plane: T,
    r: T,
) -> bool {
    exists|scaled: T, ratio: T, divided: T|
        #![trigger
            is_product(coordinate, resolution, scaled),
            is_quotient(depth, extent, ratio),
            is_quotient(scaled, ratio, divided)
        ]
        is_product(coordinate, resolution, scaled) && is_quotient(depth, extent, ratio)
            && is_quotient(scaled, ratio, divided) && is_product(divided, plane, r)
}

/// `pixel` is a value that `coordinate`, cut to a whole number and moved by
/// `origin`, may give. The move wraps around at the ends of `i32`.
pub open spec fn is_pixel<T: Real>(coordinate: T, origin: i32, pixel: i32) -> bool {
    exists|whole: i32| #[trigger]
        is_truncation(coordinate, whole) && pixel == whole.wrapping_add(origin)
}

/// A pinhole camera: its pose, and the rectangle of the view plane it records.
#[derive(Debug)]
pub struct Camera<T> {
    pub transform: Transform<T>,
    pub view_plane_top_left: Vector2D<T>,
    pub view_plane_bottom_right: Vector2D<T>,
    pub view_plane_z: T,
}

impl<T: Real> Camera<T> {
    /// The camera at the origin that records the default rectangle of the
    /// view plane.
    pub open spec fn is_default(&self) -> bool {
        &&& self.transform.is_unposed()
        &&& is_number(VIEW_PLANE_TOP_LEFT.0, self.view_plane_top_left.x)
        &&& is_number(VIEW_PLANE_TOP_LEFT.1, self.view_plane_top_left.y)
        &&& is_number(VIEW_PLANE_BOTTOM_RIGHT.0, self.view_plane_bottom_right.x)
        &&& is_number(VIEW_PLANE_BOTTOM_RIGHT.1, self.view_plane_bottom_right.y)
        &&& is_number(VIEW_PLANE_Z, self.view_plane_z)
    }

    pub fn new() -> (camera: Self)
        ensures
            camera.is_default(),
    {
        Self {
            transform: Transform::new(),
            view_plane_top_left: Vector2D::new(
                T::from_i32(VIEW_PLANE_TOP_LEFT.0),
                T::from_i32(VIEW_PLANE_TOP_LEFT.1),
            ),
            view_plane_bottom_right: Vector2D::new(
                T::from_i32(VIEW_PLANE_BOTTOM_RIGHT.0),
                T::from_i32(VIEW_PLANE_BOTTOM_RIGHT.1),
            ),
            view_plane_z: T::from_i32(VIEW_PLANE_Z),
        }
    }
}

/// What a scene is drawn with: the projection, the camera, and the point of
/// the window that stands for the origin.
#[derive(Debug)]
pub struct Renderer<T> {
    pub mode: RenderMode,
    pub camera: Camera<T>,
    pub resolution_x: T,
    pub resolution_y: T,
    pub allow_3d_rotation: bool,
    pub origin: OriginPosition,
}

impl<T: Real> Renderer<T> {
    pub fn new(mode: RenderMode, origin: OriginPosition, allow_3d_rotation: bool) -> (r: Self)
        ensures
            r.mode == mode,
            r.origin == origin,
            r.allow_3d_rotation == allow_3d_rotation,
            r.camera.is_default(),
            is_number(DEFAULT_RESOLUTION.0, r.resolution_x),
            is_number(DEFAULT_RESOLUTION.1, r.resolution_y),
    {
        Self {
            mode,
            camera: Camera::new(),
            resolution_x: T::from_i32(DEFAULT_RESOLUTION.0),
            resolution_y: T::from_i32(DEFAULT_RESOLUTION.1),
            allow_3d_rotation,
            origin,
        }
    }

    pub fn get_resolution(&self) -> (resolution: (T, T))
        ensures
            resolution == (self.resolution_x, self.resolution_y),
    {
        (self.resolution_x, self.resolution_y)
    }

    pub fn set_resolution(&mut self, resolution_x: T, resolution_y: T)
        ensures
            *final(self) == (Renderer { resolution_x, resolution_y, ..*old(self) }),
    {
        self.resolution_x = resolution_x;
        self.resolution_y = resolution_y;
    }

    /// Lets flat scenes be turned about all three axes.
    pub fn allow_3d_rotation(&mut self)
        ensures
            *final(self) == (Renderer { allow_3d_rotation: true, ..*old(self) }),
    {
        self.allow_3d_rotation = true;
    }

    /// Draws flat scenes unturned and unscaled.
    pub fn disable_3d_rotation(&mut self)
        ensures
            *final(self) == (Renderer { allow_3d_rotation: false, ..*old(self) }),
    {
        self.allow_3d_rotation = false;
    }

    /// The pixel that stands for the origin in a window of size `window_size`.
    pub fn get_origin(&self, window_size: (i32, i32)) -> (at: (i32, i32))
        ensures
            at == anchor(self.origin, window_size),
    {
        match self.origin {
            OriginPosition::TOPLEFT => (0, 0),
            OriginPosition::TOPRIGHT => (window_size.0, 0),
            OriginPosition::BOTTOMLEFT => (0, window_size.1),
            OriginPosition::BOTTOMRIGHT => window_size,
            OriginPosition::TOPMIDDLE => (window_size.0 / 2, 0),
            OriginPosition::BOTTOMMIDDLE => (window_size.0 / 2, window_size.1),
            OriginPosition::MIDDLELEFT => (0, window_size.1 / 2),
            OriginPosition::MIDDLERIGHT => (window_size.0, window_size.1 / 2),
            OriginPosition::MIDDLEMIDDLE => (window_size.0 / 2, window_size.1 / 2),
        }
    }

    /// `at` is a pixel that `vertex`, posed by `transform`, may be drawn at
    /// by the flat projection, with the origin at `origin_pos`.
    ///
    /// Without turns the vertex is only moved: its x and y, plus the pose's,
    /// cut to whole numbers, plus the origin. With turns the vertex takes its
    /// place before the camera first, and that place is moved likewise.
    pub open spec fn is_2d_projection(
        &self,
        transform: &Transform<T>,
        vertex: &Vector3D<T>,
        origin_pos: (i32, i32),
        at: (i32, i32),
    ) -> bool {
        if self.allow_3d_rotation {
            exists|world: Vector3D<T>, x: T, y: T|
                #![trigger
                    is_sum(world.x, transform.position.x, x),
                    is_sum(world.y, transform.position.y, y)
                ]
                is_world_position(transform, vertex, self.camera.transform.position, world)
                    && is_sum(world.x, transform.position.x, x) && is_sum(
                    world.y,
                    transform.position.y,
                    y,
                ) && is_pixel(x, origin_pos.0, at.0) && is_pixel(y, origin_pos.1, at.1)
        } else {
            exists|x: T, y: T|
                #![trigger
                    is_sum(vertex.x, transform.position.x, x),
                    is_sum(vertex.y, transform.position.y, y)
                ]
                is_sum(vertex.x, transform.position.x, x) && is_sum(
                    vertex.y,
                    transform.position.y,
                    y,
                ) && is_pixel(x, origin_pos.0, at.0) && is_pixel(y, origin_pos.1, at.1)
        }
    }

    /// `at` is a pixel that the place `world` before the camera may be drawn
    /// at once it has been divided by its depth: `extent` is the size of the
    /// recorded rectangle of the view plane, `x` and `y` are the perspective
    /// images of the two coordinates.
    pub open spec fn is_divided(
        &self,
        world: Vector3D<T>,
        origin_pos: (i32, i32),
        at: (i32, i32),
        extent: Vector2D<T>,
        x: T,
        y: T,
    ) -> bool {
        &&& extent.is_difference_of(
            self.camera.view_plane_bottom_right,
            self.camera.view_plane_top_left,
        )
        &&& is_perspective(
            world.x,
            self.resolution_x,
            world.z,
            extent.x,
            self.camera.view_plane_z,
            x,
        )
        &&& is_perspective(
            world.y,
            self.resolution_y,
            world.z,
            extent.y,
            self.camera.view_plane_z,
            y,
        )
        &&& is_pixel(x, origin_pos.0, at.0)
        &&& is_pixel(y, origin_pos.1, at.1)
    }

    /// `at` is a pixel that `vertex` may be drawn at by the perspective
    /// projection when its place before the camera is `world` and the
    /// comparison of its depth with `zero` came out as `flat`.
    pub open spec fn is_3d_projection_from(
        &self,
        transform: &Transform<T>,
        vertex: &Vector3D<T>,
        origin_pos: (i32, i32),
        at: (i32, i32),
        world: Vector3D<T>,
        zero: T,
        flat: bool,
    ) -> bool {
        &&& is_world_position(transform, vertex, self.camera.transform.position, world)
        &&& is_zero(zero)
        &&& is_same(world.z, zero, flat)
        &&& if flat {
            at == (DEGENERATE.wrapping_add(origin_pos.0), DEGENERATE.wrapping_add(origin_pos.1))
        } else {
            exists|extent: Vector2D<T>, x: T, y: T| #[trigger]
                self.is_divided(world, origin_pos, at, extent, x, y)
        }
    }

    /// `at` is a pixel that `vertex`, posed by `transform`, may be drawn at
    /// by the perspective projection, with the origin at `origin_pos`.
    ///
    /// A vertex whose place before the camera has a depth that compares equal
    /// to zero is drawn at `DEGENERATE` in both coordinates, plus the origin.
    /// Any other is divided by its depth.
    pub open spec fn is_3d_projection(
        &self,
        transform: &Transform<T>,
        vertex: &Vector3D<T>,
        origin_pos: (i32, i32),
        at: (i32, i32),
    ) -> bool {
        exists|world: Vector3D<T>, zero: T, flat: bool| #[trigger]
            self.is_3d_projection_from(transform, vertex, origin_pos, at, world, zero, flat)
    }

    /// `at` is a pixel that `vertex`, posed by `transform`, may be drawn at
    /// in a window of size `window_size`.
    pub open spec fn is_projection(
        &self,
        transform: &Transform<T>,
        vertex: &Vector3D<T>,
        window_size: (i32, i32),
        at: (i32, i32),
    ) -> bool {
        let origin_pos = anchor(self.origin, window_size);
        match self.mode {
            RenderMode::R2D => self.is_2d_projection(transform, vertex, origin_pos, at),
            RenderMode::R3D => self.is_3d_projection(transform, vertex, origin_pos, at),
        }
    }

    /// The pixel of a window of size `window_size` that `vertex`, posed by
    /// `transform`, is drawn at.
    pub fn project_to_screen(
        &self,
        transform: &Transform<T>,
        vertex: &Vector3D<T>,
        window_size: (i32, i32),
    ) -> (at: (i32, i32))
        ensures
            self.is_projection(transform, vertex, window_size, at),
    {
        let origin_pos = self.get_origin(window_size);
        match self.mode {
            RenderMode::R2D => self.calculate_2d_projection(transform, vertex, origin_pos),
            RenderMode::R3D => self.calculate_3d_projection(transform, vertex, origin_pos),
        }
    }

    /// The flat projection of `vertex`, with the origin at `origin_pos`.
    pub fn calculate_2d_projection(
        &self,
        transform: &Transform<T>,
        vertex: &Vector3D<T>,
        origin_pos: (i32, i32),
    ) -> (at: (i32, i32))
        ensures
            self.is_2d_projection(transform, vertex, origin_pos, at),
    {
        if self.allow_3d_rotation {
            let world = world_position(transform, vertex, self.camera.transform.position);
            let x = world.x.add(transform.position.x);
            let y = world.y.add(transform.position.y);
            let at = (to_pixel(x, origin_pos.0), to_pixel(y, origin_pos.1));
            assert(is_sum(world.x, transform.position.x, x) && is_sum(
                world.y,
                transform.position.y,
                y,
            ));
            at
        } else {
            let x = vertex.x.add(transform.position.x);
            let y = vertex.y.add(transform.position.y);
            let at = (to_pixel(x, origin_pos.0), to_pixel(y, origin_pos.1));
            assert(is_sum(vertex.x, transform.position.x, x) && is_sum(
                vertex.y,
                transform.position.y,
                y,
            ));
            at
        }
    }

    /// The perspective projection of `vertex`, with the origin at
    /// `origin_pos`.
    pub fn calculate_3d_projection(
        &self,
        transform: &Transform<T>,
        vertex: &Vector3D<T>,
        origin_pos: (i32, i32),
    ) -> (at: (i32, i32))
        ensures
            self.is_3d_projection(transform, vertex, origin_pos, at),
    {
        let world = world_position(transform, vertex, self.camera.transform.position);
        let zero = T::zero();
        let flat = world.z.same(zero);
        if flat {
            let at = (DEGENERATE.wrapping_add(origin_pos.0), DEGENERATE.wrapping_add(origin_pos.1));
            assert(self.is_3d_projection_from(transform, vertex, origin_pos, at, world, zero, flat));
            at
        } else {
            let extent = self.camera.view_plane_bottom_right.sub(self.camera.view_plane_top_left);
            let x = perspective(
                world.x,
                self.resolution_x,
                world.z,
                extent.x,
                self.camera.view_plane_z,
            );
            let y = perspective(
                world.y,
                self.resolution_y,
                world.z,
                extent.y,
                self.camera.view_plane_z,
            );
            let at = (to_pixel(x, origin_pos.0), to_pixel(y, origin_pos.1));
            assert(self.is_divided(world, origin_pos, at, extent, x, y));
            assert(self.is_3d_projection_from(transform, vertex, origin_pos, at, world, zero, flat));
            at
        }
    }
}

/// `coordinate` cut to a whole number and moved by `origin`.
pub fn to_pixel<T: Real>(coordinate: T, origin: i32) -> (pixel: i32)
    ensures
        is_pixel(coordinate, origin, pixel),
{
    let whole = coordinate.to_i32();
    assert(is_truncation(coordinate, whole));
    whole.wrapping_add(origin)
}

/// The perspective image of one coordinate:
/// `(coordinate * resolution) / (depth / extent) * plane`.
pub fn perspective<T: Real>(coordinate: T, resolution: T, depth: T, extent: T, plane: T) -> (r: T)
    ensures
        is_perspective(coordinate, resolution, depth, extent, plane, r),
{
    let scaled = coordinate.mul(resolution);
    let ratio = depth.div(extent);
    let divided = scaled.div(ratio);
    assert(is_product(coordinate, resolution, scaled) && is_quotient(depth, extent, ratio)
        && is_quotient(scaled, ratio, divided));
    divided.mul(plane)
}

/// The angles of `degrees` in radians.
pub fn to_radians<T: Real>(degrees: Vector3D<T>) -> (radians: Vector3D<T>)
    ensures
        is_in_radians(degrees, radians),
{
    let pi = T::pi();
    let half_turn = T::from_i32(HALF_TURN);
    let ratio = pi.div(half_turn);
    assert(is_quotient(pi, half_turn, ratio));
    degrees.scale(ratio)
}

/// A matrix of three rows and three columns with the given cells, row by row.
fn grid<T: Real>(cells: [T; 9]) -> (m: Matrix<T>)
    ensures
        m.has_shape(3, 3),
        m@ == cells@,
{
    let mut contents: Vec<T> = Vec::new();
    let mut i: usize = 0;
    while i < 9
        invariant
            i <= 9,
            contents.len() == i,
            forall|k: int| 0 <= k < i ==> contents@[k] == cells@[k],
        decreases 9 - i,
    {
        contents.push(cells[i]);
        i += 1;
    }
    let m = Matrix::from_vec(3, 3, contents);
    assert(m@ =~= m@.subrange(0, 9));
    assert(m@ =~= cells@);
    m
}

/// The matrix of a turn by `angle` radians about the x axis.
pub fn turn_about_x<T: Real>(angle: T) -> (m: Matrix<T>)
    ensures
        is_turn_about_x(angle, &m),
{
    let zero = T::zero();
    let one = T::one();
    let cos = angle.cos();
    let sin = angle.sin();
    let minus_sin = sin.neg();
    let m = grid([one, zero, zero, zero, cos, minus_sin, zero, sin, cos]);
    assert(m@ =~= seq![one, zero, zero, zero, cos, minus_sin, zero, sin, cos]);
    assert(is_zero(zero) && is_one(one) && is_cosine(angle, cos) && is_negation(sin, minus_sin));
    m
}

/// The matrix of a turn by `angle` radians about the y axis.
pub fn turn_about_y<T: Real>(angle: T) -> (m: Matrix<T>)
    ensures
        is_turn_about_y(angle, &m),
{
    let zero = T::zero();
    let one = T::one();
    let cos = angle.cos();
    let sin = angle.sin();
    let minus_sin = sin.neg();
    let m = grid([cos, zero, minus_sin, zero, one, zero, sin, zero, cos]);
    assert(m@ =~= seq![cos, zero, minus_sin, zero, one, zero, sin, zero, cos]);
    assert(is_zero(zero) && is_one(one) && is_cosine(angle, cos) && is_negation(sin, minus_sin));
    m
}

/// The matrix of a turn by `angle` radians about the z axis.
pub fn turn_about_z<T: Real>(angle: T) -> (m: Matrix<T>)
    ensures
        is_turn_about_z(angle, &m),
{
    let zero = T::zero();
    let one = T::one();
    let cos = angle.cos();
    let sin = angle.sin();
    let minus_sin = sin.neg();
    let m = grid([cos, minus_sin, zero, sin, cos, zero, zero, zero, one]);
    assert(m@ =~= seq![cos, minus_sin, zero, sin, cos, zero, zero, zero, one]);
    assert(is_zero(zero) && is_one(one) && is_cosine(angle, cos) && is_negation(sin, minus_sin));
    m
}

/// The product of two matrices of three rows and three columns.
fn compose<T: Real>(left: &Matrix<T>, right: &Matrix<T>) -> (m: Matrix<T>)
    requires
        left.has_shape(3, 3),
        right.spec_height() == 3,
    ensures
        m.is_product_of(left, right),
{
    left.dot(right).unwrap()
}

/// The turn about x, then y, then z by the angles of `radians`.
pub fn rotation_matrix<T: Real>(radians: Vector3D<T>) -> (m: Matrix<T>)
    ensures
        is_rotation(radians, &m),
{
    let about_x = turn_about_x(radians.x);
    let about_y = turn_about_y(radians.y);
    let about_z = turn_about_z(radians.z);
    let about_xy = compose(&about_x, &about_y);
    let m = compose(&about_xy, &about_z);
    assert(about_xy.is_product_of(&about_x, &about_y) && m.is_product_of(&about_xy, &about_z));
    m
}

/// The rotation `m` applied to `point`.
pub fn apply_rotation<T: Real>(m: &Matrix<T>, point: Vector3D<T>) -> (turned: Vector3D<T>)
    requires
        m.has_shape(3, 3),
    ensures
        is_applied(m, point, turned),
{
    let column = point.to_matrix();
    let image = compose(m, &column);
    assert(image.is_product_of(m, &column));
    Vector3D::from_matrix(image).unwrap()
}

/// The place of `vertex`, posed by `transform`, before a camera at `camera`.
pub fn world_position<T: Real>(
    transform: &Transform<T>,
    vertex: &Vector3D<T>,
    camera: Vector3D<T>,
) -> (world: Vector3D<T>)
    ensures
        is_world_position(transform, vertex, camera, world),
{
    let radians = to_radians(transform.rotation);
    let scaled = vertex.mul(transform.scale);
    let rotation = rotation_matrix(radians);
    proof {
        lemma_rotation_shape(radians, &rotation);
    }
    let turned = apply_rotation(&rotation, scaled);
    let moved = turned.add(transform.position);
    let world = moved.sub(camera);
    assert(is_in_radians(transform.rotation, radians) && scaled.is_product_of(
        *vertex,
        transform.scale,
    ) && is_applied(&rotation, scaled, turned) && moved.is_sum_of(turned, transform.position));
    world
}

/// A rotation has three rows and three columns.
pub proof fn lemma_rotation_shape<T: Real>(radians: Vector3D<T>, m: &Matrix<T>)
    requires
        is_rotation(radians, m),
    ensures
        m.has_shape(3, 3),
{
}

} // verus!
