//! Projection is a function of its inputs wherever the scalar arithmetic is.

use vstd::prelude::*;

use crate::linearalgebra::{Matrix, Vector2D, Vector3D};
use crate::renderer::{
    anchor, is_applied, is_in_radians, is_perspective, is_pixel, is_rotation, is_turn_about_x,
    is_turn_about_y, is_turn_about_z, is_world_position, RenderMode, Renderer, HALF_TURN,
};
use crate::scalar::{
    is_cosine, is_difference, is_negation, is_number, is_one, is_pi, is_product, is_quotient,
    is_same, is_sine, is_sum, is_truncation, is_zero, Real,
};
use crate::transform::Transform;

verus! {

/// Every operation of `T` that a projection uses gives one result for one
/// choice of operands.
pub open spec fn is_deterministic<T: Real>() -> bool {
    &&& forall|a: T, b: T| #![trigger is_zero(a), is_zero(b)] is_zero(a) && is_zero(b) ==> a == b
    &&& forall|a: T, b: T| #![trigger is_one(a), is_one(b)] is_one(a) && is_one(b) ==> a == b
    &&& forall|a: T, b: T| #![trigger is_pi(a), is_pi(b)] is_pi(a) && is_pi(b) ==> a == b
    &&& forall|v: i32, a: T, b: T|
        #![trigger is_number(v, a), is_number(v, b)]
        is_number(v, a) && is_number(v, b) ==> a == b
    &&& forall|x: T, y: T, a: T, b: T|
        #![trigger is_sum(x, y, a), is_sum(x, y, b)]
        is_sum(x, y, a) && is_sum(x, y, b) ==> a == b
    &&& forall|x: T, y: T, a: T, b: T|
        #![trigger is_product(x, y, a), is_product(x, y, b)]
        is_product(x, y, a) && is_product(x, y, b) ==> a == b
    &&& forall|x: T, y: T, a: T, b: T|
        #![trigger is_quotient(x, y, a), is_quotient(x, y, b)]
        is_quotient(x, y, a) && is_quotient(x, y, b) ==> a == b
    &&& forall|x: T, a: T, b: T|
        #![trigger is_negation(x, a), is_negation(x, b)]
        is_negation(x, a) && is_negation(x, b) ==> a == b
    &&& forall|x: T, a: T, b: T|
        #![trigger is_sine(x, a), is_sine(x, b)]
        is_sine(x, a) && is_sine(x, b) ==> a == b
    &&& forall|x: T, a: T, b: T|
        #![trigger is_cosine(x, a), is_cosine(x, b)]
        is_cosine(x, a) && is_cosine(x, b) ==> a == b
    &&& forall|x: T, y: T, a: bool, b: bool|
        #![trigger is_same(x, y, a), is_same(x, y, b)]
        is_same(x, y, a) && is_same(x, y, b) ==> a == b
    &&& forall|x: T, a: i32, b: i32|
        #![trigger is_truncation(x, a), is_truncation(x, b)]
        is_truncation(x, a) && is_truncation(x, b) ==> a == b
}

/// A difference has one value.
proof fn lemma_difference_unique<T: Real>(x: T, y: T, a: T, b: T)
    requires
        is_deterministic::<T>(),
        is_difference(x, y, a),
        is_difference(x, y, b),
    ensures
        a == b,
{
    let m1 = choose|minus: T| is_negation(y, minus) && #[trigger] is_sum(x, minus, a);
    let m2 = choose|minus: T| is_negation(y, minus) && #[trigger] is_sum(x, minus, b);
    assert(m1 == m2);
}

/// The difference of two vectors in space has one value.
proof fn lemma_vector3d_difference_unique<T: Real>(
    x: Vector3D<T>,
    y: Vector3D<T>,
    a: Vector3D<T>,
    b: Vector3D<T>,
)
    requires
        is_deterministic::<T>(),
        a.is_difference_of(x, y),
        b.is_difference_of(x, y),
    ensures
        a == b,
{
    lemma_difference_unique(x.x, y.x, a.x, b.x);
    lemma_difference_unique(x.y, y.y, a.y, b.y);
    lemma_difference_unique(x.z, y.z, a.z, b.z);
}

/// The difference of two vectors in the plane has one value.
proof fn lemma_vector2d_difference_unique<T: Real>(
    x: Vector2D<T>,
    y: Vector2D<T>,
    a: Vector2D<T>,
    b: Vector2D<T>,
)
    requires
        is_deterministic::<T>(),
        a.is_difference_of(x, y),
        b.is_difference_of(x, y),
    ensures
        a == b,
{
    lemma_difference_unique(x.x, y.x, a.x, b.x);
    lemma_difference_unique(x.y, y.y, a.y, b.y);
}

/// Two matrices have the same shape and the same cells.
pub open spec fn same_cells<T>(a: &Matrix<T>, b: &Matrix<T>) -> bool {
    a.spec_width() == b.spec_width() && a.spec_height() == b.spec_height() && a@ == b@
}

/// A dot product depends on the cells of its operands only, and has one
/// value.
proof fn lemma_partial_dot_unique<T: Real>(
    l1: &Matrix<T>,
    r1: &Matrix<T>,
    l2: &Matrix<T>,
    r2: &Matrix<T>,
    row: int,
    col: int,
    n: nat,
    v1: T,
    v2: T,
)
    requires
        is_deterministic::<T>(),
        same_cells(l1, l2),
        same_cells(r1, r2),
        Matrix::is_partial_dot(l1, r1, row, col, n, v1),
        Matrix::is_partial_dot(l2, r2, row, col, n, v2),
    ensures
        v1 == v2,
    decreases n,
{
    if n > 0 {
        let (acc1, p1) = choose|acc: T, p: T|
            Matrix::is_partial_dot(l1, r1, row, col, (n - 1) as nat, acc) && is_product(
                l1.at(row, n - 1),
                r1.at(n - 1, col),
                p,
            ) && #[trigger] is_sum(acc, p, v1);
        let (acc2, p2) = choose|acc: T, p: T|
            Matrix::is_partial_dot(l2, r2, row, col, (n - 1) as nat, acc) && is_product(
                l2.at(row, n - 1),
                r2.at(n - 1, col),
                p,
            ) && #[trigger] is_sum(acc, p, v2);
        lemma_partial_dot_unique(l1, r1, l2, r2, row, col, (n - 1) as nat, acc1, acc2);
    }
}

/// The product of two matrices has one value, cell by cell.
proof fn lemma_product_unique<T: Real>(
    l1: &Matrix<T>,
    r1: &Matrix<T>,
    l2: &Matrix<T>,
    r2: &Matrix<T>,
    p1: &Matrix<T>,
    p2: &Matrix<T>,
)
    requires
        is_deterministic::<T>(),
        same_cells(l1, l2),
        same_cells(r1, r2),
        p1.is_product_of(l1, r1),
        p2.is_product_of(l2, r2),
    ensures
        same_cells(p1, p2),
{
    let width = p1.spec_width() as int;
    let height = p1.spec_height() as int;
    assert forall|i: int| 0 <= i < p1@.len() implies p1@[i] == p2@[i] by {
        let row = i / width;
        let col = i % width;
        assert(width > 0 && height > 0) by (nonlinear_arith)
            requires
                0 <= i < width * height,
                width >= 0,
                height >= 0,
        ;
        vstd::arithmetic::div_mod::lemma_fundamental_div_mod(i, width);
        vstd::arithmetic::div_mod::lemma_mod_bound(i, width);
        assert(0 <= row < height) by (nonlinear_arith)
            requires
                0 <= i < width * height,
                i == width * row + col,
                0 <= col < width,
        ;
        assert(p1.at(row, col) == p1@[i]);
        assert(p2.at(row, col) == p2@[i]);
        lemma_partial_dot_unique(
            l1,
            r1,
            l2,
            r2,
            row,
            col,
            l1.spec_width(),
            p1.at(row, col),
            p2.at(row, col),
        );
    }
    assert(p1@ =~= p2@);
}

/// The matrix of a turn about x has one value.
proof fn lemma_turn_about_x_unique<T: Real>(angle: T, m1: &Matrix<T>, m2: &Matrix<T>)
    requires
        is_deterministic::<T>(),
        is_turn_about_x(angle, m1),
        is_turn_about_x(angle, m2),
    ensures
        same_cells(m1, m2),
        m1.has_shape(3, 3),
{
}

/// The matrix of a turn about y has one value.
proof fn lemma_turn_about_y_unique<T: Real>(angle: T, m1: &Matrix<T>, m2: &Matrix<T>)
    requires
        is_deterministic::<T>(),
        is_turn_about_y(angle, m1),
        is_turn_about_y(angle, m2),
    ensures
        same_cells(m1, m2),
        m1.has_shape(3, 3),
{
}

/// The matrix of a turn about z has one value.
proof fn lemma_turn_about_z_unique<T: Real>(angle: T, m1: &Matrix<T>, m2: &Matrix<T>)
    requires
        is_deterministic::<T>(),
        is_turn_about_z(angle, m1),
        is_turn_about_z(angle, m2),
    ensures
        same_cells(m1, m2),
        m1.has_shape(3, 3),
{
}

/// The rotation by given angles has one value.
proof fn lemma_rotation_unique<T: Real>(radians: Vector3D<T>, m1: &Matrix<T>, m2: &Matrix<T>)
    requires
        is_deterministic::<T>(),
        is_rotation(radians, m1),
        is_rotation(radians, m2),
    ensures
        same_cells(m1, m2),
{
    let (x1, y1, z1, xy1) = choose|
        about_x: Matrix<T>,
        about_y: Matrix<T>,
        about_z: Matrix<T>,
        about_xy: Matrix<T>,
    |
        #![trigger
            about_xy.is_product_of(&about_x, &about_y),
            m1.is_product_of(&about_xy, &about_z)
        ]
        is_turn_about_x(radians.x, &about_x) && is_turn_about_y(radians.y, &about_y)
            && is_turn_about_z(radians.z, &about_z) && about_xy.is_product_of(&about_x, &about_y)
            && m1.is_product_of(&about_xy, &about_z);
    let (x2, y2, z2, xy2) = choose|
        about_x: Matrix<T>,
        about_y: Matrix<T>,
        about_z: Matrix<T>,
        about_xy: Matrix<T>,
    |
        #![trigger
            about_xy.is_product_of(&about_x, &about_y),
            m2.is_product_of(&about_xy, &about_z)
        ]
        is_turn_about_x(radians.x, &about_x) && is_turn_about_y(radians.y, &about_y)
            && is_turn_about_z(radians.z, &about_z) && about_xy.is_product_of(&about_x, &about_y)
            && m2.is_product_of(&about_xy, &about_z);
    lemma_turn_about_x_unique(radians.x, &x1, &x2);
    lemma_turn_about_y_unique(radians.y, &y1, &y2);
    lemma_turn_about_z_unique(radians.z, &z1, &z2);
    lemma_product_unique(&x1, &y1, &x2, &y2, &xy1, &xy2);
    lemma_product_unique(&xy1, &z1, &xy2, &z2, m1, m2);
}

/// The angles of a vector of degrees have one value in radians.
proof fn lemma_radians_unique<T: Real>(degrees: Vector3D<T>, r1: Vector3D<T>, r2: Vector3D<T>)
    requires
        is_deterministic::<T>(),
        is_in_radians(degrees, r1),
        is_in_radians(degrees, r2),
    ensures
        r1 == r2,
{
    let (pi1, half1, ratio1) = choose|pi: T, half_turn: T, ratio: T|
        #![trigger is_quotient(pi, half_turn, ratio)]
        is_pi(pi) && is_number(HALF_TURN, half_turn) && is_quotient(pi, half_turn, ratio)
            && r1.is_scaling_of(degrees, ratio);
    let (pi2, half2, ratio2) = choose|pi: T, half_turn: T, ratio: T|
        #![trigger is_quotient(pi, half_turn, ratio)]
        is_pi(pi) && is_number(HALF_TURN, half_turn) && is_quotient(pi, half_turn, ratio)
            && r2.is_scaling_of(degrees, ratio);
    assert(pi1 == pi2);
    assert(half1 == half2);
    assert(ratio1 == ratio2);
}

/// A rotation applied to a point has one value.
proof fn lemma_applied_unique<T: Real>(
    m1: &Matrix<T>,
    m2: &Matrix<T>,
    point: Vector3D<T>,
    t1: Vector3D<T>,
    t2: Vector3D<T>,
)
    requires
        is_deterministic::<T>(),
        same_cells(m1, m2),
        is_applied(m1, point, t1),
        is_applied(m2, point, t2),
    ensures
        t1 == t2,
{
    let (c1, i1) = choose|column: Matrix<T>, image: Matrix<T>|
        #![trigger image.is_product_of(m1, &column)]
        point.is_column(&column) && image.is_product_of(m1, &column) && Vector3D::spec_from_matrix(
            &image,
        ) == Some(t1);
    let (c2, i2) = choose|column: Matrix<T>, image: Matrix<T>|
        #![trigger image.is_product_of(m2, &column)]
        point.is_column(&column) && image.is_product_of(m2, &column) && Vector3D::spec_from_matrix(
            &image,
        ) == Some(t2);
    lemma_product_unique(m1, &c1, m2, &c2, &i1, &i2);
}

/// A vertex has one place before the camera.
pub proof fn lemma_world_position_unique<T: Real>(
    transform: &Transform<T>,
    vertex: &Vector3D<T>,
    camera: Vector3D<T>,
    w1: Vector3D<T>,
    w2: Vector3D<T>,
)
    requires
        is_deterministic::<T>(),
        is_world_position(transform, vertex, camera, w1),
        is_world_position(transform, vertex, camera, w2),
    ensures
        w1 == w2,
{
    let (rad1, scaled1, rot1, turned1, moved1) = choose|
        radians: Vector3D<T>,
        scaled: Vector3D<T>,
        rotation: Matrix<T>,
        turned: Vector3D<T>,
        moved: Vector3D<T>,
    |
        #![trigger
            is_in_radians(transform.rotation, radians),
            scaled.is_product_of(*vertex, transform.scale),
            is_applied(&rotation, scaled, turned),
            moved.is_sum_of(turned, transform.position)
        ]
        is_in_radians(transform.rotation, radians) && scaled.is_product_of(
            *vertex,
            transform.scale,
        ) && is_rotation(radians, &rotation) && is_applied(&rotation, scaled, turned)
            && moved.is_sum_of(turned, transform.position) && w1.is_difference_of(moved, camera);
    let (rad2, scaled2, rot2, turned2, moved2) = choose|
        radians: Vector3D<T>,
        scaled: Vector3D<T>,
        rotation: Matrix<T>,
        turned: Vector3D<T>,
        moved: Vector3D<T>,
    |
        #![trigger
            is_in_radians(transform.rotation, radians),
            scaled.is_product_of(*vertex, transform.scale),
            is_applied(&rotation, scaled, turned),
            moved.is_sum_of(turned, transform.position)
        ]
        is_in_radians(transform.rotation, radians) && scaled.is_product_of(
            *vertex,
            transform.scale,
        ) && is_rotation(radians, &rotation) && is_applied(&rotation, scaled, turned)
            && moved.is_sum_of(turned, transform.position) && w2.is_difference_of(moved, camera);
    lemma_radians_unique(transform.rotation, rad1, rad2);
    assert(scaled1 == scaled2);
    lemma_rotation_unique(rad1, &rot1, &rot2);
    lemma_applied_unique(&rot1, &rot2, scaled1, turned1, turned2);
    assert(moved1 == moved2);
    lemma_vector3d_difference_unique(moved1, camera, w1, w2);
}

/// A coordinate has one pixel.
proof fn lemma_pixel_unique<T: Real>(coordinate: T, origin: i32, p1: i32, p2: i32)
    requires
        is_deterministic::<T>(),
        is_pixel(coordinate, origin, p1),
        is_pixel(coordinate, origin, p2),
    ensures
        p1 == p2,
{
}

/// A coordinate has one perspective image.
proof fn lemma_perspective_unique<T: Real>(
    coordinate: T,
    resolution: T,
    depth: T,
    extent: T,
    plane: T,
    r1: T,
    r2: T,
)
    requires
        is_deterministic::<T>(),
        is_perspective(coordinate, resolution, depth, extent, plane, r1),
        is_perspective(coordinate, resolution, depth, extent, plane, r2),
    ensures
        r1 == r2,
{
}

impl<T: Real> Renderer<T> {
    /// The flat projection of a vertex is one pixel.
    pub proof fn lemma_2d_projection_unique(
        &self,
        transform: &Transform<T>,
        vertex: &Vector3D<T>,
        origin_pos: (i32, i32),
        a: (i32, i32),
        b: (i32, i32),
    )
        requires
            is_deterministic::<T>(),
            self.is_2d_projection(transform, vertex, origin_pos, a),
            self.is_2d_projection(transform, vertex, origin_pos, b),
        ensures
            a == b,
    {
        if self.allow_3d_rotation {
            let (w1, x1, y1) = choose|world: Vector3D<T>, x: T, y: T|
                #![trigger
                    is_sum(world.x, transform.position.x, x),
                    is_sum(world.y, transform.position.y, y)
                ]
                is_world_position(transform, vertex, self.camera.transform.position, world)
                    && is_sum(world.x, transform.position.x, x) && is_sum(
                    world.y,
                    transform.position.y,
                    y,
                ) && is_pixel(x, origin_pos.0, a.0) && is_pixel(y, origin_pos.1, a.1);
            let (w2, x2, y2) = choose|world: Vector3D<T>, x: T, y: T|
                #![trigger
                    is_sum(world.x, transform.position.x, x),
                    is_sum(world.y, transform.position.y, y)
                ]
                is_world_position(transform, vertex, self.camera.transform.position, world)
                    && is_sum(world.x, transform.position.x, x) && is_sum(
                    world.y,
                    transform.position.y,
                    y,
                ) && is_pixel(x, origin_pos.0, b.0) && is_pixel(y, origin_pos.1, b.1);
            lemma_world_position_unique(
                transform,
                vertex,
                self.camera.transform.position,
                w1,
                w2,
            );
            assert(x1 == x2 && y1 == y2);
            lemma_pixel_unique(x1, origin_pos.0, a.0, b.0);
            lemma_pixel_unique(y1, origin_pos.1, a.1, b.1);
        } else {
            let (x1, y1) = choose|x: T, y: T|
                #![trigger
                    is_sum(vertex.x, transform.position.x, x),
                    is_sum(vertex.y, transform.position.y, y)
                ]
                is_sum(vertex.x, transform.position.x, x) && is_sum(
                    vertex.y,
                    transform.position.y,
                    y,
                ) && is_pixel(x, origin_pos.0, a.0) && is_pixel(y, origin_pos.1, a.1);
            let (x2, y2) = choose|x: T, y: T|
                #![trigger
                    is_sum(vertex.x, transform.position.x, x),
                    is_sum(vertex.y, transform.position.y, y)
                ]
                is_sum(vertex.x, transform.position.x, x) && is_sum(
                    vertex.y,
                    transform.position.y,
                    y,
                ) && is_pixel(x, origin_pos.0, b.0) && is_pixel(y, origin_pos.1, b.1);
            assert(x1 == x2 && y1 == y2);
            lemma_pixel_unique(x1, origin_pos.0, a.0, b.0);
            lemma_pixel_unique(y1, origin_pos.1, a.1, b.1);
        }
    }

    /// The perspective projection of a vertex is one pixel.
    pub proof fn lemma_3d_projection_unique(
        &self,
        transform: &Transform<T>,
        vertex: &Vector3D<T>,
        origin_pos: (i32, i32),
        a: (i32, i32),
        b: (i32, i32),
    )
        requires
            is_deterministic::<T>(),
            self.is_3d_projection(transform, vertex, origin_pos, a),
            self.is_3d_projection(transform, vertex, origin_pos, b),
        ensures
            a == b,
    {
        let (w1, zero1, flat1) = choose|world: Vector3D<T>, zero: T, flat: bool| #[trigger]
            self.is_3d_projection_from(transform, vertex, origin_pos, a, world, zero, flat);
        let (w2, zero2, flat2) = choose|world: Vector3D<T>, zero: T, flat: bool| #[trigger]
            self.is_3d_projection_from(transform, vertex, origin_pos, b, world, zero, flat);
        lemma_world_position_unique(transform, vertex, self.camera.transform.position, w1, w2);
        assert(zero1 == zero2);
        assert(flat1 == flat2);
        if !flat1 {
            let (e1, x1, y1) = choose|extent: Vector2D<T>, x: T, y: T| #[trigger]
                self.is_divided(w1, origin_pos, a, extent, x, y);
            let (e2, x2, y2) = choose|extent: Vector2D<T>, x: T, y: T| #[trigger]
                self.is_divided(w1, origin_pos, b, extent, x, y);
            lemma_vector2d_difference_unique(
                self.camera.view_plane_bottom_right,
                self.camera.view_plane_top_left,
                e1,
                e2,
            );
            lemma_perspective_unique(
                w1.x,
                self.resolution_x,
                w1.z,
                e1.x,
                self.camera.view_plane_z,
                x1,
                x2,
            );
            lemma_perspective_unique(
                w1.y,
                self.resolution_y,
                w1.z,
                e1.y,
                self.camera.view_plane_z,
                y1,
                y2,
            );
            lemma_pixel_unique(x1, origin_pos.0, a.0, b.0);
            lemma_pixel_unique(y1, origin_pos.1, a.1, b.1);
        }
    }

    /// Projection is a function of the renderer, the pose, the vertex and
    /// the size of the window: where every operation of the scalar type
    /// gives one result for one choice of operands, a vertex is projected to
    /// one pixel.
    pub proof fn lemma_projection_unique(
        &self,
        transform: &Transform<T>,
        vertex: &Vector3D<T>,
        window_size: (i32, i32),
        a: (i32, i32),
        b: (i32, i32),
    )
        requires
            is_deterministic::<T>(),
            self.is_projection(transform, vertex, window_size, a),
            self.is_projection(transform, vertex, window_size, b),
        ensures
            a == b,
    {
        let origin_pos = anchor(self.origin, window_size);
        match self.mode {
            RenderMode::R2D => self.lemma_2d_projection_unique(transform, vertex, origin_pos, a, b),
            RenderMode::R3D => self.lemma_3d_projection_unique(transform, vertex, origin_pos, a, b),
        }
    }
}

} // verus!
