//! The shapes a scene is made of: a pose, a wireframe and two colours each.

use vstd::prelude::*;

use crate::color::{Color, ColorMode};
use crate::linearalgebra::Vector3D;
use crate::scalar::{
    is_cosine, is_less, is_negation, is_number, is_pi, is_product, is_quotient, is_sine, is_sum,
    is_zero, Real,
};
use crate::simulator::Simulator;
use crate::transform::Transform;

verus! {

/// Hands out the numbers that objects are known by, counting up from zero
/// and starting again at zero after the largest number.
pub struct IdAllocator {
    next: usize,
}

/// The number handed out `n` allocations after `start` was.
pub open spec fn nth_id(start: usize, n: nat) -> usize {
    ((start + n) % (usize::MAX + 1)) as usize
}

impl IdAllocator {
    /// The number that is handed out next.
    pub closed spec fn spec_next(&self) -> usize {
        self.next
    }

    pub fn new() -> (ids: Self)
        ensures
            ids.spec_next() == 0,
    {
        Self { next: 0 }
    }

    /// An allocator that hands out `next` first.
    pub fn starting_at(next: usize) -> (ids: Self)
        ensures
            ids.spec_next() == next,
    {
        Self { next }
    }

    /// Hands out the next number.
    pub fn new_id(&mut self) -> (id: usize)
        ensures
            id == old(self).spec_next(),
            final(self).spec_next() == nth_id(id, 1),
    {
        let id = self.next;
        proof {
            if id == usize::MAX {
                vstd::arithmetic::div_mod::lemma_mod_self_0(usize::MAX + 1);
            } else {
                vstd::arithmetic::div_mod::lemma_small_mod((id + 1) as nat, (usize::MAX + 1) as nat);
            }
        }
        self.next = if id == usize::MAX {
            0
        } else {
            id + 1
        };
        id
    }

    /// Allocations follow `nth_id`: the number handed out after `n + 1`
    /// allocations is the successor of the one handed out after `n`.
    pub proof fn lemma_nth_id_step(start: usize, n: nat)
        ensures
            nth_id(start, 0) == start,
            nth_id(start, n + 1) == nth_id(nth_id(start, n), 1),
    {
        let m = usize::MAX + 1;
        assert(((start + n) % m + 1) % m == (start + n + 1) % m) by (nonlinear_arith)
            requires
                m > 0,
                start + n >= 0,
        ;
    }

    /// No number is handed out twice among as many allocations in a row as
    /// there are numbers.
    pub proof fn lemma_ids_distinct(start: usize, i: nat, j: nat)
        requires
            i < j,
            j - i <= usize::MAX,
        ensures
            nth_id(start, i) != nth_id(start, j),
    {
        let m = usize::MAX + 1;
        if nth_id(start, i) == nth_id(start, j) {
            assert(false) by (nonlinear_arith)
                requires
                    m > 0,
                    0 < j - i < m,
                    0 <= start,
                    (start + i) % m == (start + j) % m,
            {
                let a = start + i;
                let b = start + j;
                assert(a == m * (a / m) + a % m);
                assert(b == m * (b / m) + b % m);
                assert(b - a == m * (b / m - a / m));
                assert(b / m - a / m >= 1 ==> m * (b / m - a / m) >= m);
                assert(b / m - a / m <= 0 ==> m * (b / m - a / m) <= 0);
            }
        }
    }
}

/// A corner of a wireframe: where it lies relative to its object, and which
/// other corners it is joined to.
#[derive(Debug)]
pub struct Vertex<T> {
    rel_pos: Vector3D<T>,
    connects: Vec<usize>,
}

impl<T> Vertex<T> {
    pub closed spec fn spec_rel_pos(&self) -> Vector3D<T> {
        self.rel_pos
    }

    /// The corners this one is joined to, by their place in the wireframe.
    pub closed spec fn spec_connections(&self) -> Seq<usize> {
        self.connects@
    }
}

impl<T: Real> Vertex<T> {
    /// A corner that is joined to nothing.
    pub fn new(rel_pos: Vector3D<T>) -> (vertex: Self)
        ensures
            vertex.spec_rel_pos() == rel_pos,
            vertex.spec_connections() == Seq::<usize>::empty(),
    {
        Self { rel_pos, connects: Vec::new() }
    }

    pub fn get_rel_pos(&self) -> (rel_pos: Vector3D<T>)
        ensures
            rel_pos == self.spec_rel_pos(),
    {
        self.rel_pos
    }

    pub fn get_connections(&self) -> (connects: &Vec<usize>)
        ensures
            connects@ == self.spec_connections(),
    {
        &self.connects
    }

    /// Joins this corner to the corner at `index`.
    pub fn add_connection(&mut self, index: usize) -> (same: &mut Self)
        ensures
            same.spec_rel_pos() == old(self).spec_rel_pos(),
            same.spec_connections() == old(self).spec_connections().push(index),
            *final(self) == *final(same),
    {
        self.connects.push(index);
        self
    }

    /// Joins this corner to each of the corners at `indexs`, in order.
    pub fn add_connections(&mut self, indexs: Vec<usize>) -> (same: &mut Self)
        ensures
            same.spec_rel_pos() == old(self).spec_rel_pos(),
            same.spec_connections() == old(self).spec_connections() + indexs@,
            *final(self) == *final(same),
    {
        let mut i: usize = 0;
        while i < indexs.len()
            invariant
                i <= indexs.len(),
                self.rel_pos == old(self).rel_pos,
                self.connects@ == old(self).connects@ + indexs@.take(i as int),
            decreases indexs.len() - i,
        {
            self.connects.push(indexs[i]);
            assert(indexs@.take(i + 1) =~= indexs@.take(i as int).push(indexs@[i as int]));
            assert(self.connects@ =~= old(self).connects@ + indexs@.take(i + 1));
            i += 1;
        }
        assert(indexs@.take(i as int) =~= indexs@);
        self
    }
}

/// Every corner is joined to corners of the same wireframe only.
pub open spec fn is_mesh<T>(vertices: Seq<Vertex<T>>) -> bool {
    forall|i: int, k: int|
        0 <= i < vertices.len() && 0 <= k < vertices[i].spec_connections().len()
            ==> #[trigger] vertices[i].spec_connections()[k] < vertices.len()
}

/// The joins of each corner of `vertices`, corner by corner.
pub open spec fn links_of<T>(vertices: Seq<Vertex<T>>) -> Seq<Seq<usize>> {
    Seq::new(vertices.len(), |i: int| vertices[i].spec_connections())
}

/// The positions of the corners of `vertices`, corner by corner.
pub open spec fn corners_of<T>(vertices: Seq<Vertex<T>>) -> Seq<Vector3D<T>> {
    Seq::new(vertices.len(), |i: int| vertices[i].spec_rel_pos())
}

/// A wireframe whose joins all lead to corners of its own.
#[derive(Debug)]
pub struct Mesh<T> {
    vertices: Vec<Vertex<T>>,
}

impl<T> View for Mesh<T> {
    type V = Seq<Vertex<T>>;

    closed spec fn view(&self) -> Seq<Vertex<T>> {
        self.vertices@
    }
}

impl<T> Mesh<T> {
    #[verifier::type_invariant]
    pub closed spec fn well_formed(&self) -> bool {
        is_mesh(self.vertices@)
    }
}

impl<T: Real> Mesh<T> {
    /// The wireframe of `vertices`.
    pub fn new(vertices: Vec<Vertex<T>>) -> (mesh: Self)
        requires
            is_mesh(vertices@),
        ensures
            mesh@ == vertices@,
    {
        Self { vertices }
    }

    pub fn vertices(&self) -> (vertices: &Vec<Vertex<T>>)
        ensures
            vertices@ == self@,
            is_mesh(vertices@),
    {
        proof {
            use_type_invariant(self);
        }
        &self.vertices
    }
}

/// What can be seen of an object: its number, its pose now and when it was
/// last cached, its wireframe and its colours.
pub struct ObjectView<T> {
    pub id: usize,
    pub transform: Transform<T>,
    pub cached_transform: Transform<T>,
    pub vertices: Seq<Vertex<T>>,
    pub frame_color: Color,
    pub fill_color: Color,
}

impl<T> ObjectView<T> {
    /// The same object once it has cached its current pose.
    pub open spec fn cached(self) -> ObjectView<T> {
        ObjectView { cached_transform: self.transform, ..self }
    }
}

/// Something that a simulator can draw.
pub trait Object<T: Real>: Sized {
    /// What can be seen of this object.
    spec fn shown(&self) -> ObjectView<T>;

    /// This object as the simulator keeps it.
    spec fn spec_shape(self) -> Shape<T>;

    fn get_id(&self) -> (id: usize)
        ensures
            id == self.shown().id,
    ;

    /// Hands this object over to `registrar`, which keeps it under its number.
    fn register(self, registrar: &mut Simulator<T>) -> (id: usize)
        requires
            old(registrar).well_formed(),
        ensures
            id == self.shown().id,
            final(registrar).is_registration_of(old(registrar), id, self.spec_shape()),
    ;

    fn transform(&self) -> (transform: &Transform<T>)
        ensures
            *transform == self.shown().transform,
    ;

    /// The pose, to be changed in place.
    fn transform_mut(&mut self) -> (transform: &mut Transform<T>)
        ensures
            *transform == old(self).shown().transform,
            final(self).shown() == (ObjectView { transform: *final(transform), ..old(self).shown() }),
    ;

    fn get_vertices(&self) -> (vertices: &Vec<Vertex<T>>)
        ensures
            vertices@ == self.shown().vertices,
            is_mesh(vertices@),
    ;

    fn get_frame_color(&self) -> (color: Color)
        ensures
            color == self.shown().frame_color,
    ;

    /// Sets the colour of the outline. An object of a single colour takes it
    /// as its fill colour too.
    fn set_frame_color(&mut self, color: Color)
        ensures
            final(self).shown() == (ObjectView {
                frame_color: color,
                fill_color: final(self).shown().fill_color,
                ..old(self).shown()
            }),
            final(self).shown().fill_color == old(self).shown().fill_color
                || final(self).shown().fill_color == color,
    ;

    fn get_fill_color(&self) -> (color: Color)
        ensures
            color == self.shown().fill_color,
    ;

    /// Sets the colour of the inside. An object of a single colour takes it
    /// as its outline colour too.
    fn set_fill_color(&mut self, color: Color)
        ensures
            final(self).shown() == (ObjectView {
                fill_color: color,
                frame_color: final(self).shown().frame_color,
                ..old(self).shown()
            }),
            final(self).shown().frame_color == old(self).shown().frame_color
                || final(self).shown().frame_color == color,
    ;

    /// The pose that was current when `cache_transform` was last called.
    fn get_cached_transform(&self) -> (transform: &Transform<T>)
        ensures
            *transform == self.shown().cached_transform,
    ;

    /// Remembers the current pose as the one that was drawn last.
    fn cache_transform(&mut self)
        ensures
            final(self).shown() == old(self).shown().cached(),
    ;
}

/// An object of any of the shapes this library knows.
#[derive(Debug)]
pub enum Shape<T> {
    Cube(Cube<T>),
    Spot(Spot<T>),
    Circle(Circle<T>),
    Quad(Quad<T>),
}

/// A cube with edges of length two about its own origin.
#[derive(Debug)]
pub struct Cube<T> {
    transform: Transform<T>,
    cached_transform: Transform<T>,
    mesh: Mesh<T>,
    frame_color: Color,
    fill_color: Color,
    id: usize,
}

/// A single point.
#[derive(Debug)]
pub struct Spot<T> {
    transform: Transform<T>,
    cached_transform: Transform<T>,
    mesh: Mesh<T>,
    color: Color,
    id: usize,
}

/// A circle in the plane, drawn as a closed chain of short lines.
#[derive(Debug)]
pub struct Circle<T> {
    transform: Transform<T>,
    cached_transform: Transform<T>,
    frame_color: Color,
    fill_color: Color,
    radius: T,
    mesh: Mesh<T>,
    id: usize,
}

/// A four-cornered outline in the plane.
#[derive(Debug)]
pub struct Quad<T> {
    transform: Transform<T>,
    cached_transform: Transform<T>,
    frame_color: Color,
    fill_color: Color,
    mesh: Mesh<T>,
    id: usize,
}

/// Makes quads with four equal sides.
pub struct Square {}

/// Makes quads with two pairs of equal sides.
pub struct Rectangle {}

impl<T: Real> Object<T> for Cube<T> {
    closed spec fn shown(&self) -> ObjectView<T> {
        ObjectView {
            id: self.id,
            transform: self.transform,
            cached_transform: self.cached_transform,
            vertices: self.mesh@,
            frame_color: self.frame_color,
            fill_color: self.fill_color,
        }
    }

    open spec fn spec_shape(self) -> Shape<T> {
        Shape::Cube(self)
    }

    fn get_id(&self) -> (id: usize) {
        self.id
    }

    fn register(self, registrar: &mut Simulator<T>) -> (id: usize) {
        registrar.add_object(Shape::Cube(self))
    }

    fn transform(&self) -> (transform: &Transform<T>) {
        &self.transform
    }

    fn transform_mut(&mut self) -> (transform: &mut Transform<T>) {
        &mut self.transform
    }

    fn get_vertices(&self) -> (vertices: &Vec<Vertex<T>>) {
        self.mesh.vertices()
    }

    fn get_frame_color(&self) -> (color: Color) {
        self.frame_color
    }

    fn set_frame_color(&mut self, color: Color)
        ensures
            final(self).shown().fill_color == old(self).shown().fill_color,
    {
        self.frame_color = color;
    }

    fn get_fill_color(&self) -> (color: Color) {
        self.fill_color
    }

    fn set_fill_color(&mut self, color: Color)
        ensures
            final(self).shown().frame_color == old(self).shown().frame_color,
    {
        self.fill_color = color;
    }

    fn get_cached_transform(&self) -> (transform: &Transform<T>) {
        &self.cached_transform
    }

    fn cache_transform(&mut self) {
        self.cached_transform = self.transform;
    }
}

impl<T: Real> Object<T> for Spot<T> {
    closed spec fn shown(&self) -> ObjectView<T> {
        ObjectView {
            id: self.id,
            transform: self.transform,
            cached_transform: self.cached_transform,
            vertices: self.mesh@,
            frame_color: self.color,
            fill_color: self.color,
        }
    }

    open spec fn spec_shape(self) -> Shape<T> {
        Shape::Spot(self)
    }

    fn get_id(&self) -> (id: usize) {
        self.id
    }

    fn register(self, registrar: &mut Simulator<T>) -> (id: usize) {
        registrar.add_object(Shape::Spot(self))
    }

    fn transform(&self) -> (transform: &Transform<T>) {
        &self.transform
    }

    fn transform_mut(&mut self) -> (transform: &mut Transform<T>) {
        &mut self.transform
    }

    fn get_vertices(&self) -> (vertices: &Vec<Vertex<T>>) {
        self.mesh.vertices()
    }

    fn get_frame_color(&self) -> (color: Color) {
        self.get_fill_color()
    }

    fn set_frame_color(&mut self, color: Color)
        ensures
            final(self).shown().fill_color == color,
    {
        self.set_fill_color(color);
    }

    fn get_fill_color(&self) -> (color: Color) {
        self.color
    }

    fn set_fill_color(&mut self, color: Color)
        ensures
            final(self).shown().frame_color == color,
    {
        self.color = color;
    }

    fn get_cached_transform(&self) -> (transform: &Transform<T>) {
        &self.cached_transform
    }

    fn cache_transform(&mut self) {
        self.cached_transform = self.transform;
    }
}

impl<T: Real> Object<T> for Circle<T> {
    closed spec fn shown(&self) -> ObjectView<T> {
        ObjectView {
            id: self.id,
            transform: self.transform,
            cached_transform: self.cached_transform,
            vertices: self.mesh@,
            frame_color: self.frame_color,
            fill_color: self.fill_color,
        }
    }

    open spec fn spec_shape(self) -> Shape<T> {
        Shape::Circle(self)
    }

    fn get_id(&self) -> (id: usize) {
        self.id
    }

    fn register(self, registrar: &mut Simulator<T>) -> (id: usize) {
        registrar.add_object(Shape::Circle(self))
    }

    fn transform(&self) -> (transform: &Transform<T>) {
        &self.transform
    }

    fn transform_mut(&mut self) -> (transform: &mut Transform<T>) {
        &mut self.transform
    }

    fn get_vertices(&self) -> (vertices: &Vec<Vertex<T>>) {
        self.mesh.vertices()
    }

    fn get_frame_color(&self) -> (color: Color) {
        self.frame_color
    }

    fn set_frame_color(&mut self, color: Color)
        ensures
            final(self).shown().fill_color == old(self).shown().fill_color,
    {
        self.frame_color = color;
    }

    fn get_fill_color(&self) -> (color: Color) {
        self.fill_color
    }

    fn set_fill_color(&mut self, color: Color)
        ensures
            final(self).shown().frame_color == old(self).shown().frame_color,
    {
        self.fill_color = color;
    }

    fn get_cached_transform(&self) -> (transform: &Transform<T>) {
        &self.cached_transform
    }

    fn cache_transform(&mut self) {
        self.cached_transform = self.transform;
    }
}

impl<T: Real> Object<T> for Quad<T> {
    closed spec fn shown(&self) -> ObjectView<T> {
        ObjectView {
            id: self.id,
            transform: self.transform,
            cached_transform: self.cached_transform,
            vertices: self.mesh@,
            frame_color: self.frame_color,
            fill_color: self.fill_color,
        }
    }

    open spec fn spec_shape(self) -> Shape<T> {
        Shape::Quad(self)
    }

    fn get_id(&self) -> (id: usize) {
        self.id
    }

    fn register(self, registrar: &mut Simulator<T>) -> (id: usize) {
        registrar.add_object(Shape::Quad(self))
    }

    fn transform(&self) -> (transform: &Transform<T>) {
        &self.transform
    }

    fn transform_mut(&mut self) -> (transform: &mut Transform<T>) {
        &mut self.transform
    }

    fn get_vertices(&self) -> (vertices: &Vec<Vertex<T>>) {
        self.mesh.vertices()
    }

    fn get_frame_color(&self) -> (color: Color) {
        self.frame_color
    }

    fn set_frame_color(&mut self, color: Color)
        ensures
            final(self).shown().fill_color == old(self).shown().fill_color,
    {
        self.frame_color = color;
    }

    fn get_fill_color(&self) -> (color: Color) {
        self.fill_color
    }

    fn set_fill_color(&mut self, color: Color)
        ensures
            final(self).shown().frame_color == old(self).shown().frame_color,
    {
        self.fill_color = color;
    }

    fn get_cached_transform(&self) -> (transform: &Transform<T>) {
        &self.cached_transform
    }

    fn cache_transform(&mut self) {
        self.cached_transform = self.transform;
    }
}

impl<T: Real> Object<T> for Shape<T> {
    open spec fn shown(&self) -> ObjectView<T> {
        match self {
            Shape::Cube(cube) => cube.shown(),
            Shape::Spot(spot) => spot.shown(),
            Shape::Circle(circle) => circle.shown(),
            Shape::Quad(quad) => quad.shown(),
        }
    }

    open spec fn spec_shape(self) -> Shape<T> {
        self
    }

    fn get_id(&self) -> (id: usize) {
        match self {
            Shape::Cube(cube) => cube.get_id(),
            Shape::Spot(spot) => spot.get_id(),
            Shape::Circle(circle) => circle.get_id(),
            Shape::Quad(quad) => quad.get_id(),
        }
    }

    fn register(self, registrar: &mut Simulator<T>) -> (id: usize) {
        registrar.add_object(self)
    }

    fn transform(&self) -> (transform: &Transform<T>) {
        match self {
            Shape::Cube(cube) => cube.transform(),
            Shape::Spot(spot) => spot.transform(),
            Shape::Circle(circle) => circle.transform(),
            Shape::Quad(quad) => quad.transform(),
        }
    }

    fn transform_mut(&mut self) -> (transform: &mut Transform<T>) {
        match self {
            Shape::Cube(cube) => cube.transform_mut(),
            Shape::Spot(spot) => spot.transform_mut(),
            Shape::Circle(circle) => circle.transform_mut(),
            Shape::Quad(quad) => quad.transform_mut(),
        }
    }

    fn get_vertices(&self) -> (vertices: &Vec<Vertex<T>>) {
        match self {
            Shape::Cube(cube) => cube.get_vertices(),
            Shape::Spot(spot) => spot.get_vertices(),
            Shape::Circle(circle) => circle.get_vertices(),
            Shape::Quad(quad) => quad.get_vertices(),
        }
    }

    fn get_frame_color(&self) -> (color: Color) {
        match self {
            Shape::Cube(cube) => cube.get_frame_color(),
            Shape::Spot(spot) => spot.get_frame_color(),
            Shape::Circle(circle) => circle.get_frame_color(),
            Shape::Quad(quad) => quad.get_frame_color(),
        }
    }

    fn set_frame_color(&mut self, color: Color)
        ensures
            final(self).shown().fill_color == if *old(self) is Spot {
                color
            } else {
                old(self).shown().fill_color
            },
    {
        match self {
            Shape::Cube(cube) => cube.set_frame_color(color),
            Shape::Spot(spot) => spot.set_frame_color(color),
            Shape::Circle(circle) => circle.set_frame_color(color),
            Shape::Quad(quad) => quad.set_frame_color(color),
        }
    }

    fn get_fill_color(&self) -> (color: Color) {
        match self {
            Shape::Cube(cube) => cube.get_fill_color(),
            Shape::Spot(spot) => spot.get_fill_color(),
            Shape::Circle(circle) => circle.get_fill_color(),
            Shape::Quad(quad) => quad.get_fill_color(),
        }
    }

    fn set_fill_color(&mut self, color: Color)
        ensures
            final(self).shown().frame_color == if *old(self) is Spot {
                color
            } else {
                old(self).shown().frame_color
            },
    {
        match self {
            Shape::Cube(cube) => cube.set_fill_color(color),
            Shape::Spot(spot) => spot.set_fill_color(color),
            Shape::Circle(circle) => circle.set_fill_color(color),
            Shape::Quad(quad) => quad.set_fill_color(color),
        }
    }

    fn get_cached_transform(&self) -> (transform: &Transform<T>) {
        match self {
            Shape::Cube(cube) => cube.get_cached_transform(),
            Shape::Spot(spot) => spot.get_cached_transform(),
            Shape::Circle(circle) => circle.get_cached_transform(),
            Shape::Quad(quad) => quad.get_cached_transform(),
        }
    }

    fn cache_transform(&mut self) {
        match self {
            Shape::Cube(cube) => cube.cache_transform(),
            Shape::Spot(spot) => spot.cache_transform(),
            Shape::Circle(circle) => circle.cache_transform(),
            Shape::Quad(quad) => quad.cache_transform(),
        }
    }
}

/// The coordinate of the cube's corners on the far side of each axis.
pub const CUBE_NEAR: i32 = -1;

/// The coordinate of the cube's corners on the near side of each axis.
pub const CUBE_FAR: i32 = 1;

/// The joins of a cube, corner by corner.
pub open spec fn cube_links() -> Seq<Seq<usize>> {
    seq![
        seq![1usize, 2usize, 4usize],
        seq![0usize, 3usize, 5usize],
        seq![0usize, 3usize, 6usize],
        seq![1usize, 2usize, 7usize],
        seq![5usize, 6usize],
        seq![4usize, 7usize],
        seq![4usize, 7usize],
        seq![5usize, 6usize],
    ]
}

/// Corner `i` of a cube whose coordinates are `near` and `far`: x changes
/// with every corner, z with every other, y with every fourth.
pub open spec fn cube_corner<T>(i: int, near: T, far: T) -> Vector3D<T> {
    Vector3D {
        x: if i % 2 == 0 {
            near
        } else {
            far
        },
        y: if i < 4 {
            near
        } else {
            far
        },
        z: if (i / 2) % 2 == 0 {
            near
        } else {
            far
        },
    }
}

/// `vertices` is a wireframe that a cube may have.
pub open spec fn is_cube<T: Real>(vertices: Seq<Vertex<T>>) -> bool {
    exists|near: T, far: T|
        #![trigger is_number(CUBE_NEAR, near), is_number(CUBE_FAR, far)]
        is_number(CUBE_NEAR, near) && is_number(CUBE_FAR, far) && vertices.len() == 8 && links_of(
            vertices,
        ) == cube_links() && corners_of(vertices) == Seq::new(
            8,
            |i: int| cube_corner(i, near, far),
        )
}

impl<T: Real> Cube<T> {
    /// A black cube at the origin, known by the next number of `ids`.
    pub fn new(ids: &mut IdAllocator) -> (cube: Self)
        ensures
            cube.shown().id == old(ids).spec_next(),
            final(ids).spec_next() == nth_id(old(ids).spec_next(), 1),
            cube.shown().transform.is_unposed(),
            cube.shown().cached_transform.is_unposed(),
            is_cube(cube.shown().vertices),
            cube.shown().frame_color == (Color { r: 0, g: 0, b: 0, a: 0xff, mode: ColorMode::RGB }),
            cube.shown().fill_color == cube.shown().frame_color,
    {
        let near = T::from_i32(CUBE_NEAR);
        let far = T::from_i32(CUBE_FAR);
        let vertices = vec![
            Vertex { rel_pos: Vector3D { x: near, y: near, z: near }, connects: vec![1, 2, 4] },
            Vertex { rel_pos: Vector3D { x: far, y: near, z: near }, connects: vec![0, 3, 5] },
            Vertex { rel_pos: Vector3D { x: near, y: near, z: far }, connects: vec![0, 3, 6] },
            Vertex { rel_pos: Vector3D { x: far, y: near, z: far }, connects: vec![1, 2, 7] },
            Vertex { rel_pos: Vector3D { x: near, y: far, z: near }, connects: vec![5, 6] },
            Vertex { rel_pos: Vector3D { x: far, y: far, z: near }, connects: vec![4, 7] },
            Vertex { rel_pos: Vector3D { x: near, y: far, z: far }, connects: vec![4, 7] },
            Vertex { rel_pos: Vector3D { x: far, y: far, z: far }, connects: vec![5, 6] },
        ];
        proof {
            assert(links_of(vertices@) =~= cube_links()) by {
                assert(vertices@[0].connects@ =~= cube_links()[0]);
                assert(vertices@[1].connects@ =~= cube_links()[1]);
                assert(vertices@[2].connects@ =~= cube_links()[2]);
                assert(vertices@[3].connects@ =~= cube_links()[3]);
                assert(vertices@[4].connects@ =~= cube_links()[4]);
                assert(vertices@[5].connects@ =~= cube_links()[5]);
                assert(vertices@[6].connects@ =~= cube_links()[6]);
                assert(vertices@[7].connects@ =~= cube_links()[7]);
            }
            assert(corners_of(vertices@) =~= Seq::new(8, |i: int| cube_corner(i, near, far)));
            assert(is_mesh(vertices@)) by {
                assert forall|i: int, k: int|
                    0 <= i < vertices@.len() && 0 <= k < vertices@[i].spec_connections().len()
                    implies #[trigger] vertices@[i].spec_connections()[k] < vertices@.len() by {
                    assert(vertices@[i].spec_connections() == links_of(vertices@)[i]);
                    assert(links_of(vertices@)[i] == cube_links()[i]);
                }
            }
            assert(is_number(CUBE_NEAR, near) && is_number(CUBE_FAR, far));
        }
        let black = Color::black();
        Self {
            id: ids.new_id(),
            transform: Transform::new(),
            cached_transform: Transform::new(),
            mesh: Mesh::new(vertices),
            frame_color: black,
            fill_color: black,
        }
    }

    pub fn set_position(self, x: T, y: T, z: T) -> (cube: Self)
        ensures
            cube.shown().transform == (Transform {
                position: Vector3D { x, y, z },
                ..self.shown().transform
            }),
            cube.shown() == (ObjectView { transform: cube.shown().transform, ..self.shown() }),
    {
        let mut cube = self;
        cube.transform.set_position(x, y, z);
        cube
    }

    pub fn set_rotation(self, x: T, y: T, z: T) -> (cube: Self)
        ensures
            cube.shown().transform == (Transform {
                rotation: Vector3D { x, y, z },
                ..self.shown().transform
            }),
            cube.shown() == (ObjectView { transform: cube.shown().transform, ..self.shown() }),
    {
        let mut cube = self;
        cube.transform.set_rotation(x, y, z);
        cube
    }

    pub fn set_scale(self, x: T, y: T, z: T) -> (cube: Self)
        ensures
            cube.shown().transform == (Transform {
                scale: Vector3D { x, y, z },
                ..self.shown().transform
            }),
            cube.shown() == (ObjectView { transform: cube.shown().transform, ..self.shown() }),
    {
        let mut cube = self;
        cube.transform.set_scale(x, y, z);
        cube
    }
}

impl<T: Real> Spot<T> {
    /// A point of the colour `color` at the origin, known by the next number
    /// of `ids`.
    pub fn new(ids: &mut IdAllocator, color: Color) -> (spot: Self)
        ensures
            spot.shown().id == old(ids).spec_next(),
            final(ids).spec_next() == nth_id(old(ids).spec_next(), 1),
            spot.shown().transform.is_unposed(),
            spot.shown().cached_transform.is_unposed(),
            spot.shown().vertices.len() == 1,
            spot.shown().vertices[0].spec_rel_pos().is_zero_vector(),
            spot.shown().vertices[0].spec_connections() == Seq::<usize>::empty(),
            spot.shown().frame_color == color,
            spot.shown().fill_color == color,
    {
        let vertices = vec![Vertex { rel_pos: Vector3D::zero(), connects: Vec::new() }];
        Self {
            transform: Transform::new(),
            cached_transform: Transform::new(),
            mesh: Mesh::new(vertices),
            color,
            id: ids.new_id(),
        }
    }

    /// Sets the first two components of the position; the third becomes the z
    /// of the position.
    pub fn set_position(self, x: T, y: T) -> (spot: Self)
        ensures
            spot.shown().transform == (Transform {
                position: Vector3D { x, y, z: self.shown().transform.position.z },
                ..self.shown().transform
            }),
            spot.shown() == (ObjectView { transform: spot.shown().transform, ..self.shown() }),
    {
        let mut spot = self;
        let z = spot.transform.position.z;
        spot.transform.set_position(x, y, z);
        spot
    }

    /// Sets the first two components of the rotation; the third becomes the z
    /// of the position.
    pub fn set_rotation(self, x: T, y: T) -> (spot: Self)
        ensures
            spot.shown().transform == (Transform {
                rotation: Vector3D { x, y, z: self.shown().transform.position.z },
                ..self.shown().transform
            }),
            spot.shown() == (ObjectView { transform: spot.shown().transform, ..self.shown() }),
    {
        let mut spot = self;
        let z = spot.transform.position.z;
        spot.transform.set_rotation(x, y, z);
        spot
    }

    /// Sets the first two components of the scale; the third becomes the z
    /// of the position.
    pub fn set_scale(self, x: T, y: T) -> (spot: Self)
        ensures
            spot.shown().transform == (Transform {
                scale: Vector3D { x, y, z: self.shown().transform.position.z },
                ..self.shown().transform
            }),
            spot.shown() == (ObjectView { transform: spot.shown().transform, ..self.shown() }),
    {
        let mut spot = self;
        let z = spot.transform.position.z;
        spot.transform.set_scale(x, y, z);
        spot
    }
}

/// The number of lines that a full circle is drawn with.
pub const CIRCLE_SEGMENTS: i32 = 10_000;

/// The most corners a circle is ever given, whatever the arithmetic does.
pub const CIRCLE_CORNERS_MAX: usize = 20_000;

/// `full` is a value that a full turn in radians, two times pi, may have,
/// and `step` one that the angle between two corners of a circle may have:
/// the full turn divided by the number of segments.
pub open spec fn is_circle_step<T: Real>(full: T, step: T) -> bool {
    exists|two: T, pi: T, segments: T|
        #![trigger is_product(two, pi, full), is_quotient(full, segments, step)]
        is_number(2, two) && is_pi(pi) && is_product(two, pi, full) && is_number(
            CIRCLE_SEGMENTS,
            segments,
        ) && is_quotient(full, segments, step)
}

/// `angles` starts at zero and goes on by `step` for as long as the angle
/// compares as below `full`.
pub open spec fn is_sweep<T: Real>(full: T, step: T, angles: Seq<T>) -> bool {
    angles.len() >= 1 && is_zero(angles[0]) && forall|i: int|
        0 <= i < angles.len() - 1 ==> is_less(#[trigger] angles[i], full, true) && is_sum(
            angles[i],
            step,
            angles[i + 1],
        )
}

/// `at` is a place that the point of a circle of radius `radius` at the
/// angle `angle` may have: (`radius * cos(angle)`, `radius * sin(angle)`, 0).
pub open spec fn is_on_rim<T: Real>(radius: T, angle: T, at: Vector3D<T>) -> bool {
    exists|cos: T, sin: T|
        #![trigger is_product(radius, cos, at.x), is_product(radius, sin, at.y)]
        is_cosine(angle, cos) && is_product(radius, cos, at.x) && is_sine(angle, sin) && is_product(
            radius,
            sin,
            at.y,
        ) && is_zero(at.z)
}

/// The joins of corner `i` of a closed chain of `n` corners: each corner
/// but the first is joined to the one before it, and the last to the first.
pub open spec fn ring_links(n: int, i: int) -> Seq<usize> {
    let back = if i == 0 {
        Seq::<usize>::empty()
    } else {
        seq![(i - 1) as usize]
    };
    if i == n - 1 {
        back.push(0usize)
    } else {
        back
    }
}

/// `vertices` is an outline that a circle of radius `radius` may have: one
/// corner for each angle of a sweep, joined into a closed chain. The sweep
/// ends with the first angle that does not compare as below the full turn,
/// and after `CIRCLE_CORNERS_MAX` corners at the latest.
pub open spec fn is_outline<T: Real>(radius: T, vertices: Seq<Vertex<T>>) -> bool {
    exists|full: T, step: T, angles: Seq<T>|
        #![trigger is_circle_step(full, step), is_sweep(full, step, angles)]
        is_circle_step(full, step) && is_sweep(full, step, angles) && angles.len()
            == vertices.len() + 1 && (vertices.len() == CIRCLE_CORNERS_MAX || is_less(
            angles.last(),
            full,
            false,
        )) && forall|i: int|
            0 <= i < vertices.len() ==> is_on_rim(
                radius,
                angles[i],
                (#[trigger] vertices[i]).spec_rel_pos(),
            ) && vertices[i].spec_connections() == ring_links(vertices.len() as int, i)
}

impl<T: Real> Circle<T> {
    /// A circle of radius one at the origin, known by the next number of
    /// `ids`.
    pub fn new(ids: &mut IdAllocator, frame_color: Color, fill_color: Color) -> (circle: Self)
        ensures
            circle.shown().id == old(ids).spec_next(),
            final(ids).spec_next() == nth_id(old(ids).spec_next(), 1),
            circle.shown().transform.is_unposed(),
            circle.shown().cached_transform == circle.shown().transform,
            circle.shown().frame_color == frame_color,
            circle.shown().fill_color == fill_color,
            crate::scalar::is_one(circle.spec_radius()),
            is_outline(circle.spec_radius(), circle.shown().vertices),
    {
        let transform = Transform::new();
        let radius = T::one();
        Self {
            transform,
            cached_transform: transform,
            frame_color,
            fill_color,
            radius,
            mesh: Self::outline(radius),
            id: ids.new_id(),
        }
    }

    pub closed spec fn spec_radius(&self) -> T {
        self.radius
    }

    /// Gives the circle a new radius and the outline that goes with it.
    pub fn set_radius(self, radius: T) -> (circle: Self)
        ensures
            circle.spec_radius() == radius,
            is_outline(radius, circle.shown().vertices),
            circle.shown() == (ObjectView { vertices: circle.shown().vertices, ..self.shown() }),
    {
        let mut circle = self;
        circle.radius = radius;
        circle.mesh = Self::outline(radius);
        circle
    }

    /// Sets the first two components of the position; the third becomes the z
    /// of the position.
    pub fn set_position(self, x: T, y: T) -> (circle: Self)
        ensures
            circle.shown().transform == (Transform {
                position: Vector3D { x, y, z: self.shown().transform.position.z },
                ..self.shown().transform
            }),
            circle.shown() == (ObjectView { transform: circle.shown().transform, ..self.shown() }),
    {
        let mut circle = self;
        let z = circle.transform.position.z;
        circle.transform.set_position(x, y, z);
        circle
    }

    /// Sets the first two components of the rotation; the third becomes the z
    /// of the position.
    pub fn set_rotation(self, x: T, y: T) -> (circle: Self)
        ensures
            circle.shown().transform == (Transform {
                rotation: Vector3D { x, y, z: self.shown().transform.position.z },
                ..self.shown().transform
            }),
            circle.shown() == (ObjectView { transform: circle.shown().transform, ..self.shown() }),
    {
        let mut circle = self;
        let z = circle.transform.position.z;
        circle.transform.set_rotation(x, y, z);
        circle
    }

    /// Sets the first two components of the scale; the third becomes the z
    /// of the position.
    pub fn set_scale(self, x: T, y: T) -> (circle: Self)
        ensures
            circle.shown().transform == (Transform {
                scale: Vector3D { x, y, z: self.shown().transform.position.z },
                ..self.shown().transform
            }),
            circle.shown() == (ObjectView { transform: circle.shown().transform, ..self.shown() }),
    {
        let mut circle = self;
        let z = circle.transform.position.z;
        circle.transform.set_scale(x, y, z);
        circle
    }

    /// The outline of a circle of radius `radius`.
    fn outline(radius: T) -> (mesh: Mesh<T>)
        ensures
            is_outline(radius, mesh@),
    {
        let two = T::from_i32(2);
        let pi = T::pi();
        let full = two.mul(pi);
        let segments = T::from_i32(CIRCLE_SEGMENTS);
        let step = full.div(segments);
        assert(is_product(two, pi, full) && is_quotient(full, segments, step));
        let mut angle = T::zero();
        let mut vertices: Vec<Vertex<T>> = Vec::new();
        let ghost mut angles: Seq<T> = seq![angle];
        let mut sweeping = angle.lt(full);
        while sweeping && vertices.len() < CIRCLE_CORNERS_MAX
            invariant
                vertices.len() <= CIRCLE_CORNERS_MAX,
                angles.len() == vertices.len() + 1,
                angles.last() == angle,
                is_sweep(full, step, angles),
                is_less(angle, full, sweeping),
                forall|i: int|
                    0 <= i < vertices.len() ==> is_on_rim(
                        radius,
                        angles[i],
                        (#[trigger] vertices@[i]).spec_rel_pos(),
                    ) && vertices@[i].spec_connections() == if i == 0 {
                        Seq::<usize>::empty()
                    } else {
                        seq![(i - 1) as usize]
                    },
            decreases CIRCLE_CORNERS_MAX - vertices.len(),
        {
            let cos = angle.cos();
            let sin = angle.sin();
            let x = radius.mul(cos);
            let y = radius.mul(sin);
            let mut vertex = Vertex::new(Vector3D::new(x, y, T::zero()));
            assert(is_product(radius, cos, x) && is_product(radius, sin, y));
            if vertices.len() != 0 {
                vertex.add_connection(vertices.len() - 1);
                assert(vertex.spec_connections() =~= seq![(vertices.len() - 1) as usize]);
            }
            vertices.push(vertex);
            let next = angle.add(step);
            proof {
                let grown = angles.push(next);
                assert forall|i: int| 0 <= i < grown.len() - 1 implies is_less(
                    #[trigger] grown[i],
                    full,
                    true,
                ) && is_sum(grown[i], step, grown[i + 1]) by {
                    if i < angles.len() - 1 {
                        assert(is_less(angles[i], full, true));
                    }
                }
                angles = grown;
            }
            angle = next;
            sweeping = angle.lt(full);
        }
        let count = vertices.len();
        if count > 0 {
            let ghost open = vertices@;
            let mut last = vertices.pop().unwrap();
            last.add_connection(0);
            vertices.push(last);
            proof {
                assert forall|i: int| 0 <= i < vertices.len() implies is_on_rim(
                    radius,
                    angles[i],
                    (#[trigger] vertices@[i]).spec_rel_pos(),
                ) && vertices@[i].spec_connections() == ring_links(vertices.len() as int, i) by {
                    assert(is_on_rim(radius, angles[i], open[i].spec_rel_pos()));
                    if i == count - 1 {
                        assert(vertices@[i].spec_connections() =~= ring_links(count as int, i));
                    } else {
                        assert(vertices@[i] == open[i]);
                    }
                }
            }
        }
        proof {
            assert(is_mesh(vertices@)) by {
                assert forall|i: int, k: int|
                    0 <= i < vertices@.len() && 0 <= k < vertices@[i].spec_connections().len()
                    implies #[trigger] vertices@[i].spec_connections()[k] < vertices@.len() by {
                    assert(vertices@[i].spec_connections() == ring_links(
                        vertices.len() as int,
                        i,
                    ));
                }
            }
            assert(is_circle_step(full, step) && is_sweep(full, step, angles));
        }
        Mesh::new(vertices)
    }
}

/// The joins of a quad, corner by corner: the outline of a rectangle drawn
/// from the top left and towards the bottom right.
pub open spec fn quad_links() -> Seq<Seq<usize>> {
    seq![seq![1usize, 2usize], seq![3usize], seq![3usize], Seq::<usize>::empty()]
}

/// `vertices` is a wireframe that a quad of `width` by `height` about its
/// own origin may have: its corners at plus and minus half the width and
/// half the height.
pub open spec fn is_quad<T: Real>(width: T, height: T, vertices: Seq<Vertex<T>>) -> bool {
    exists|two: T, minus_width: T, minus_height: T, left: T, right: T, top: T, bottom: T, zero: T|
        #![trigger
            is_quotient(minus_width, two, left),
            is_quotient(width, two, right),
            is_quotient(minus_height, two, top),
            is_quotient(height, two, bottom),
            is_zero(zero)
        ]
        is_number(2, two) && is_negation(width, minus_width) && is_negation(height, minus_height)
            && is_quotient(minus_width, two, left) && is_quotient(width, two, right)
            && is_quotient(minus_height, two, top) && is_quotient(height, two, bottom) && is_zero(
            zero,
        ) && links_of(vertices) == quad_links() && corners_of(vertices) == seq![
            Vector3D { x: left, y: top, z: zero },
            Vector3D { x: left, y: bottom, z: zero },
            Vector3D { x: right, y: top, z: zero },
            Vector3D { x: right, y: bottom, z: zero },
        ]
}

impl<T: Real> Quad<T> {
    /// A black quad at the origin with the given corners, known by the next
    /// number of `ids`.
    pub fn new(
        ids: &mut IdAllocator,
        top_left: Vertex<T>,
        top_right: Vertex<T>,
        bottom_left: Vertex<T>,
        bottom_right: Vertex<T>,
    ) -> (quad: Self)
        requires
            is_mesh(seq![top_left, top_right, bottom_left, bottom_right]),
        ensures
            quad.shown().id == old(ids).spec_next(),
            final(ids).spec_next() == nth_id(old(ids).spec_next(), 1),
            quad.shown().transform.is_unposed(),
            quad.shown().cached_transform.is_unposed(),
            quad.shown().vertices == seq![top_left, top_right, bottom_left, bottom_right],
            quad.shown().frame_color == (Color { r: 0, g: 0, b: 0, a: 0xff, mode: ColorMode::RGB }),
            quad.shown().fill_color == quad.shown().frame_color,
    {
        let vertices = vec![top_left, top_right, bottom_left, bottom_right];
        assert(vertices@ =~= seq![top_left, top_right, bottom_left, bottom_right]);
        Self {
            transform: Transform::new(),
            cached_transform: Transform::new(),
            frame_color: Color::black(),
            fill_color: Color::black(),
            mesh: Mesh::new(vertices),
            id: ids.new_id(),
        }
    }

    /// A black quad of `width` by `height` about the origin.
    pub fn from_dimensions(ids: &mut IdAllocator, width: T, height: T) -> (quad: Self)
        ensures
            quad.shown().id == old(ids).spec_next(),
            final(ids).spec_next() == nth_id(old(ids).spec_next(), 1),
            quad.shown().transform.is_unposed(),
            quad.shown().cached_transform.is_unposed(),
            is_quad(width, height, quad.shown().vertices),
            quad.shown().frame_color == (Color { r: 0, g: 0, b: 0, a: 0xff, mode: ColorMode::RGB }),
            quad.shown().fill_color == quad.shown().frame_color,
    {
        let two = T::from_i32(2);
        let minus_width = width.neg();
        let minus_height = height.neg();
        let left = minus_width.div(two);
        let right = width.div(two);
        let top = minus_height.div(two);
        let bottom = height.div(two);
        let zero = T::zero();
        let mut top_left = Vertex::new(Vector3D::new(left, top, zero));
        let mut top_right = Vertex::new(Vector3D::new(left, bottom, zero));
        let mut bottom_left = Vertex::new(Vector3D::new(right, top, zero));
        let bottom_right = Vertex::new(Vector3D::new(right, bottom, zero));
        top_left.add_connections(vec![1, 2]);
        top_right.add_connections(vec![3]);
        bottom_left.add_connection(3);
        proof {
            let vertices = seq![top_left, top_right, bottom_left, bottom_right];
            assert(top_left.spec_connections() =~= quad_links()[0]);
            assert(top_right.spec_connections() =~= quad_links()[1]);
            assert(bottom_left.spec_connections() =~= quad_links()[2]);
            assert(bottom_right.spec_connections() =~= quad_links()[3]);
            assert(links_of(vertices) =~= quad_links());
            assert(corners_of(vertices) =~= seq![
                Vector3D { x: left, y: top, z: zero },
                Vector3D { x: left, y: bottom, z: zero },
                Vector3D { x: right, y: top, z: zero },
                Vector3D { x: right, y: bottom, z: zero },
            ]);
            assert(is_mesh(vertices)) by {
                assert forall|i: int, k: int|
                    0 <= i < vertices.len() && 0 <= k < vertices[i].spec_connections().len()
                    implies #[trigger] vertices[i].spec_connections()[k] < vertices.len() by {
                    assert(vertices[i].spec_connections() == quad_links()[i]);
                }
            }
            assert(is_quotient(minus_width, two, left) && is_quotient(width, two, right)
                && is_quotient(minus_height, two, top) && is_quotient(height, two, bottom)
                && is_zero(zero));
        }
        Quad::new(ids, top_left, top_right, bottom_left, bottom_right)
    }
}

impl Square {
    /// A black square with sides of `side_length` about the origin.
    pub fn new<T: Real>(ids: &mut IdAllocator, side_length: T) -> (quad: Quad<T>)
        ensures
            quad.shown().id == old(ids).spec_next(),
            final(ids).spec_next() == nth_id(old(ids).spec_next(), 1),
            quad.shown().transform.is_unposed(),
            quad.shown().cached_transform.is_unposed(),
            is_quad(side_length, side_length, quad.shown().vertices),
            quad.shown().frame_color == (Color { r: 0, g: 0, b: 0, a: 0xff, mode: ColorMode::RGB }),
            quad.shown().fill_color == quad.shown().frame_color,
    {
        Quad::from_dimensions(ids, side_length, side_length)
    }
}

impl Rectangle {
    /// A black rectangle of `width` by `height` about the origin.
    pub fn new<T: Real>(ids: &mut IdAllocator, width: T, height: T) -> (quad: Quad<T>)
        ensures
            quad.shown().id == old(ids).spec_next(),
            final(ids).spec_next() == nth_id(old(ids).spec_next(), 1),
            quad.shown().transform.is_unposed(),
            quad.shown().cached_transform.is_unposed(),
            is_quad(width, height, quad.shown().vertices),
            quad.shown().frame_color == (Color { r: 0, g: 0, b: 0, a: 0xff, mode: ColorMode::RGB }),
            quad.shown().fill_color == quad.shown().frame_color,
    {
        Quad::from_dimensions(ids, width, height)
    }
}

} // verus!
