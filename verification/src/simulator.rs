//! The simulator: the objects of a scene by their numbers, and the frame
//! loop that draws them into the window.

use vstd::prelude::*;

use crate::color::Color;
use crate::event::{EventFilter, EventIterator};
use crate::objects::{is_mesh, links_of, Object, Shape, Vertex};
use crate::renderer::Renderer;
use crate::scalar::{is_zero, Real};
use crate::transform::Transform;
use crate::window::{line_points, painted, painted_all, Window};

verus! {

/// The number of nanoseconds in a second.
pub const NANOS_PER_SECOND: u64 = 1_000_000_000;

/// The time between the last two frames.
#[derive(Debug)]
pub struct Time<T> {
    delta_time: T,
}

impl<T: Real> Time<T> {
    pub closed spec fn spec_delta_time(&self) -> T {
        self.delta_time
    }

    /// A clock that has not seen a frame yet: its delta is zero.
    pub fn new() -> (time: Self)
        ensures
            is_zero(time.spec_delta_time()),
    {
        Self { delta_time: T::zero() }
    }

    /// Records that `elapsed` seconds have passed since the previous frame.
    pub fn update(&mut self, elapsed: T) -> (delta: T)
        ensures
            delta == elapsed,
            final(self).spec_delta_time() == elapsed,
    {
        self.delta_time = elapsed;
        self.delta_time
    }

    /// The seconds between the last two frames.
    pub fn get_delta_time(&self) -> (delta: T)
        ensures
            delta == self.spec_delta_time(),
    {
        self.delta_time
    }
}

/// The grid after a line has been drawn from corner `from` to each of the
/// first `n` corners that it is joined to.
pub open spec fn with_edges(
    pixels: Seq<u32>,
    size: (i32, i32),
    joins: Seq<usize>,
    points: Seq<(i32, i32)>,
    from: int,
    value: u32,
    n: nat,
) -> Seq<u32>
    decreases n,
{
    if n == 0 {
        pixels
    } else {
        painted_all(
            with_edges(pixels, size, joins, points, from, value, (n - 1) as nat),
            size.0 as int,
            size.1 as int,
            line_points(points[from], points[joins[n - 1] as int]),
            value,
        )
    }
}

/// The grid after the first `n` corners of a wireframe have been drawn, one
/// after the other: the corner as a point, then its joins as lines. `points`
/// holds the pixel of each corner, `links` the joins of each.
pub open spec fn with_wireframe(
    pixels: Seq<u32>,
    size: (i32, i32),
    links: Seq<Seq<usize>>,
    points: Seq<(i32, i32)>,
    value: u32,
    n: nat,
) -> Seq<u32>
    decreases n,
{
    if n == 0 {
        pixels
    } else {
        let before = with_wireframe(pixels, size, links, points, value, (n - 1) as nat);
        let dotted = painted(
            before,
            size.0 as int,
            size.1 as int,
            points[n - 1].0 as int,
            points[n - 1].1 as int,
            value,
        );
        with_edges(dotted, size, links[n - 1], points, n - 1, value, links[n - 1].len())
    }
}

/// `points` holds, corner by corner, a pixel that `renderer` may project the
/// corner to when the object is posed by `transform`.
pub open spec fn is_projected<T: Real>(
    renderer: &Renderer<T>,
    transform: &Transform<T>,
    vertices: Seq<Vertex<T>>,
    size: (i32, i32),
    points: Seq<(i32, i32)>,
) -> bool {
    points.len() == vertices.len() && forall|i: int|
        0 <= i < points.len() ==> renderer.is_projection(
            transform,
            &vertices[i].spec_rel_pos(),
            size,
            #[trigger] points[i],
        )
}

/// `after` is a grid that drawing the wireframe `vertices`, posed by
/// `transform`, in the colour `value` into `before` may give.
pub open spec fn is_painting<T: Real>(
    renderer: &Renderer<T>,
    transform: &Transform<T>,
    vertices: Seq<Vertex<T>>,
    value: u32,
    size: (i32, i32),
    before: Seq<u32>,
    after: Seq<u32>,
) -> bool {
    exists|points: Seq<(i32, i32)>| #[trigger]
        is_projected(renderer, transform, vertices, size, points) && after == with_wireframe(
            before,
            size,
            links_of(vertices),
            points,
            value,
            vertices.len(),
        )
}

/// `after` is a grid that drawing the first `n` of `objects` into `before`,
/// one after the other, each at its current pose and in its outline colour,
/// may give.
pub open spec fn is_scene<T: Real>(
    renderer: &Renderer<T>,
    objects: Seq<Shape<T>>,
    size: (i32, i32),
    before: Seq<u32>,
    n: nat,
    after: Seq<u32>,
) -> bool
    decreases n,
{
    if n == 0 {
        after == before
    } else {
        exists|between: Seq<u32>|
            is_scene(renderer, objects, size, before, (n - 1) as nat, between) && #[trigger] is_painting(
                renderer,
                &objects[n - 1].shown().transform,
                objects[n - 1].shown().vertices,
                objects[n - 1].shown().frame_color.spec_to_u32(),
                size,
                between,
                after,
            )
    }
}

/// A grid of `len` pixels, each of them `value`.
pub open spec fn flooded(len: nat, value: u32) -> Seq<u32> {
    Seq::new(len, |i: int| value)
}

/// The objects `objects` by their numbers `ids`.
pub open spec fn registry<T>(ids: Seq<usize>, objects: Seq<Shape<T>>) -> Map<usize, Shape<T>> {
    Map::new(|id: usize| ids.contains(id), |id: usize| objects[ids.index_of(id)])
}

/// The scene after each of `shapes` has been registered, first to last.
pub open spec fn after_registering<T: Real>(
    scene: Map<usize, Shape<T>>,
    shapes: Seq<Shape<T>>,
) -> Map<usize, Shape<T>>
    decreases shapes.len(),
{
    if shapes.len() == 0 {
        scene
    } else {
        after_registering(scene, shapes.drop_last()).insert(
            shapes.last().shown().id,
            shapes.last(),
        )
    }
}

/// Registering objects whose numbers differ from each other, and from those
/// already taken, adds one object for each to the scene, and each is found
/// again under its number.
pub proof fn lemma_registered_objects_are_found<T: Real>(
    scene: Map<usize, Shape<T>>,
    shapes: Seq<Shape<T>>,
)
    requires
        scene.dom().finite(),
        forall|i: int, j: int|
            0 <= i < j < shapes.len() ==> shapes[i].shown().id != shapes[j].shown().id,
        forall|i: int| 0 <= i < shapes.len() ==> !scene.contains_key(shapes[i].shown().id),
    ensures
        after_registering(scene, shapes).dom().finite(),
        after_registering(scene, shapes).len() == scene.len() + shapes.len(),
        forall|id: usize| scene.contains_key(id) ==> after_registering(scene, shapes).contains_key(id),
        forall|i: int|
            0 <= i < shapes.len() ==> after_registering(scene, shapes).contains_key(
                shapes[i].shown().id,
            ) && after_registering(scene, shapes)[shapes[i].shown().id] == shapes[i],
        forall|id: usize|
            after_registering(scene, shapes).contains_key(id) ==> scene.contains_key(id) || exists|
                i: int,
            |
                0 <= i < shapes.len() && #[trigger] shapes[i].shown().id == id,
    decreases shapes.len(),
{
    if shapes.len() > 0 {
        let earlier = shapes.drop_last();
        lemma_registered_objects_are_found(scene, earlier);
        let before = after_registering(scene, earlier);
        let id = shapes.last().shown().id;
        assert(!before.contains_key(id)) by {
            if before.contains_key(id) {
                let i = choose|i: int| 0 <= i < earlier.len() && #[trigger] earlier[i].shown().id == id;
                assert(shapes[i].shown().id == shapes[shapes.len() - 1].shown().id);
            }
        }
        assert forall|i: int| 0 <= i < shapes.len() implies after_registering(
            scene,
            shapes,
        ).contains_key(shapes[i].shown().id) && after_registering(scene, shapes)[shapes[i].shown().id]
            == shapes[i] by {
            if i < earlier.len() {
                assert(earlier[i] == shapes[i]);
            }
        }
        assert forall|k: usize| after_registering(scene, shapes).contains_key(k) implies scene.contains_key(
            k,
        ) || exists|i: int| 0 <= i < shapes.len() && #[trigger] shapes[i].shown().id == k by {
            if k == id {
                assert(shapes[shapes.len() - 1].shown().id == k);
            } else if !scene.contains_key(k) {
                let i = choose|i: int| 0 <= i < earlier.len() && #[trigger] earlier[i].shown().id == k;
                assert(shapes[i].shown().id == k);
            }
        }
    }
}

/// A scene and what it is drawn with.
pub struct Simulator<T> {
    ids: Vec<usize>,
    objects: Vec<Shape<T>>,
    renderer: Renderer<T>,
    use_object_clearing: bool,
    window: Window,
    pub time: Time<T>,
    restrict_frame_rate: bool,
    frame_delay: u64,
}

impl<T: Real> View for Simulator<T> {
    type V = Map<usize, Shape<T>>;

    /// The objects of the scene by their numbers.
    closed spec fn view(&self) -> Map<usize, Shape<T>> {
        registry(self.ids@, self.objects@)
    }
}

impl<T: Real> Simulator<T> {
    /// The numbers of the objects, in the order the objects are drawn.
    pub closed spec fn spec_ids(&self) -> Seq<usize> {
        self.ids@
    }

    /// The objects, in the order they are drawn.
    pub closed spec fn spec_objects(&self) -> Seq<Shape<T>> {
        self.objects@
    }

    pub closed spec fn spec_renderer(&self) -> Renderer<T> {
        self.renderer
    }

    pub closed spec fn spec_window(&self) -> Window {
        self.window
    }

    /// Whether objects are erased one by one, in place of a repaint of the
    /// whole background before each frame.
    pub closed spec fn spec_uses_object_clearing(&self) -> bool {
        self.use_object_clearing
    }

    pub closed spec fn spec_restricts_frame_rate(&self) -> bool {
        self.restrict_frame_rate
    }

    /// The nanoseconds that a frame lasts at the target frame rate.
    pub closed spec fn spec_frame_delay(&self) -> u64 {
        self.frame_delay
    }

    /// The clock.
    pub closed spec fn spec_time(&self) -> Time<T> {
        self.time
    }

    /// Every object has a number, and no number is taken twice.
    pub closed spec fn well_formed(&self) -> bool {
        self.ids@.len() == self.objects@.len() && self.ids@.no_duplicates()
    }

    /// `self` draws as `before` does: same renderer, window, frame pacing
    /// and clock.
    pub open spec fn same_stage_as(&self, before: &Simulator<T>) -> bool {
        &&& self.spec_renderer() == before.spec_renderer()
        &&& self.spec_window() == before.spec_window()
        &&& self.spec_uses_object_clearing() == before.spec_uses_object_clearing()
        &&& self.spec_restricts_frame_rate() == before.spec_restricts_frame_rate()
        &&& self.spec_frame_delay() == before.spec_frame_delay()
        &&& self.spec_time() == before.spec_time()
    }

    /// `self` holds the objects that `before` holds, in the same order.
    pub open spec fn same_scene_as(&self, before: &Simulator<T>) -> bool {
        self.spec_ids() == before.spec_ids() && self.spec_objects() == before.spec_objects()
    }

    /// `self` is `before` after `shape` was registered under `id`: a new
    /// number is drawn last, a number that was taken keeps its place and
    /// loses its former object.
    pub open spec fn is_registration_of(
        &self,
        before: &Simulator<T>,
        id: usize,
        shape: Shape<T>,
    ) -> bool {
        &&& self.well_formed()
        &&& self.same_stage_as(before)
        &&& self@ == before@.insert(id, shape)
        &&& if before.spec_ids().contains(id) {
            self.spec_ids() == before.spec_ids() && self.spec_objects()
                == before.spec_objects().update(before.spec_ids().index_of(id), shape)
        } else {
            self.spec_ids() == before.spec_ids().push(id) && self.spec_objects()
                == before.spec_objects().push(shape)
        }
    }

    /// In a well-formed simulator the objects by number are the objects in
    /// drawing order, each under its number.
    pub proof fn lemma_view(&self)
        requires
            self.well_formed(),
        ensures
            self@.dom().finite(),
            self@.len() == self.spec_ids().len(),
            self.spec_ids().len() == self.spec_objects().len(),
            self.spec_ids().no_duplicates(),
            forall|id: usize| self@.contains_key(id) <==> self.spec_ids().contains(id),
            forall|i: int|
                0 <= i < self.spec_ids().len() ==> self@.contains_key(#[trigger] self.spec_ids()[i])
                    && self@[self.spec_ids()[i]] == self.spec_objects()[i],
    {
        let ids = self.ids@;
        assert(self@.dom() =~= ids.to_set());
        ids.unique_seq_to_set();
        assert forall|i: int| 0 <= i < ids.len() implies self@.contains_key(#[trigger] ids[i])
            && self@[ids[i]] == self.objects@[i] by {
            assert(ids.contains(ids[i]));
            assert(ids.index_of(ids[i]) == i);
        }
    }

    /// A simulator without objects that draws with `renderer` into `window`.
    /// With `use_object_clearing` frames are drawn over each other and
    /// objects are erased one by one; without it the background is repainted
    /// before each frame. With `restrict_frame_rate` frames are held apart by
    /// the time a frame lasts at `target_frame_rate` frames per second.
    pub fn new(
        renderer: Renderer<T>,
        window: Window,
        use_object_clearing: bool,
        restrict_frame_rate: bool,
        target_frame_rate: u16,
    ) -> (simulator: Self)
        requires
            target_frame_rate != 0,
        ensures
            simulator.well_formed(),
            simulator@ == Map::<usize, Shape<T>>::empty(),
            simulator.spec_ids() == Seq::<usize>::empty(),
            simulator.spec_objects() == Seq::<Shape<T>>::empty(),
            simulator.spec_renderer() == renderer,
            simulator.spec_window() == window,
            simulator.spec_uses_object_clearing() == use_object_clearing,
            simulator.spec_restricts_frame_rate() == restrict_frame_rate,
            simulator.spec_frame_delay() == NANOS_PER_SECOND / (target_frame_rate as u64),
            is_zero(simulator.spec_time().spec_delta_time()),
    {
        let simulator = Self {
            ids: Vec::new(),
            objects: Vec::new(),
            renderer,
            use_object_clearing,
            window,
            time: Time::new(),
            restrict_frame_rate,
            frame_delay: NANOS_PER_SECOND / (target_frame_rate as u64),
        };
        assert(simulator@ =~= Map::<usize, Shape<T>>::empty());
        simulator
    }

    /// How many nanoseconds to wait before the next frame, when the last one
    /// was started `since_last_frame` nanoseconds ago: what is left of the
    /// time a frame lasts while the frame rate is restricted, and nothing
    /// otherwise.
    pub fn frame_wait(&self, since_last_frame: u64) -> (wait: u64)
        ensures
            wait == if self.spec_restricts_frame_rate() && since_last_frame
                < self.spec_frame_delay() {
                self.spec_frame_delay() - since_last_frame
            } else {
                0
            },
    {
        if self.restrict_frame_rate && since_last_frame < self.frame_delay {
            self.frame_delay - since_last_frame
        } else {
            0
        }
    }

    /// Draws one frame, `elapsed` seconds after the previous one.
    ///
    /// Once the window has closed nothing is drawn and the call fails, now
    /// and ever after. While it is open the clock takes `elapsed`; the
    /// background is repainted unless objects are erased one by one; every
    /// object is drawn, in order, at its current pose and in its outline
    /// colour; and where objects are erased one by one each remembers the
    /// pose it was drawn at.
    pub fn update(&mut self, elapsed: T) -> (result: Result<T, ()>)
        requires
            old(self).well_formed(),
        ensures
            final(self).well_formed(),
            result is Err <==> !old(self).spec_window().spec_is_running(),
            result is Err ==> *final(self) == *old(self),
            final(self).spec_window().spec_is_running() == old(self).spec_window().spec_is_running(),
            result matches Ok(delta) ==> {
                &&& delta == elapsed
                &&& final(self).spec_time().spec_delta_time() == elapsed
                &&& final(self).spec_ids() == old(self).spec_ids()
                &&& final(self).spec_renderer() == old(self).spec_renderer()
                &&& final(self).spec_uses_object_clearing() == old(self).spec_uses_object_clearing()
                &&& final(self).spec_restricts_frame_rate() == old(self).spec_restricts_frame_rate()
                &&& final(self).spec_frame_delay() == old(self).spec_frame_delay()
                &&& final(self).spec_window().same_frame_as(&old(self).spec_window())
                &&& final(self).spec_objects().len() == old(self).spec_objects().len()
                &&& forall|i: int|
                    0 <= i < old(self).spec_objects().len()
                       
                            ==> (#[trigger] final(self).spec_objects()[i]).shown() == if old(self).spec_uses_object_clearing() {
                        old(self).spec_objects()[i].shown().cached()
                    } else {
                        old(self).spec_objects()[i].shown()
                    }
                &&& is_scene(
                    &old(self).spec_renderer(),
                    old(self).spec_objects(),
                    old(self).spec_window().spec_client_size(),
                    if old(self).spec_uses_object_clearing() {
                        old(self).spec_window()@
                    } else {
                        flooded(
                            old(self).spec_window()@.len(),
                            old(self).spec_window().spec_background_color().spec_to_u32(),
                        )
                    },
                    old(self).spec_objects().len(),
                    final(self).spec_window()@,
                )
            },
    {
        if !self.window.is_running() {
            return Err(());
        }
        let delta = self.time.update(elapsed);
        if !self.use_object_clearing {
            self.clear_screen();
        }
        let ghost size = self.window.spec_client_size();
        let ghost cleared = self.window@;
        let count = self.objects.len();
        let mut i: usize = 0;
        while i < count
            invariant
                i <= count,
                count == self.objects.len(),
                count == old(self).objects.len(),
                self.ids@ == old(self).ids@,
                self.renderer == old(self).renderer,
                self.use_object_clearing == old(self).use_object_clearing,
                self.restrict_frame_rate == old(self).restrict_frame_rate,
                self.frame_delay == old(self).frame_delay,
                self.time.spec_delta_time() == elapsed,
                self.window.same_frame_as(&old(self).window),
                size == old(self).window.spec_client_size(),
                forall|k: int|
                    0 <= k < i ==> (#[trigger] self.objects@[k]).shown() == if self.use_object_clearing {
                        old(self).objects@[k].shown().cached()
                    } else {
                        old(self).objects@[k].shown()
                    },
                forall|k: int| i <= k < count ==> self.objects@[k] == old(self).objects@[k],
                is_scene(
                    &old(self).renderer,
                    old(self).objects@,
                    size,
                    cleared,
                    i as nat,
                    self.window@,
                ),
            decreases count - i,
        {
            let ghost between = self.window@;
            let color = self.objects[i].get_frame_color();
            Self::paint_object(&self.objects[i], &self.renderer, &mut self.window, false, color);
            assert(is_painting(
                &old(self).renderer,
                &old(self).objects@[i as int].shown().transform,
                old(self).objects@[i as int].shown().vertices,
                old(self).objects@[i as int].shown().frame_color.spec_to_u32(),
                size,
                between,
                self.window@,
            ));
            if self.use_object_clearing {
                self.objects[i].cache_transform();
            }
            proof {
                assert(is_scene(
                    &old(self).renderer,
                    old(self).objects@,
                    size,
                    cleared,
                    ((i + 1) - 1) as nat,
                    between,
                ));
            }
            i += 1;
        }
        Ok(delta)
    }

    /// Paints the whole window in its background colour.
    pub fn paint_background(&mut self)
        ensures
            final(self).spec_window()@ == flooded(
                old(self).spec_window()@.len(),
                old(self).spec_window().spec_background_color().spec_to_u32(),
            ),
            final(self).spec_window().same_frame_as(&old(self).spec_window()),
            final(self).same_scene_as(old(self)),
            final(self).well_formed() == old(self).well_formed(),
            final(self).spec_renderer() == old(self).spec_renderer(),
            final(self).spec_uses_object_clearing() == old(self).spec_uses_object_clearing(),
            final(self).spec_restricts_frame_rate() == old(self).spec_restricts_frame_rate(),
            final(self).spec_frame_delay() == old(self).spec_frame_delay(),
            final(self).spec_time() == old(self).spec_time(),
    {
        let color = self.window.get_background_color();
        self.window.fill(color);
        assert(self.window@ =~= flooded(old(self).window@.len(), color.spec_to_u32()));
    }

    /// Draws the object known by `object_id` in the background colour at the
    /// pose it has cached, which erases it where it was drawn last. An
    /// unknown number is refused and nothing is drawn.
    pub fn clear_from_screen(&mut self, object_id: &usize) -> (result: Result<(), ()>)
        requires
            old(self).well_formed(),
        ensures
            final(self).well_formed(),
            result is Ok <==> old(self)@.contains_key(*object_id),
            result is Err ==> *final(self) == *old(self),
            final(self).same_scene_as(old(self)),
            final(self).spec_renderer() == old(self).spec_renderer(),
            final(self).spec_uses_object_clearing() == old(self).spec_uses_object_clearing(),
            final(self).spec_restricts_frame_rate() == old(self).spec_restricts_frame_rate(),
            final(self).spec_frame_delay() == old(self).spec_frame_delay(),
            final(self).spec_time() == old(self).spec_time(),
            final(self).spec_window().same_frame_as(&old(self).spec_window()),
            result is Ok ==> is_painting(
                &old(self).spec_renderer(),
                &old(self)@[*object_id].shown().cached_transform,
                old(self)@[*object_id].shown().vertices,
                old(self).spec_window().spec_background_color().spec_to_u32(),
                old(self).spec_window().spec_client_size(),
                old(self).spec_window()@,
                final(self).spec_window()@,
            ),
    {
        match self.position_of(*object_id) {
            Some(at) => {
                let background_color = self.window.get_background_color();
                Self::paint_object(
                    &self.objects[at],
                    &self.renderer,
                    &mut self.window,
                    true,
                    background_color,
                );
                Ok(())
            },
            None => Err(()),
        }
    }

    /// Paints the whole window in its background colour.
    pub fn clear_screen(&mut self)
        ensures
            final(self).spec_window()@ == flooded(
                old(self).spec_window()@.len(),
                old(self).spec_window().spec_background_color().spec_to_u32(),
            ),
            final(self).spec_window().same_frame_as(&old(self).spec_window()),
            final(self).same_scene_as(old(self)),
            final(self).well_formed() == old(self).well_formed(),
            final(self).spec_renderer() == old(self).spec_renderer(),
            final(self).spec_uses_object_clearing() == old(self).spec_uses_object_clearing(),
            final(self).spec_restricts_frame_rate() == old(self).spec_restricts_frame_rate(),
            final(self).spec_frame_delay() == old(self).spec_frame_delay(),
            final(self).spec_time() == old(self).spec_time(),
    {
        self.paint_background();
    }

    /// Draws the wireframe of `obj` into `window` in `color`: its corners as
    /// points and their joins as lines, at the pose it has now or, with
    /// `use_cached_transform`, at the pose it has cached.
    pub fn paint_object(
        obj: &Shape<T>,
        renderer: &Renderer<T>,
        window: &mut Window,
        use_cached_transform: bool,
        color: Color,
    )
        ensures
            is_painting(
                renderer,
                if use_cached_transform {
                    &obj.shown().cached_transform
                } else {
                    &obj.shown().transform
                },
                obj.shown().vertices,
                color.spec_to_u32(),
                old(window).spec_client_size(),
                old(window)@,
                final(window)@,
            ),
            final(window).same_frame_as(old(window)),
    {
        let vertices = obj.get_vertices();
        let object_transform = if use_cached_transform {
            obj.get_cached_transform()
        } else {
            obj.transform()
        };
        let size = window.get_client_size();
        let ghost value = color.spec_to_u32();
        let ghost links = links_of(vertices@);
        let mut projected_vertexs: Vec<(i32, i32)> = Vec::new();
        let mut i: usize = 0;
        while i < vertices.len()
            invariant
                i <= vertices.len(),
                projected_vertexs.len() == i,
                forall|k: int|
                    0 <= k < i ==> renderer.is_projection(
                        object_transform,
                        &vertices@[k].spec_rel_pos(),
                        size,
                        #[trigger] projected_vertexs@[k],
                    ),
            decreases vertices.len() - i,
        {
            let rel_pos = vertices[i].get_rel_pos();
            let at = renderer.project_to_screen(object_transform, &rel_pos, size);
            projected_vertexs.push(at);
            i += 1;
        }
        let ghost points = projected_vertexs@;
        assert(is_projected(renderer, object_transform, vertices@, size, points));
        let mut i: usize = 0;
        while i < projected_vertexs.len()
            invariant
                i <= projected_vertexs.len(),
                projected_vertexs.len() == vertices.len(),
                projected_vertexs@ == points,
                is_mesh(vertices@),
                links == links_of(vertices@),
                size == old(window).spec_client_size(),
                value == color.spec_to_u32(),
                window.same_frame_as(old(window)),
                window@ == with_wireframe(old(window)@, size, links, points, value, i as nat),
            decreases projected_vertexs.len() - i,
        {
            let from = projected_vertexs[i];
            window.draw_point(from.0, from.1, color);
            let ghost dotted = window@;
            let connections = vertices[i].get_connections();
            let mut k: usize = 0;
            while k < connections.len()
                invariant
                    k <= connections.len(),
                    i < projected_vertexs.len(),
                    projected_vertexs.len() == vertices.len(),
                    projected_vertexs@ == points,
                    from == points[i as int],
                    is_mesh(vertices@),
                    connections@ == vertices@[i as int].spec_connections(),
                    size == old(window).spec_client_size(),
                    value == color.spec_to_u32(),
                    window.same_frame_as(old(window)),
                    window@ == with_edges(
                        dotted,
                        size,
                        connections@,
                        points,
                        i as int,
                        value,
                        k as nat,
                    ),
                decreases connections.len() - k,
            {
                let o = connections[k];
                assert(vertices@[i as int].spec_connections()[k as int] < vertices@.len());
                let to = projected_vertexs[o];
                window.draw_line(from, to, color);
                k += 1;
            }
            assert(links[i as int] == connections@);
            i += 1;
        }
    }

    /// Holds frames apart by the time a frame lasts at the target frame
    /// rate, or lets them follow each other freely.
    pub fn set_frame_rate_restriction(&mut self, restrict: bool) -> (same: &mut Self)
        ensures
            same.spec_restricts_frame_rate() == restrict,
            same.same_scene_as(old(self)),
            same.well_formed() == old(self).well_formed(),
            same@ == old(self)@,
            same.spec_renderer() == old(self).spec_renderer(),
            same.spec_window() == old(self).spec_window(),
            same.spec_uses_object_clearing() == old(self).spec_uses_object_clearing(),
            same.spec_frame_delay() == old(self).spec_frame_delay(),
            same.spec_time() == old(self).spec_time(),
            *final(self) == *final(same),
    {
        self.restrict_frame_rate = restrict;
        self
    }

    pub fn restrict_frame_rate(&mut self) -> (same: &mut Self)
        ensures
            same.spec_restricts_frame_rate(),
            same.same_scene_as(old(self)),
            same.well_formed() == old(self).well_formed(),
            same@ == old(self)@,
            same.spec_renderer() == old(self).spec_renderer(),
            same.spec_window() == old(self).spec_window(),
            same.spec_uses_object_clearing() == old(self).spec_uses_object_clearing(),
            same.spec_frame_delay() == old(self).spec_frame_delay(),
            same.spec_time() == old(self).spec_time(),
            *final(self) == *final(same),
    {
        self.set_frame_rate_restriction(true)
    }

    pub fn release_frame_rate(&mut self) -> (same: &mut Self)
        ensures
            !same.spec_restricts_frame_rate(),
            same.same_scene_as(old(self)),
            same.well_formed() == old(self).well_formed(),
            same@ == old(self)@,
            same.spec_renderer() == old(self).spec_renderer(),
            same.spec_window() == old(self).spec_window(),
            same.spec_uses_object_clearing() == old(self).spec_uses_object_clearing(),
            same.spec_frame_delay() == old(self).spec_frame_delay(),
            same.spec_time() == old(self).spec_time(),
            *final(self) == *final(same),
    {
        self.set_frame_rate_restriction(false)
    }

    /// Sets the number of frames per second to aim at.
    pub fn set_target_frame_rate(&mut self, target: u16) -> (same: &mut Self)
        requires
            target != 0,
        ensures
            same.spec_frame_delay() == NANOS_PER_SECOND / (target as u64),
            same.same_scene_as(old(self)),
            same.well_formed() == old(self).well_formed(),
            same@ == old(self)@,
            same.spec_renderer() == old(self).spec_renderer(),
            same.spec_window() == old(self).spec_window(),
            same.spec_uses_object_clearing() == old(self).spec_uses_object_clearing(),
            same.spec_restricts_frame_rate() == old(self).spec_restricts_frame_rate(),
            same.spec_time() == old(self).spec_time(),
            *final(self) == *final(same),
    {
        self.frame_delay = NANOS_PER_SECOND / (target as u64);
        self
    }

    /// Lets flat scenes be turned about all three axes.
    pub fn enable_3d_rotation(&mut self)
        ensures
            final(self).spec_renderer() == (Renderer {
                allow_3d_rotation: true,
                ..old(self).spec_renderer()
            }),
            final(self).same_scene_as(old(self)),
            final(self).well_formed() == old(self).well_formed(),
            final(self)@ == old(self)@,
            final(self).spec_window() == old(self).spec_window(),
            final(self).spec_uses_object_clearing() == old(self).spec_uses_object_clearing(),
            final(self).spec_restricts_frame_rate() == old(self).spec_restricts_frame_rate(),
            final(self).spec_frame_delay() == old(self).spec_frame_delay(),
            final(self).spec_time() == old(self).spec_time(),
    {
        self.renderer.allow_3d_rotation();
    }

    /// Draws flat scenes unturned and unscaled.
    pub fn disable_3d_rotation(&mut self)
        ensures
            final(self).spec_renderer() == (Renderer {
                allow_3d_rotation: false,
                ..old(self).spec_renderer()
            }),
            final(self).same_scene_as(old(self)),
            final(self).well_formed() == old(self).well_formed(),
            final(self)@ == old(self)@,
            final(self).spec_window() == old(self).spec_window(),
            final(self).spec_uses_object_clearing() == old(self).spec_uses_object_clearing(),
            final(self).spec_restricts_frame_rate() == old(self).spec_restricts_frame_rate(),
            final(self).spec_frame_delay() == old(self).spec_frame_delay(),
            final(self).spec_time() == old(self).spec_time(),
    {
        self.renderer.disable_3d_rotation();
    }

    pub fn set_3d_rotation(&mut self, toggle: bool)
        ensures
            final(self).spec_renderer() == (Renderer {
                allow_3d_rotation: toggle,
                ..old(self).spec_renderer()
            }),
            final(self).same_scene_as(old(self)),
            final(self).well_formed() == old(self).well_formed(),
            final(self)@ == old(self)@,
            final(self).spec_window() == old(self).spec_window(),
            final(self).spec_uses_object_clearing() == old(self).spec_uses_object_clearing(),
            final(self).spec_restricts_frame_rate() == old(self).spec_restricts_frame_rate(),
            final(self).spec_frame_delay() == old(self).spec_frame_delay(),
            final(self).spec_time() == old(self).spec_time(),
    {
        if toggle {
            self.enable_3d_rotation();
        } else {
            self.disable_3d_rotation();
        }
    }

    /// Where in the drawing order the object known by `id` stands.
    fn position_of(&self, id: usize) -> (at: Option<usize>)
        requires
            self.well_formed(),
        ensures
            at is Some <==> self@.contains_key(id),
            at matches Some(i) ==> i < self.ids@.len() && self.ids@[i as int] == id
                && self.ids@.index_of(id) == i && self@[id] == self.objects@[i as int],
    {
        let mut i: usize = 0;
        while i < self.ids.len()
            invariant
                i <= self.ids.len(),
                self.well_formed(),
                forall|k: int| 0 <= k < i ==> self.ids@[k] != id,
            decreases self.ids.len() - i,
        {
            if self.ids[i] == id {
                proof {
                    assert(self.ids@.contains(id));
                    assert(self.ids@.index_of(id) == i);
                }
                return Some(i);
            }
            i += 1;
        }
        assert(!self.ids@.contains(id));
        None
    }

    /// Takes `object` into the scene under its own number and returns the
    /// number. An object that was known by that number leaves the scene.
    pub fn add_object(&mut self, object: Shape<T>) -> (id: usize)
        requires
            old(self).well_formed(),
        ensures
            id == object.shown().id,
            final(self).is_registration_of(old(self), id, object),
    {
        let id = object.get_id();
        match self.position_of(id) {
            Some(at) => {
                self.objects[at] = object;
                proof {
                    let ids = self.ids@;
                    assert forall|k: usize| ids.contains(k) && k != id implies ids.index_of(k)
                        != at by {}
                    assert(self@ =~= old(self)@.insert(id, object));
                }
            },
            None => {
                self.ids.push(id);
                self.objects.push(object);
                proof {
                    let before = old(self).ids@;
                    let ids = self.ids@;
                    assert forall|k: usize| ids.contains(k) <==> (before.contains(k) || k
                        == id) by {
                        if before.contains(k) {
                            assert(ids[before.index_of(k)] == k);
                        }
                        if k == id {
                            assert(ids[before.len() as int] == k);
                        }
                    }
                    assert forall|k: usize| before.contains(k) implies ids.index_of(k)
                        == before.index_of(k) by {
                        assert(ids[before.index_of(k)] == k);
                    }
                    assert(ids.index_of(id) == before.len()) by {
                        assert(ids[before.len() as int] == id);
                    }
                    assert(self@ =~= old(self)@.insert(id, object));
                }
            },
        }
        id
    }

    /// Takes the object known by `object_id` out of the scene and returns
    /// it, if there is one.
    pub fn remove_object(&mut self, object_id: &usize) -> (removed: Option<Shape<T>>)
        requires
            old(self).well_formed(),
        ensures
            final(self).well_formed(),
            final(self).same_stage_as(old(self)),
            removed is Some <==> old(self)@.contains_key(*object_id),
            removed matches Some(shape) ==> shape == old(self)@[*object_id],
            final(self)@ == old(self)@.remove(*object_id),
            removed is None ==> final(self).same_scene_as(old(self)),
            removed is Some ==> final(self).spec_ids() == old(self).spec_ids().remove(
                old(self).spec_ids().index_of(*object_id),
            ) && final(self).spec_objects() == old(self).spec_objects().remove(
                old(self).spec_ids().index_of(*object_id),
            ),
    {
        match self.position_of(*object_id) {
            Some(at) => {
                self.ids.remove(at);
                let shape = self.objects.remove(at);
                proof {
                    let before = old(self).ids@;
                    let ids = self.ids@;
                    let id = *object_id;
                    assert forall|k: usize| ids.contains(k) <==> (before.contains(k) && k
                        != id) by {
                        if ids.contains(k) {
                            let j = ids.index_of(k);
                            if j < at {
                                assert(before[j] == k);
                            } else {
                                assert(before[j + 1] == k);
                            }
                        }
                        if before.contains(k) && k != id {
                            let j = before.index_of(k);
                            if j < at {
                                assert(ids[j] == k);
                            } else {
                                assert(ids[j - 1] == k);
                            }
                        }
                    }
                    assert forall|k: usize| ids.contains(k) implies self.objects@[ids.index_of(k)]
                        == old(self).objects@[before.index_of(k)] by {
                        let j = ids.index_of(k);
                        if j < at {
                            assert(before[j] == k);
                            assert(before.index_of(k) == j);
                        } else {
                            assert(before[j + 1] == k);
                            assert(before.index_of(k) == j + 1);
                        }
                    }
                    assert(self@ =~= old(self)@.remove(id));
                }
                Some(shape)
            },
            None => {
                assert(self@ =~= old(self)@.remove(*object_id));
                None
            },
        }
    }

    /// The object known by `id`, to be changed in place, if there is one.
    pub fn get_object_by_id(&mut self, id: &usize) -> (found: Option<&mut Shape<T>>)
        requires
            old(self).well_formed(),
        ensures
            found is Some <==> old(self)@.contains_key(*id),
            found is None ==> *final(self) == *old(self),
            found matches Some(shape) ==> {
                &&& *shape == old(self)@[*id]
                &&& final(self).well_formed()
                &&& final(self).same_stage_as(old(self))
                &&& final(self)@ == old(self)@.insert(*id, *final(shape))
                &&& final(self).spec_ids() == old(self).spec_ids()
                &&& final(self).spec_objects() == old(self).spec_objects().update(
                    old(self).spec_ids().index_of(*id),
                    *final(shape),
                )
            },
    {
        match self.position_of(*id) {
            Some(at) => {
                let ghost ids = self.ids@;
                let ghost objects = self.objects@;
                proof {
                    assert forall|changed: Shape<T>|
                        #[trigger] registry(ids, objects.update(at as int, changed)) == registry(
                            ids,
                            objects,
                        ).insert(*id, changed) by {
                        assert forall|k: usize| ids.contains(k) && k != *id implies ids.index_of(k)
                            != at by {}
                        assert(registry(ids, objects.update(at as int, changed)) =~= registry(
                            ids,
                            objects,
                        ).insert(*id, changed));
                    }
                }
                Some(&mut self.objects[at])
            },
            None => None,
        }
    }

    /// The number of objects in the scene.
    pub fn object_count(&self) -> (count: usize)
        requires
            self.well_formed(),
        ensures
            count == self@.len(),
            count == self.spec_ids().len(),
    {
        proof {
            self.lemma_view();
        }
        self.objects.len()
    }

    /// The window that frames are drawn into.
    pub fn window(&self) -> (window: &Window)
        ensures
            *window == self.spec_window(),
    {
        &self.window
    }

    /// The window, to be resized or closed.
    pub fn window_mut(&mut self) -> (window: &mut Window)
        ensures
            *window == old(self).spec_window(),
            final(self).spec_window() == *final(window),
            final(self).same_scene_as(old(self)),
            final(self).well_formed() == old(self).well_formed(),
            final(self)@ == old(self)@,
            final(self).spec_renderer() == old(self).spec_renderer(),
            final(self).spec_uses_object_clearing() == old(self).spec_uses_object_clearing(),
            final(self).spec_restricts_frame_rate() == old(self).spec_restricts_frame_rate(),
            final(self).spec_frame_delay() == old(self).spec_frame_delay(),
            final(self).spec_time() == old(self).spec_time(),
    {
        &mut self.window
    }

    /// A cursor that takes the waiting events of the window away.
    pub fn poll_events(&mut self) -> (events: EventIterator<'_>)
        ensures
            events.data@ == old(self).spec_window().spec_event_manager().spec_events(),
            events.consuming,
            events.filter == EventFilter::NOFILTER.spec_bits(),
            final(self).spec_window().spec_event_manager().spec_events() == (*final(events.data))@,
            final(self).spec_window().spec_event_manager().spec_keymap()
                == old(self).spec_window().spec_event_manager().spec_keymap(),
            final(self).spec_window().same_picture_as(&old(self).spec_window()),
            final(self).spec_window().spec_status() == old(self).spec_window().spec_status(),
            final(self).same_scene_as(old(self)),
            final(self).well_formed() == old(self).well_formed(),
            final(self)@ == old(self)@,
            final(self).spec_renderer() == old(self).spec_renderer(),
            final(self).spec_uses_object_clearing() == old(self).spec_uses_object_clearing(),
            final(self).spec_restricts_frame_rate() == old(self).spec_restricts_frame_rate(),
            final(self).spec_frame_delay() == old(self).spec_frame_delay(),
            final(self).spec_time() == old(self).spec_time(),
    {
        self.window.event_manager_mut().poll_iter()
    }

    /// Shows or hides the frame rate.
    pub fn set_frame_rate_display(&mut self, show: bool) -> (same: &mut Self)
        ensures
            same.spec_window().spec_shows_frame_rate() == show,
            same.spec_window()@ == old(self).spec_window()@,
            same.spec_window().spec_client_size() == old(self).spec_window().spec_client_size(),
            same.spec_window().spec_is_running() == old(self).spec_window().spec_is_running(),
            same.spec_window().spec_background_color() == old(self).spec_window().spec_background_color(),
            same.spec_window().spec_status() == old(self).spec_window().spec_status(),
            same.spec_window().spec_event_manager() == old(self).spec_window().spec_event_manager(),
            same.same_scene_as(old(self)),
            same.well_formed() == old(self).well_formed(),
            same@ == old(self)@,
            same.spec_renderer() == old(self).spec_renderer(),
            same.spec_uses_object_clearing() == old(self).spec_uses_object_clearing(),
            same.spec_restricts_frame_rate() == old(self).spec_restricts_frame_rate(),
            same.spec_frame_delay() == old(self).spec_frame_delay(),
            same.spec_time() == old(self).spec_time(),
            *final(self) == *final(same),
    {
        self.window.set_frame_rate_display(show);
        self
    }

    pub fn show_fps(&mut self) -> (same: &mut Self)
        ensures
            same.spec_window().spec_shows_frame_rate(),
            same.spec_window()@ == old(self).spec_window()@,
            same.spec_window().spec_client_size() == old(self).spec_window().spec_client_size(),
            same.spec_window().spec_is_running() == old(self).spec_window().spec_is_running(),
            same.spec_window().spec_background_color() == old(self).spec_window().spec_background_color(),
            same.spec_window().spec_status() == old(self).spec_window().spec_status(),
            same.spec_window().spec_event_manager() == old(self).spec_window().spec_event_manager(),
            same.same_scene_as(old(self)),
            same.well_formed() == old(self).well_formed(),
            same@ == old(self)@,
            same.spec_renderer() == old(self).spec_renderer(),
            same.spec_uses_object_clearing() == old(self).spec_uses_object_clearing(),
            same.spec_restricts_frame_rate() == old(self).spec_restricts_frame_rate(),
            same.spec_frame_delay() == old(self).spec_frame_delay(),
            same.spec_time() == old(self).spec_time(),
            *final(self) == *final(same),
    {
        self.set_frame_rate_display(true)
    }

    pub fn hide_fps(&mut self) -> (same: &mut Self)
        ensures
            !same.spec_window().spec_shows_frame_rate(),
            same.spec_window()@ == old(self).spec_window()@,
            same.spec_window().spec_client_size() == old(self).spec_window().spec_client_size(),
            same.spec_window().spec_is_running() == old(self).spec_window().spec_is_running(),
            same.spec_window().spec_background_color() == old(self).spec_window().spec_background_color(),
            same.spec_window().spec_status() == old(self).spec_window().spec_status(),
            same.spec_window().spec_event_manager() == old(self).spec_window().spec_event_manager(),
            same.same_scene_as(old(self)),
            same.well_formed() == old(self).well_formed(),
            same@ == old(self)@,
            same.spec_renderer() == old(self).spec_renderer(),
            same.spec_uses_object_clearing() == old(self).spec_uses_object_clearing(),
            same.spec_restricts_frame_rate() == old(self).spec_restricts_frame_rate(),
            same.spec_frame_delay() == old(self).spec_frame_delay(),
            same.spec_time() == old(self).spec_time(),
            *final(self) == *final(same),
    {
        self.set_frame_rate_display(false)
    }
}

} // verus!
