use simulation_engine::{
    Circle, Color, Cube, Event, EventFilter, IdAllocator, Object, OriginPosition, Quad, Real,
    RenderMode, Renderer, Scalar, Shape, SimulationBuilder, Simulator, Spot, Square, Vector3D,
    Vertex, Window, WindowEvent,
};

#[derive(Copy, Clone, Debug, PartialEq)]
struct F(f32);

impl Scalar for F {
    fn zero() -> Self {
        F(0.0)
    }
    fn one() -> Self {
        F(1.0)
    }
    fn add(self, rhs: Self) -> Self {
        F(self.0 + rhs.0)
    }
    fn mul(self, rhs: Self) -> Self {
        F(self.0 * rhs.0)
    }
    fn neg(self) -> Self {
        F(-self.0)
    }
}

impl Real for F {
    fn from_i32(value: i32) -> Self {
        F(value as f32)
    }
    fn pi() -> Self {
        F(std::f32::consts::PI)
    }
    fn div(self, rhs: Self) -> Self {
        F(self.0 / rhs.0)
    }
    fn rem_euclid(self, rhs: Self) -> Self {
        F(self.0.rem_euclid(rhs.0))
    }
    fn sin(self) -> Self {
        F(self.0.sin())
    }
    fn cos(self) -> Self {
        F(self.0.cos())
    }
    fn ceil(self) -> Self {
        F(self.0.ceil())
    }
    fn floor(self) -> Self {
        F(self.0.floor())
    }
    fn lt(self, rhs: Self) -> bool {
        self.0 < rhs.0
    }
    fn same(self, rhs: Self) -> bool {
        self.0 == rhs.0
    }
    fn to_i32(self) -> i32 {
        self.0 as i32
    }
}

const WHITE: u32 = 0x00ff_ffff;
const RED: u32 = 0x00ff_0000;

fn lit(sim: &Simulator<F>) -> Vec<(i32, i32)> {
    let (width, _) = sim.window().get_client_size();
    let mut out = Vec::new();
    for (i, p) in sim.window().pixels().iter().enumerate() {
        if *p != WHITE {
            out.push((i as i32 % width, i as i32 / width));
        }
    }
    out.sort();
    out
}

fn flat(width: i32, height: i32) -> SimulationBuilder {
    let _ = (width, height);
    SimulationBuilder::new().use_2d().set_origin(OriginPosition::TOPLEFT).disable_3d_rotation()
}

#[test]
fn registering_objects_yields_distinct_resolvable_ids() {
    let mut ids = IdAllocator::new();
    let mut sim: Simulator<F> = SimulationBuilder::new().build(Window::new(8, 8, Color::white()));
    assert_eq!(sim.object_count(), 0);
    let mut given = Vec::new();
    for i in 0..50 {
        let id = match i % 4 {
            0 => Cube::new(&mut ids).register(&mut sim),
            1 => Spot::new(&mut ids, Color::red()).register(&mut sim),
            2 => Square::new(&mut ids, F(2.0)).register(&mut sim),
            _ => Shape::Spot(Spot::new(&mut ids, Color::blue())).register(&mut sim),
        };
        assert!(!given.contains(&id));
        given.push(id);
        assert_eq!(sim.object_count(), given.len());
    }
    assert_eq!(given, (0..50).collect::<Vec<usize>>());
    for id in given.iter() {
        let found = sim.get_object_by_id(id);
        assert_eq!(found.map(|shape| shape.get_id()), Some(*id));
    }
    assert!(sim.get_object_by_id(&50).is_none());
}

#[test]
fn id_allocator_counts_up() {
    let mut ids = IdAllocator::new();
    assert_eq!(ids.new_id(), 0);
    assert_eq!(ids.new_id(), 1);
    assert_eq!(ids.new_id(), 2);
    let a: Cube<F> = Cube::new(&mut ids);
    let b: Spot<F> = Spot::new(&mut ids, Color::red());
    let c: Circle<F> = Circle::new(&mut ids, Color::red(), Color::blue());
    let d: Quad<F> = Quad::from_dimensions(&mut ids, F(1.0), F(2.0));
    assert_eq!((a.get_id(), b.get_id(), c.get_id(), d.get_id()), (3, 4, 5, 6));
}

#[test]
fn object_with_a_number_that_is_taken_replaces_the_former() {
    let mut first = IdAllocator::new();
    let mut second = IdAllocator::new();
    let mut sim: Simulator<F> = flat(8, 8).build(Window::new(8, 8, Color::white()));
    let a = Spot::new(&mut first, Color::red()).set_position(F(1.0), F(1.0)).register(&mut sim);
    let b = Spot::new(&mut first, Color::red()).set_position(F(2.0), F(2.0)).register(&mut sim);
    let c = Spot::new(&mut second, Color::red()).set_position(F(3.0), F(3.0)).register(&mut sim);
    assert_eq!((a, b, c), (0, 1, 0));
    assert_eq!(sim.object_count(), 2);
    sim.update(F(0.0)).unwrap();
    assert_eq!(lit(&sim), vec![(2, 2), (3, 3)]);
}

#[test]
fn removed_object_is_gone() {
    let mut ids = IdAllocator::new();
    let mut sim: Simulator<F> = flat(8, 8).build(Window::new(8, 8, Color::white()));
    let a = Spot::new(&mut ids, Color::red()).set_position(F(1.0), F(1.0)).register(&mut sim);
    let b = Spot::new(&mut ids, Color::red()).set_position(F(2.0), F(2.0)).register(&mut sim);
    let c = Spot::new(&mut ids, Color::red()).set_position(F(3.0), F(3.0)).register(&mut sim);
    let removed = sim.remove_object(&b);
    assert_eq!(removed.map(|shape| shape.get_id()), Some(b));
    assert!(sim.remove_object(&b).is_none());
    assert!(sim.get_object_by_id(&b).is_none());
    assert!(sim.get_object_by_id(&a).is_some());
    assert!(sim.get_object_by_id(&c).is_some());
    assert_eq!(sim.object_count(), 2);
    assert_eq!(sim.clear_from_screen(&b), Err(()));
    sim.update(F(0.0)).unwrap();
    assert_eq!(lit(&sim), vec![(1, 1), (3, 3)]);
}

#[test]
fn update_returns_the_delta_and_draws_every_object() {
    let mut ids = IdAllocator::new();
    let mut sim: Simulator<F> = flat(8, 8).build(Window::new(8, 8, Color::white()));
    Spot::new(&mut ids, Color::red()).set_position(F(3.0), F(4.0)).register(&mut sim);
    Spot::new(&mut ids, Color::blue()).set_position(F(5.0), F(1.0)).register(&mut sim);
    assert_eq!(sim.time.get_delta_time(), F(0.0));
    assert_eq!(sim.update(F(0.25)), Ok(F(0.25)));
    assert_eq!(sim.time.get_delta_time(), F(0.25));
    assert_eq!(lit(&sim), vec![(3, 4), (5, 1)]);
    assert_eq!(sim.window().pixels()[4 * 8 + 3], RED);
    assert_eq!(sim.window().pixels()[1 * 8 + 5], 0x0000_00ff);
}

#[test]
fn background_is_repainted_before_each_frame() {
    let mut ids = IdAllocator::new();
    let mut sim: Simulator<F> = flat(8, 8).use_background_fill().build(Window::new(8, 8, Color::white()));
    let id = Spot::new(&mut ids, Color::red()).set_position(F(3.0), F(4.0)).register(&mut sim);
    sim.update(F(0.0)).unwrap();
    assert_eq!(lit(&sim), vec![(3, 4)]);
    sim.get_object_by_id(&id).unwrap().transform_mut().translate(F(2.0), F(-1.0), F(0.0));
    sim.update(F(0.0)).unwrap();
    assert_eq!(lit(&sim), vec![(5, 3)]);
    // nothing was cached
    assert_eq!(sim.get_object_by_id(&id).unwrap().get_cached_transform().position.x, F(0.0));
}

#[test]
fn without_repaint_frames_are_drawn_over_each_other() {
    let mut ids = IdAllocator::new();
    let mut sim: Simulator<F> = flat(8, 8).use_object_clearing().build(Window::new(8, 8, Color::white()));
    let id = Spot::new(&mut ids, Color::red()).set_position(F(3.0), F(4.0)).register(&mut sim);
    sim.update(F(0.0)).unwrap();
    sim.get_object_by_id(&id).unwrap().transform_mut().translate(F(2.0), F(-1.0), F(0.0));
    sim.update(F(0.0)).unwrap();
    assert_eq!(lit(&sim), vec![(3, 4), (5, 3)]);
}

#[test]
fn clear_pass_erases_the_object_where_it_was_drawn_last() {
    let mut ids = IdAllocator::new();
    let mut sim: Simulator<F> = flat(8, 8).use_object_clearing().build(Window::new(8, 8, Color::white()));
    let id = Spot::new(&mut ids, Color::red()).set_position(F(3.0), F(4.0)).register(&mut sim);
    sim.update(F(0.0)).unwrap();
    assert_eq!(lit(&sim), vec![(3, 4)]);
    // the pose that was drawn has been cached
    {
        let spot = sim.get_object_by_id(&id).unwrap();
        assert_eq!(spot.get_cached_transform().position.x, F(3.0));
        assert_eq!(spot.get_cached_transform().position.y, F(4.0));
        spot.transform_mut().set_position(F(6.0), F(6.0), F(0.0));
    }
    assert_eq!(sim.clear_from_screen(&id), Ok(()));
    // erased at the cached pose, not drawn at the new one
    assert_eq!(lit(&sim), vec![]);
    // the colours of the object are what they were
    assert_eq!(sim.get_object_by_id(&id).unwrap().get_frame_color(), Color::red());
    assert_eq!(sim.get_object_by_id(&id).unwrap().get_fill_color(), Color::red());
    sim.update(F(0.0)).unwrap();
    assert_eq!(lit(&sim), vec![(6, 6)]);
}

#[test]
fn clear_pass_of_a_cube_uses_the_cached_pose() {
    let mut ids = IdAllocator::new();
    let mut sim: Simulator<F> =
        SimulationBuilder::new().use_3d().use_object_clearing().build(Window::new(512, 512, Color::white()));
    let id = Cube::new(&mut ids).set_position(F(0.0), F(0.0), F(-20.0)).register(&mut sim);
    sim.update(F(0.0)).unwrap();
    let drawn = lit(&sim);
    assert!(drawn.len() > 8);
    for corner in [(74, 358), (438, 358), (54, 369), (458, 369), (74, 154), (438, 154), (54, 143), (458, 143)] {
        assert!(drawn.contains(&corner));
    }
    // move and turn the cube, then erase it: the silhouette that goes is the
    // one that was drawn
    {
        let cube = sim.get_object_by_id(&id).unwrap();
        cube.transform_mut().translate(F(3.0), F(1.0), F(-5.0));
        cube.transform_mut().rotate(F(20.0), F(50.0), F(20.0));
    }
    assert_eq!(sim.clear_from_screen(&id), Ok(()));
    assert_eq!(lit(&sim), vec![]);
    // had the clear pass used the current pose, the old silhouette would have stayed
    sim.update(F(0.0)).unwrap();
    let redrawn = lit(&sim);
    assert!(!redrawn.is_empty());
    assert_ne!(redrawn, drawn);
}

#[test]
fn update_fails_once_the_window_has_closed_and_ever_after() {
    let mut ids = IdAllocator::new();
    let mut sim: Simulator<F> = flat(8, 8).build(Window::new(8, 8, Color::white()));
    let id = Spot::new(&mut ids, Color::red()).set_position(F(3.0), F(4.0)).register(&mut sim);
    assert_eq!(sim.update(F(0.5)), Ok(F(0.5)));
    sim.window_mut().close();
    sim.get_object_by_id(&id).unwrap().transform_mut().set_position(F(1.0), F(1.0), F(0.0));
    for _ in 0..5 {
        assert_eq!(sim.update(F(0.1)), Err(()));
        // nothing was drawn, and the clock stands still
        assert_eq!(lit(&sim), vec![(3, 4)]);
        assert_eq!(sim.time.get_delta_time(), F(0.5));
        // nothing the simulator offers opens the window again
        sim.paint_background();
        sim.window_mut().fill(Color::white());
        sim.window_mut().draw_point(3, 4, Color::red());
        sim.set_frame_rate_restriction(true).set_target_frame_rate(30).show_fps().hide_fps();
        sim.set_3d_rotation(true);
        assert!(!sim.window().is_running());
    }
}

#[test]
fn wireframe_is_drawn_corner_by_corner_with_its_joins() {
    let mut ids = IdAllocator::new();
    let mut sim: Simulator<F> = flat(8, 8).build(Window::new(8, 8, Color::white()));
    let mut top_left: Vertex<F> = Vertex::new(Vector3D::new(F(1.0), F(1.0), F(0.0)));
    let mut top_right: Vertex<F> = Vertex::new(Vector3D::new(F(5.0), F(1.0), F(0.0)));
    let mut bottom_left: Vertex<F> = Vertex::new(Vector3D::new(F(1.0), F(4.0), F(0.0)));
    let bottom_right: Vertex<F> = Vertex::new(Vector3D::new(F(5.0), F(4.0), F(0.0)));
    top_left.add_connections(vec![1, 2]);
    top_right.add_connection(3);
    bottom_left.add_connection(3);
    let quad = Quad::new(&mut ids, top_left, top_right, bottom_left, bottom_right);
    quad.register(&mut sim);
    sim.update(F(0.0)).unwrap();
    let mut outline = Vec::new();
    for x in 1..=5 {
        outline.push((x, 1));
        outline.push((x, 4));
    }
    for y in 2..=3 {
        outline.push((1, y));
        outline.push((5, y));
    }
    outline.sort();
    assert_eq!(lit(&sim), outline);
}

#[test]
fn paint_object_draws_in_the_colour_it_is_given() {
    let mut ids = IdAllocator::new();
    let renderer: Renderer<F> = Renderer::new(RenderMode::R2D, OriginPosition::TOPLEFT, false);
    let mut window = Window::new(8, 8, Color::white());
    let mut spot = Shape::Spot(Spot::new(&mut ids, Color::red()).set_position(F(2.0), F(2.0)));
    spot.cache_transform();
    spot.transform_mut().set_position(F(5.0), F(5.0), F(0.0));
    Simulator::paint_object(&spot, &renderer, &mut window, false, Color::blue());
    assert_eq!(window.pixels()[5 * 8 + 5], 0x0000_00ff);
    Simulator::paint_object(&spot, &renderer, &mut window, true, Color::green());
    assert_eq!(window.pixels()[2 * 8 + 2], 0x0000_ff00);
}

#[test]
fn frame_wait_is_what_is_left_of_the_frame() {
    let mut sim: Simulator<F> =
        SimulationBuilder::new().lock_frame_rate(60).build(Window::new(2, 2, Color::white()));
    assert_eq!(sim.frame_wait(0), 16_666_666);
    assert_eq!(sim.frame_wait(6_666_666), 10_000_000);
    assert_eq!(sim.frame_wait(16_666_666), 0);
    assert_eq!(sim.frame_wait(u64::MAX), 0);
    sim.set_target_frame_rate(1000);
    assert_eq!(sim.frame_wait(1), 999_999);
    sim.set_target_frame_rate(u16::MAX);
    assert_eq!(sim.frame_wait(0), 15_259);
    sim.release_frame_rate();
    assert_eq!(sim.frame_wait(0), 0);
    sim.restrict_frame_rate();
    assert_eq!(sim.frame_wait(259), 15_000);
}

#[test]
fn turns_of_flat_scenes_can_be_switched() {
    let mut ids = IdAllocator::new();
    let mut sim: Simulator<F> = SimulationBuilder::new()
        .use_2d()
        .set_origin(OriginPosition::TOPLEFT)
        .allow_3d_rotation()
        .build(Window::new(64, 64, Color::white()));
    let id = Spot::new(&mut ids, Color::red()).set_position(F(10.0), F(20.0)).register(&mut sim);
    sim.update(F(0.0)).unwrap();
    // with turns the position counts twice
    assert_eq!(lit(&sim), vec![(20, 40)]);
    sim.disable_3d_rotation();
    sim.update(F(0.0)).unwrap();
    assert_eq!(lit(&sim), vec![(10, 20)]);
    sim.enable_3d_rotation();
    sim.update(F(0.0)).unwrap();
    assert_eq!(lit(&sim), vec![(20, 40)]);
    sim.set_3d_rotation(false);
    sim.update(F(0.0)).unwrap();
    assert_eq!(lit(&sim), vec![(10, 20)]);
    let _ = id;
}

#[test]
fn simulation_builder_defaults_and_setters() {
    let builder = SimulationBuilder::new();
    assert!(!builder.restrict_frame_rate && !builder.use_object_clearing && builder.allow_3d_rotation);
    assert_eq!(builder.target_frame_rate, 60);
    assert_eq!(builder.render_mode, RenderMode::R2D);
    assert_eq!((builder.width, builder.height), (512, 512));
    assert_eq!(builder.origin, OriginPosition::MIDDLEMIDDLE);
    let builder = builder
        .restrict_frame_rate()
        .set_target_frame_rate(30)
        .set_render_mode(RenderMode::R3D)
        .use_object_clearing()
        .set_origin(OriginPosition::TOPRIGHT)
        .disable_3d_rotation();
    assert!(builder.restrict_frame_rate && builder.use_object_clearing && !builder.allow_3d_rotation);
    assert_eq!(builder.target_frame_rate, 30);
    assert_eq!(builder.render_mode, RenderMode::R3D);
    assert_eq!(builder.origin, OriginPosition::TOPRIGHT);
    let builder = builder
        .release_frame_rate()
        .use_2d()
        .toggle_object_clearing()
        .toggle_3d_rotation();
    assert!(!builder.restrict_frame_rate && !builder.use_object_clearing && builder.allow_3d_rotation);
    assert_eq!(builder.render_mode, RenderMode::R2D);
    let builder = builder
        .lock_frame_rate(144)
        .use_3d()
        .toggle_object_clearing()
        .use_background_fill()
        .toggle_3d_rotation()
        .allow_3d_rotation();
    assert!(builder.restrict_frame_rate && !builder.use_object_clearing && builder.allow_3d_rotation);
    assert_eq!(builder.target_frame_rate, 144);
    assert_eq!(builder.render_mode, RenderMode::R3D);
    let mut builder = builder;
    builder
        .ref_release_frame_rate()
        .ref_set_target_frame_rate(10)
        .ref_use_2d()
        .ref_use_object_clearing()
        .ref_set_origin(OriginPosition::BOTTOMLEFT)
        .ref_disable_3d_rotation();
    assert!(!builder.restrict_frame_rate && builder.use_object_clearing && !builder.allow_3d_rotation);
    assert_eq!((builder.target_frame_rate, builder.render_mode), (10, RenderMode::R2D));
    assert_eq!(builder.origin, OriginPosition::BOTTOMLEFT);
    builder
        .ref_restrict_frame_rate()
        .ref_lock_frame_rate(20)
        .ref_set_render_mode(RenderMode::R3D)
        .ref_use_3d()
        .ref_toggle_object_clearing()
        .ref_use_background_fill()
        .ref_allow_3d_rotation()
        .ref_toggle_3d_rotation();
    assert!(builder.restrict_frame_rate && !builder.use_object_clearing && !builder.allow_3d_rotation);
    assert_eq!((builder.target_frame_rate, builder.render_mode), (20, RenderMode::R3D));
    let sim: Simulator<F> = builder.ref_build(Window::new(3, 3, Color::white()));
    assert_eq!(sim.object_count(), 0);
    assert_eq!(sim.frame_wait(0), 50_000_000);
}

#[test]
fn events_of_the_window_are_polled_through_the_simulator() {
    let mut sim: Simulator<F> = SimulationBuilder::new().build(Window::new(2, 2, Color::white()));
    sim.window_mut().begin_update(false);
    sim.window_mut().event_manager_mut().push_event(Event::MOUSEMOVE);
    let mut events = sim.poll_events().filter(EventFilter::WINDOWEVENT);
    assert_eq!(events.next(), Some(Event::MOUSEMOVE));
    assert_eq!(events.next(), Some(Event::WINDOWBLUR(WindowEvent::WINDOWBLUR)));
    assert_eq!(events.next(), None);
    assert_eq!(sim.window_mut().event_manager_mut().flush(), 0);
}

#[test]
fn id_allocator_starts_again_at_zero_after_the_largest_number() {
    let mut ids = IdAllocator::starting_at(usize::MAX - 1);
    assert_eq!(ids.new_id(), usize::MAX - 1);
    assert_eq!(ids.new_id(), usize::MAX);
    assert_eq!(ids.new_id(), 0);
    assert_eq!(ids.new_id(), 1);
    // a number that comes round again takes the place of the object that had it
    let mut sim: Simulator<F> = flat(8, 8).build(Window::new(8, 8, Color::white()));
    let mut ids = IdAllocator::starting_at(usize::MAX);
    let last = Spot::new(&mut ids, Color::red()).set_position(F(1.0), F(1.0)).register(&mut sim);
    let first = Spot::new(&mut ids, Color::red()).set_position(F(2.0), F(2.0)).register(&mut sim);
    assert_eq!((last, first), (usize::MAX, 0));
    assert_eq!(sim.object_count(), 2);
    let mut again = IdAllocator::new();
    let taken = Spot::new(&mut again, Color::red()).set_position(F(3.0), F(3.0)).register(&mut sim);
    assert_eq!(taken, 0);
    assert_eq!(sim.object_count(), 2);
}
