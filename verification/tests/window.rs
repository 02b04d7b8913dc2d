use simulation_engine::{
    CloseState, Color, Event, KeyboardEvent, MouseButton, MouseEvent, NonClientArea, Placement,
    Pointer, Rect, Response, SizingDirection, Surface, Window, WindowBuilder, WindowEvent,
    WindowMessage,
};

const WHITE: u32 = 0x00ff_ffff;
const RED: u32 = 0x00ff_0000;

fn lit(window: &Window) -> Vec<(i32, i32)> {
    let (width, _) = window.get_client_size();
    let mut out = Vec::new();
    for (i, p) in window.pixels().iter().enumerate() {
        if *p != WHITE {
            out.push((i as i32 % width, i as i32 / width));
        }
    }
    out
}

fn sorted(mut points: Vec<(i32, i32)>) -> Vec<(i32, i32)> {
    points.sort();
    points
}

fn still() -> Pointer {
    Pointer {
        left_mouse_down: false,
        cursor: (0, 0),
        window_rect: Rect { left: 0, top: 0, right: 0, bottom: 0 },
    }
}

fn events(window: &mut Window) -> Vec<Event> {
    let mut out = Vec::new();
    let manager = window.event_manager_mut();
    let mut cursor = manager.poll_iter();
    while let Some(e) = cursor.next() {
        out.push(e);
    }
    out.reverse();
    out
}

#[test]
fn new_window_is_open_and_in_its_background_colour() {
    let window = Window::new(4, 3, Color::white());
    assert!(window.is_running());
    assert_eq!(window.get_client_size(), (4, 3));
    assert_eq!(window.get_background_color(), Color::white());
    assert_eq!(window.pixels(), &vec![WHITE; 12]);
    let status = window.status();
    assert_eq!(status.minimum_size, (-1, -1));
    assert_eq!(status.maximum_size, (-1, -1));
    assert!(status.focused && !status.maximized);
    assert_eq!(status.close_mode, CloseState::NORMAL);
}

#[test]
fn negative_extents_count_as_zero() {
    let mut window = Window::new(-4, 3, Color::white());
    assert_eq!(window.get_client_size(), (0, 3));
    assert!(window.pixels().is_empty());
    window.draw_point(1, 1, Color::red());
    window.draw_line((0, 0), (5, 5), Color::red());
    window.fill(Color::red());
    assert!(window.pixels().is_empty());
}

#[test]
fn draw_point_sets_one_pixel() {
    let mut window = Window::new(4, 3, Color::white());
    window.draw_point(2, 1, Color::red());
    assert_eq!(lit(&window), vec![(2, 1)]);
    assert_eq!(window.pixels()[1 * 4 + 2], RED);
}

#[test]
fn draw_point_outside_is_moved_to_the_edge() {
    let mut window = Window::new(4, 3, Color::white());
    window.draw_point(-5, 1, Color::red());
    window.draw_point(9, 9, Color::red());
    window.draw_point(2, -1, Color::red());
    window.draw_point(i32::MAX, i32::MIN, Color::red());
    assert_eq!(sorted(lit(&window)), vec![(0, 1), (2, 0), (3, 0), (3, 2)]);
}

#[test]
fn horizontal_and_vertical_lines() {
    let mut window = Window::new(6, 6, Color::white());
    window.draw_line((1, 2), (4, 2), Color::red());
    assert_eq!(lit(&window), vec![(1, 2), (2, 2), (3, 2), (4, 2)]);
    let mut window = Window::new(6, 6, Color::white());
    window.draw_line((4, 2), (1, 2), Color::red());
    assert_eq!(lit(&window), vec![(1, 2), (2, 2), (3, 2), (4, 2)]);
    let mut window = Window::new(6, 6, Color::white());
    window.draw_line((3, 5), (3, 1), Color::red());
    assert_eq!(sorted(lit(&window)), vec![(3, 1), (3, 2), (3, 3), (3, 4), (3, 5)]);
}

#[test]
fn line_of_one_point() {
    let mut window = Window::new(6, 6, Color::white());
    window.draw_line((2, 3), (2, 3), Color::red());
    assert_eq!(lit(&window), vec![(2, 3)]);
}

#[test]
fn sloped_lines_step_by_the_error_term() {
    let mut window = Window::new(6, 6, Color::white());
    window.draw_line((0, 0), (3, 1), Color::red());
    assert_eq!(sorted(lit(&window)), vec![(0, 0), (1, 0), (2, 1), (3, 1)]);
    let mut window = Window::new(6, 6, Color::white());
    window.draw_line((0, 0), (1, 3), Color::red());
    assert_eq!(sorted(lit(&window)), vec![(0, 0), (1, 1), (1, 2), (1, 3)]);
    let mut window = Window::new(6, 6, Color::white());
    window.draw_line((0, 0), (3, 3), Color::red());
    assert_eq!(sorted(lit(&window)), vec![(0, 0), (1, 1), (2, 2), (3, 3)]);
    let mut window = Window::new(6, 6, Color::white());
    window.draw_line((5, 5), (2, 4), Color::red());
    assert_eq!(sorted(lit(&window)), vec![(2, 4), (3, 4), (4, 5), (5, 5)]);
    let mut window = Window::new(6, 6, Color::white());
    window.draw_line((0, 5), (5, 0), Color::red());
    assert_eq!(sorted(lit(&window)), vec![(0, 5), (1, 4), (2, 3), (3, 2), (4, 1), (5, 0)]);
}

#[test]
fn line_that_leaves_the_window_runs_along_its_edge() {
    let mut window = Window::new(4, 4, Color::white());
    window.draw_line((2, 2), (9, 2), Color::red());
    assert_eq!(lit(&window), vec![(2, 2), (3, 2)]);
    let mut window = Window::new(4, 4, Color::white());
    window.draw_line((-3, -3), (1, 1), Color::red());
    assert_eq!(sorted(lit(&window)), vec![(0, 0), (1, 1)]);
}

#[test]
fn fill_paints_every_pixel() {
    let mut window = Window::new(3, 2, Color::white());
    window.draw_point(1, 1, Color::red());
    window.fill(Color::blue());
    assert_eq!(window.pixels(), &vec![0x0000_00ffu32; 6]);
    assert_eq!(window.get_background_color(), Color::white());
}

#[test]
fn resize_gives_a_new_grid_in_the_background_colour() {
    let mut window = Window::new(3, 2, Color::white());
    window.draw_point(1, 1, Color::red());
    window.set_background_color(Color::blue());
    window.resize(2, 5);
    assert_eq!(window.get_client_size(), (2, 5));
    assert_eq!(window.pixels(), &vec![0x0000_00ffu32; 10]);
    window.resize(-1, 5);
    assert_eq!(window.get_client_size(), (0, 5));
}

#[test]
fn closed_window_stays_closed() {
    let mut window = Window::new(3, 2, Color::white());
    window.close();
    assert!(!window.is_running());
    window.draw_point(1, 1, Color::red());
    window.fill(Color::white());
    window.resize(4, 4);
    window.show_frame_rate();
    window.hide_frame_rate();
    window.set_frame_rate_display(true);
    window.begin_update(true);
    window.handle_message(WindowMessage::MOUSEMOVE, still());
    window.close();
    assert!(!window.is_running());
}

#[test]
fn surface_plots_and_fills() {
    let mut surface = Surface::new(3, 2, 7);
    assert_eq!(surface.size(), (3, 2));
    surface.plot(1, 1, 9);
    surface.plot(-100, 100, 8);
    assert_eq!(surface.pixels(), &vec![7, 7, 7, 8, 9, 7]);
    surface.fill(1);
    assert_eq!(surface.pixels(), &vec![1; 6]);
}

#[test]
fn size_is_held_within_its_limits() {
    let mut window = Window::new(3, 2, Color::white());
    assert_eq!(window.clamp_width(5), 5);
    assert_eq!(window.clamp_height(-7), -7);
    window.configure((100, 50), (200, 150), false, CloseState::NORMAL);
    assert_eq!(window.clamp_width(99), 100);
    assert_eq!(window.clamp_width(100), 100);
    assert_eq!(window.clamp_width(150), 150);
    assert_eq!(window.clamp_width(201), 200);
    assert_eq!(window.clamp_height(49), 50);
    assert_eq!(window.clamp_height(151), 150);
    window.configure((-1, 50), (200, -1), false, CloseState::NORMAL);
    assert_eq!(window.clamp_width(-5), -5);
    assert_eq!(window.clamp_width(300), 200);
    assert_eq!(window.clamp_height(10), 50);
    assert_eq!(window.clamp_height(1000), 1000);
}

#[test]
fn mouse_messages_become_events() {
    let mut window = Window::new(3, 2, Color::white());
    for message in [
        WindowMessage::MOUSEMOVE,
        WindowMessage::LBUTTONDOWN(1, 2),
        WindowMessage::LBUTTONUP(3, 4),
        WindowMessage::RBUTTONDOWN(5, 6),
        WindowMessage::RBUTTONUP(7, 8),
        WindowMessage::MBUTTONDOWN(9, 10),
        WindowMessage::MBUTTONUP(11, 12),
        WindowMessage::XBUTTONDOWN(true, 13, 14),
        WindowMessage::XBUTTONDOWN(false, 15, 16),
        WindowMessage::XBUTTONUP(true, 17, 18),
        WindowMessage::MOUSEWHEEL(120, 19, 20),
        WindowMessage::MOUSEHWHEEL(-120, 21, 22),
        WindowMessage::OTHER,
        WindowMessage::MOUSELEAVE,
        WindowMessage::NCMOUSEMOVE,
        WindowMessage::NCMOUSELEAVE,
        WindowMessage::SYSCOMMAND(false),
    ] {
        let response = window.handle_message(message, still());
        assert_eq!(
            response,
            Response {
                use_default_protocol: true,
                placement: None,
                show_maximized: None,
                kill_timer: false,
            }
        );
    }
    assert_eq!(
        events(&mut window),
        vec![
            Event::MOUSEMOVE,
            Event::MOUSEDOWN(MouseEvent::MOUSEDOWN(MouseButton::LEFTMOUSE, 1, 2)),
            Event::MOUSEUP(MouseEvent::MOUSEUP(MouseButton::LEFTMOUSE, 3, 4)),
            Event::MOUSEDOWN(MouseEvent::MOUSEDOWN(MouseButton::RIGHTMOUSE, 5, 6)),
            Event::MOUSEUP(MouseEvent::MOUSEUP(MouseButton::RIGHTMOUSE, 7, 8)),
            Event::MOUSEDOWN(MouseEvent::MOUSEDOWN(MouseButton::MIDDLEMOUSE, 9, 10)),
            Event::MOUSEUP(MouseEvent::MOUSEUP(MouseButton::MIDDLEMOUSE, 11, 12)),
            Event::MOUSEDOWN(MouseEvent::MOUSEDOWN(MouseButton::XBUTTON, 13, 14)),
            Event::MOUSEDOWN(MouseEvent::MOUSEDOWN(MouseButton::YBUTTON, 15, 16)),
            Event::MOUSEDOWN(MouseEvent::MOUSEDOWN(MouseButton::XBUTTON, 17, 18)),
            Event::MOUSESCROLL(MouseEvent::MOUSESCROLL(0, 120, 19, 20)),
            Event::MOUSESCROLL(MouseEvent::MOUSESCROLL(-120, 0, 21, 22)),
        ]
    );
}

#[test]
fn key_messages_count_repeats() {
    let mut window = Window::new(3, 2, Color::white());
    window.handle_message(WindowMessage::KEYDOWN(65), still());
    window.handle_message(WindowMessage::KEYDOWN(65), still());
    window.handle_message(WindowMessage::KEYDOWN(65), still());
    window.handle_message(WindowMessage::KEYUP(65), still());
    window.handle_message(WindowMessage::KEYUP(66), still());
    window.handle_message(WindowMessage::KEYDOWN(65), still());
    assert_eq!(
        events(&mut window),
        vec![
            Event::KEYDOWN(KeyboardEvent::KEYDOWN(65)),
            Event::KEYHELD(KeyboardEvent::KEYHELD(65, 2)),
            Event::KEYHELD(KeyboardEvent::KEYHELD(65, 3)),
            Event::KEYPRESS(KeyboardEvent::KEYPRESS(65, 3)),
            Event::KEYUP(KeyboardEvent::KEYUP(65)),
            Event::KEYUP(KeyboardEvent::KEYUP(66)),
            Event::KEYDOWN(KeyboardEvent::KEYDOWN(65)),
        ]
    );
}

#[test]
fn buttons_of_the_title_bar() {
    let mut window = Window::new(3, 2, Color::white());
    let response = window.handle_message(WindowMessage::NCLBUTTONDOWN(NonClientArea::MAXBUTTON), still());
    assert_eq!(response.show_maximized, Some(true));
    assert!(response.use_default_protocol);
    assert!(window.status().maximized);
    let response = window.handle_message(WindowMessage::NCLBUTTONDOWN(NonClientArea::MAXBUTTON), still());
    assert_eq!(response.show_maximized, Some(false));
    assert!(!window.status().maximized);
    window.handle_message(WindowMessage::NCLBUTTONDOWN(NonClientArea::MINBUTTON), still());
    window.handle_message(WindowMessage::NCLBUTTONDOWN(NonClientArea::OTHER), still());
    window.handle_message(WindowMessage::SYSCOMMAND(true), still());
    let response = window.handle_message(WindowMessage::NCLBUTTONDOWN(NonClientArea::CLOSE), still());
    assert!(response.use_default_protocol);
    let response = window.handle_message(WindowMessage::NCLBUTTONUP, still());
    assert!(response.kill_timer && response.use_default_protocol);
    assert_eq!(
        events(&mut window),
        vec![
            Event::WINDOWMAXIMIZE(WindowEvent::WINDOWMAXIMIZE),
            Event::WINDOWUNMAXIMIZE(WindowEvent::WINDOWUNMAXIMIZE),
            Event::WINDOWMINIMIZE(WindowEvent::WINDOWMINIMIZE),
            Event::WINDOWRESTORE(WindowEvent::WINDOWRESTORE),
            Event::WINDOWCLOSEFINAL(WindowEvent::WINDOWCLOSEFINAL),
        ]
    );
}

#[test]
fn window_that_asks_before_it_closes_reports_the_request() {
    let mut window = Window::new(3, 2, Color::white());
    window.configure((-1, -1), (-1, -1), false, CloseState::REQUIREAPPROVE);
    let response = window.handle_message(WindowMessage::NCLBUTTONDOWN(NonClientArea::CLOSE), still());
    assert!(!response.use_default_protocol);
    assert_eq!(events(&mut window), vec![Event::WINDOWCLOSEBEGIN(WindowEvent::WINDOWCLOSEBEGIN)]);
}

#[test]
fn dragging_a_border_resizes_the_window() {
    let mut window = Window::new(3, 2, Color::white());
    window.configure((50, 50), (400, 300), false, CloseState::NORMAL);
    let rect = Rect { left: 100, top: 100, right: 300, bottom: 250 };
    let grab = Pointer { left_mouse_down: true, cursor: (300, 250), window_rect: rect };
    let response = window.handle_message(
        WindowMessage::NCLBUTTONDOWN(NonClientArea::BORDER(SizingDirection::BOTTOMRIGHT)),
        grab,
    );
    assert!(!response.use_default_protocol);
    assert_eq!(window.status().update_state.sizing_direction, SizingDirection::BOTTOMRIGHT);
    assert_eq!(window.status().update_state.cached_cursor_pos, (300, 250));
    // the pointer has not moved yet
    let response = window.handle_message(WindowMessage::MOUSEMOVE, grab);
    assert_eq!(response.placement, None);
    assert!(!response.use_default_protocol);
    // it moves by (20, 10)
    let moved = Pointer { cursor: (320, 260), ..grab };
    let response = window.handle_message(WindowMessage::MOUSEMOVE, moved);
    assert_eq!(response.placement, Some(Placement { x: 100, y: 100, width: 220, height: 160 }));
    assert!(!response.use_default_protocol);
    assert!(window.status().update_state.cancel_draw);
    assert_eq!(window.status().update_state.cached_cursor_pos, (320, 260));
    // far out: held at the upper limit
    let far = Pointer { cursor: (900, 900), ..grab };
    let response = window.handle_message(WindowMessage::NCMOUSEMOVE, far);
    assert_eq!(response.placement, Some(Placement { x: 100, y: 100, width: 400, height: 300 }));
    assert!(response.use_default_protocol);
    // the button comes up: the border is let go of
    let released = Pointer { left_mouse_down: false, cursor: (950, 950), ..grab };
    let response = window.handle_message(WindowMessage::MOUSEMOVE, released);
    assert_eq!(response.placement, None);
    assert!(response.use_default_protocol);
    assert_eq!(window.status().update_state.sizing_direction, SizingDirection::NONE);
    assert_eq!(
        events(&mut window),
        vec![
            Event::WINDOWRESIZE(WindowEvent::WINDOWRESIZE),
            Event::WINDOWRESIZE(WindowEvent::WINDOWRESIZE),
            Event::MOUSEMOVE,
        ]
    );
}

#[test]
fn dragging_the_top_left_moves_the_window() {
    let rect = Rect { left: 100, top: 100, right: 300, bottom: 250 };
    let cases = [
        (SizingDirection::TOPLEFT, (90, 80), Placement { x: 90, y: 80, width: 210, height: 170 }),
        (SizingDirection::TOP, (90, 80), Placement { x: 100, y: 80, width: 200, height: 170 }),
        (SizingDirection::LEFT, (90, 80), Placement { x: 90, y: 100, width: 210, height: 150 }),
        (SizingDirection::RIGHT, (310, 80), Placement { x: 100, y: 100, width: 210, height: 150 }),
        (SizingDirection::BOTTOM, (310, 260), Placement { x: 100, y: 100, width: 200, height: 160 }),
        (SizingDirection::TOPRIGHT, (310, 80), Placement { x: 100, y: 80, width: 210, height: 170 }),
        (SizingDirection::BOTTOMLEFT, (90, 260), Placement { x: 90, y: 100, width: 210, height: 160 }),
        (SizingDirection::NONE, (90, 260), Placement { x: 100, y: 100, width: 200, height: 150 }),
    ];
    for (direction, cursor, expected) in cases {
        let mut window = Window::new(3, 2, Color::white());
        let grab = Pointer { left_mouse_down: true, cursor: (0, 0), window_rect: rect };
        window.handle_message(WindowMessage::NCLBUTTONDOWN(NonClientArea::BORDER(direction)), grab);
        let placement = window.handle_resize(Pointer { cursor, ..grab });
        assert_eq!(placement, Some(expected));
        assert_eq!(window.handle_resize(Pointer { cursor, ..grab }), None);
    }
}

#[test]
fn is_resizing_needs_a_border_and_the_button() {
    let mut window = Window::new(3, 2, Color::white());
    assert!(!window.is_resizing(true));
    window.handle_message(
        WindowMessage::NCLBUTTONDOWN(NonClientArea::BORDER(SizingDirection::LEFT)),
        still(),
    );
    assert!(window.is_resizing(true));
    assert!(window.is_resizing(true));
    assert!(!window.is_resizing(false));
    assert!(!window.is_resizing(true));
}

#[test]
fn update_reports_focus_and_blur() {
    let mut window = Window::new(3, 2, Color::white());
    assert!(window.begin_update(true));
    assert!(window.begin_update(false));
    assert!(window.begin_update(false));
    assert!(window.begin_update(true));
    assert_eq!(
        events(&mut window),
        vec![
            Event::WINDOWBLUR(WindowEvent::WINDOWBLUR),
            Event::WINDOWFOCUS(WindowEvent::WINDOWFOCUS),
        ]
    );
}

#[test]
fn frame_after_a_resize_is_not_shown() {
    let mut window = Window::new(3, 2, Color::white());
    assert!(window.draw_screen(false, (3, 2)));
    assert!(!window.draw_screen(true, (3, 2)));
    // the client area has changed
    assert!(!window.draw_screen(false, (4, 2)));
    assert_eq!(window.get_client_size(), (4, 2));
    assert!(!window.draw_screen(false, (4, 2)));
    // the next update leaves the messages alone and shows a frame again
    assert!(!window.begin_update(true));
    assert!(window.draw_screen(false, (4, 2)));
    assert!(window.begin_update(true));
}

#[test]
fn frames_are_counted_by_the_second() {
    let mut window = Window::new(3, 2, Color::white());
    assert_eq!(window.count_frame(true), None);
    window.show_frame_rate();
    assert_eq!(window.count_frame(false), None);
    assert_eq!(window.count_frame(false), None);
    assert_eq!(window.count_frame(true), Some(3));
    assert_eq!(window.count_frame(false), None);
    window.hide_frame_rate();
    // counting goes on to the end of the second
    assert_eq!(window.count_frame(false), None);
    assert_eq!(window.count_frame(true), Some(3));
    assert_eq!(window.count_frame(true), None);
}

#[test]
fn builder_defaults_and_setters() {
    let builder = WindowBuilder::new();
    assert_eq!(builder.title, "New Window");
    assert_eq!((builder.x, builder.y, builder.width, builder.height), (i32::MIN, i32::MIN, i32::MIN, i32::MIN));
    assert_eq!(builder.background_color, Color::white());
    assert_eq!((builder.min_size, builder.max_size), ((-1, -1), (-1, -1)));
    assert!(builder.allow_resize && builder.allow_maximize);
    assert!(!builder.show_frame_rate && !builder.start_maximized && !builder.close_approval);
    let builder = builder
        .set_position(1, 2)
        .set_size(600, 800)
        .set_title("3D Test")
        .set_background_color(Color::grey())
        .show_frame_rate()
        .approve_close_mode()
        .disable_resize();
    assert_eq!((builder.x, builder.y, builder.width, builder.height), (1, 2, 600, 800));
    assert_eq!(builder.title, "3D Test");
    assert_eq!(builder.background_color, Color::grey());
    assert!(builder.show_frame_rate && builder.close_approval && !builder.allow_resize);
    let builder = builder.set_x(5).set_y(6).set_width(7).set_height(8).hide_frame_rate();
    assert_eq!((builder.x, builder.y, builder.width, builder.height), (5, 6, 7, 8));
    let builder = builder.normal_close_mode().allow_resize().set_close_mode(true).set_allow_resize(false);
    assert!(builder.close_approval && !builder.allow_resize && !builder.show_frame_rate);
}

#[test]
fn builder_that_may_not_maximize_does_not_start_maximized() {
    let builder = WindowBuilder::new().start_maximized();
    assert!(builder.start_maximized);
    let builder = builder.disable_maximize();
    assert!(!builder.start_maximized && !builder.allow_maximize);
    let builder = builder.start_maximized();
    assert!(!builder.start_maximized);
    let builder = builder.set_start_maximized(true);
    assert!(!builder.start_maximized);
    let builder = builder.allow_maximize().set_start_maximized(true);
    assert!(builder.start_maximized);
    let builder = builder.start_unmaximixed();
    assert!(!builder.start_maximized);
    let mut builder = builder.set_allow_maximize(true);
    builder.ref_start_maximixed();
    assert!(builder.start_maximized);
    builder.ref_start_unmaximized();
    assert!(!builder.start_maximized);
}

#[test]
fn builder_size_limits() {
    // no upper limit yet: each extent is taken on its own
    let builder = WindowBuilder::new().set_min_size(100, 50);
    assert_eq!(builder.min_size, (100, 50));
    // above the lower limit as a pair: taken whole
    let builder = builder.set_max_size(200, 10);
    assert_eq!(builder.max_size, (200, 10));
    // not above the lower limit, and no extent open: refused
    let builder = builder.set_max_size(100, 50);
    assert_eq!(builder.max_size, (200, 10));
    let builder = builder.set_max_size(50, 500);
    assert_eq!(builder.max_size, (200, 10));
    // below the upper limit as a pair: taken whole
    let builder = builder.set_min_size(200, 5);
    assert_eq!(builder.min_size, (200, 5));
    let builder = builder.set_min_size(300, 1);
    assert_eq!(builder.min_size, (200, 5));
    // one extent of the upper limit is open
    let builder = WindowBuilder::new().set_max_size(-1, 100).set_min_size(5, 200);
    assert_eq!(builder.max_size, (-1, 100));
    assert_eq!(builder.min_size, (5, -1));
    let builder = WindowBuilder::new().set_min_size(-1, 100).set_max_size(-5, 50);
    assert_eq!(builder.max_size, (-5, -1));
}

#[test]
fn builder_opens_a_window_with_its_settings() {
    let builder = WindowBuilder::new()
        .set_background_color(Color::grey())
        .set_min_size(100, 10)
        .set_max_size(500, 400)
        .show_frame_rate()
        .start_maximized()
        .approve_close_mode();
    let window = builder.ref_build((4, 3), 30);
    assert_eq!(window.get_client_size(), (4, 3));
    assert_eq!(window.pixels(), &vec![0x0080_8080u32; 12]);
    assert_eq!(window.get_background_color(), Color::grey());
    assert!(window.is_running());
    let status = window.status();
    // a window is never lower than its title bar
    assert_eq!(status.minimum_size, (100, 31));
    assert_eq!(status.maximum_size, (500, 400));
    assert!(status.maximized);
    assert_eq!(status.close_mode, CloseState::REQUIREAPPROVE);
    let window = WindowBuilder::new().set_min_size(100, 50).build((2, 2), 30);
    assert_eq!(window.status().minimum_size, (100, 50));
    assert_eq!(window.status().close_mode, CloseState::NORMAL);
}

#[test]
fn modal_handling_ends_with_the_next_update_outside_the_timer() {
    let mut window = Window::new(3, 2, Color::white());
    window.set_modal_running(true);
    window.set_timer_callback_running(true);
    window.begin_update(true);
    assert!(window.status().modal_running);
    window.set_timer_callback_running(false);
    window.begin_update(true);
    assert!(!window.status().modal_running);
    assert!(!window.status().timer_callback_running);
}

#[test]
fn pixels_are_written_as_blue_green_red() {
    let mut window = Window::new(2, 2, Color::rgb(1, 2, 3));
    window.draw_point(1, 0, Color::rgb(0x12, 0x34, 0x56));
    let mut bytes = vec![0xaau8; 18];
    window.write_to(&mut bytes);
    assert_eq!(
        bytes,
        vec![
            3, 2, 1, 0xaa, //
            0x56, 0x34, 0x12, 0xaa, //
            3, 2, 1, 0xaa, //
            3, 2, 1, 0xaa, //
            0xaa, 0xaa,
        ]
    );
    // a pixel that does not fit whole is left out
    let mut short = vec![0u8; 7];
    window.write_to(&mut short);
    assert_eq!(short, vec![3, 2, 1, 0, 0, 0, 0]);
    let mut none: Vec<u8> = Vec::new();
    window.write_to(&mut none);
    assert!(none.is_empty());
}
