use simulation_engine::{
    Event, EventFilter, EventManager, KeyboardEvent, KeyboardEventType, MouseButton, MouseEvent,
    MouseInputType, ScreenBuilder, WindowEvent, DrawMode,
};

#[test]
fn filters_are_bits_of_a_mask() {
    assert_eq!(EventFilter::WINDOWEVENT.bits(), 0b001);
    assert_eq!(EventFilter::KEYBOARDEVENT.bits(), 0b010);
    assert_eq!(EventFilter::MOUSEEVENT.bits(), 0b100);
    assert_eq!(EventFilter::NOFILTER.bits(), 0b111);
    let bits: usize = EventFilter::MOUSEEVENT.into();
    assert_eq!(bits, 4);
    assert_eq!(EventFilter::WINDOWEVENT | EventFilter::MOUSEEVENT, 0b101);
    assert_eq!(EventFilter::WINDOWEVENT | 0b010usize, 0b011);
    assert_eq!(EventFilter::NOFILTER & EventFilter::KEYBOARDEVENT, 0b010);
    assert_eq!(EventFilter::WINDOWEVENT & 0b110usize, 0);
    assert_eq!(EventFilter::NOFILTER ^ EventFilter::KEYBOARDEVENT, 0b101);
    assert_eq!(EventFilter::MOUSEEVENT ^ 0b001usize, 0b101);
}

#[test]
fn mouse_buttons_are_numbered_from_one() {
    let numbers: Vec<u8> = [
        MouseButton::LEFTMOUSE,
        MouseButton::RIGHTMOUSE,
        MouseButton::MIDDLEMOUSE,
        MouseButton::XBUTTON,
        MouseButton::YBUTTON,
    ]
    .iter()
    .map(|b| (*b).into())
    .collect();
    assert_eq!(numbers, vec![1, 2, 3, 4, 5]);
}

#[test]
fn events_are_named_after_what_happened() {
    assert_eq!(Event::from(KeyboardEvent::KEYDOWN(1)), Event::KEYDOWN(KeyboardEvent::KEYDOWN(1)));
    assert_eq!(Event::from(KeyboardEvent::KEYUP(1)), Event::KEYUP(KeyboardEvent::KEYUP(1)));
    assert_eq!(Event::from(KeyboardEvent::KEYHELD(1, 2)), Event::KEYHELD(KeyboardEvent::KEYHELD(1, 2)));
    assert_eq!(Event::from(KeyboardEvent::KEYPRESS(1, 2)), Event::KEYPRESS(KeyboardEvent::KEYPRESS(1, 2)));
    let down = MouseEvent::MOUSEDOWN(MouseButton::LEFTMOUSE, 1, 2);
    let up = MouseEvent::MOUSEUP(MouseButton::LEFTMOUSE, 1, 2);
    let scroll = MouseEvent::MOUSESCROLL(1, 2, 3, 4);
    assert_eq!(Event::from(down), Event::MOUSEDOWN(down));
    assert_eq!(Event::from(up), Event::MOUSEUP(up));
    assert_eq!(Event::from(scroll), Event::MOUSESCROLL(scroll));
    assert_eq!(Event::from(MouseEvent::MOUSEMOVE), Event::MOUSEMOVE);
    let e: Event = WindowEvent::WINDOWMOVE.into();
    assert_eq!(e, Event::WINDOWMOVE(WindowEvent::WINDOWMOVE));
    assert_eq!(Event::from(WindowEvent::WINDOWRESIZE), Event::WINDOWRESIZE(WindowEvent::WINDOWRESIZE));
    assert_eq!(Event::from(WindowEvent::WINDOWFOCUS), Event::WINDOWFOCUS(WindowEvent::WINDOWFOCUS));
    assert_eq!(Event::from(WindowEvent::WINDOWBLUR), Event::WINDOWBLUR(WindowEvent::WINDOWBLUR));
    assert_eq!(Event::from(WindowEvent::WINDOWMAXIMIZE), Event::WINDOWMAXIMIZE(WindowEvent::WINDOWMAXIMIZE));
    assert_eq!(
        Event::from(WindowEvent::WINDOWUNMAXIMIZE),
        Event::WINDOWUNMAXIMIZE(WindowEvent::WINDOWUNMAXIMIZE)
    );
    assert_eq!(Event::from(WindowEvent::WINDOWMINIMIZE), Event::WINDOWMINIMIZE(WindowEvent::WINDOWMINIMIZE));
    assert_eq!(Event::from(WindowEvent::WINDOWRESTORE), Event::WINDOWRESTORE(WindowEvent::WINDOWRESTORE));
    assert_eq!(
        Event::from(WindowEvent::WINDOWCLOSEBEGIN),
        Event::WINDOWCLOSEBEGIN(WindowEvent::WINDOWCLOSEBEGIN)
    );
    assert_eq!(
        Event::from(WindowEvent::WINDOWCLOSEFINAL),
        Event::WINDOWCLOSEFINAL(WindowEvent::WINDOWCLOSEFINAL)
    );
}

#[test]
fn events_have_kinds() {
    assert_eq!(Event::from(KeyboardEvent::KEYDOWN(1)).get_filter_type(), EventFilter::KEYBOARDEVENT);
    assert_eq!(Event::from(KeyboardEvent::KEYPRESS(1, 2)).get_filter_type(), EventFilter::KEYBOARDEVENT);
    assert_eq!(Event::MOUSEMOVE.get_filter_type(), EventFilter::MOUSEEVENT);
    assert_eq!(Event::from(MouseEvent::MOUSESCROLL(1, 2, 3, 4)).get_filter_type(), EventFilter::MOUSEEVENT);
    assert_eq!(Event::from(WindowEvent::WINDOWCLOSEFINAL).get_filter_type(), EventFilter::WINDOWEVENT);
    assert_eq!(Event::from(WindowEvent::WINDOWRESIZE).get_filter_type(), EventFilter::WINDOWEVENT);
    assert_eq!(Event::UNKNOWN(()).get_filter_type(), EventFilter::NOFILTER);
}

#[test]
fn keys_repeat_until_they_come_up() {
    let mut manager = EventManager::new();
    manager.register_key_down(7);
    manager.register_key_down(7);
    manager.register_key_down(8);
    manager.register_key_down(7);
    manager.register_key_up(7);
    manager.register_key_up(9);
    manager.register_key_down(7);
    manager.register_key_up(7);
    let mut seen = Vec::new();
    let mut cursor = manager.poll_iter();
    while let Some(e) = cursor.next() {
        seen.push(e);
    }
    seen.reverse();
    assert_eq!(
        seen,
        vec![
            Event::KEYDOWN(KeyboardEvent::KEYDOWN(7)),
            Event::KEYHELD(KeyboardEvent::KEYHELD(7, 2)),
            Event::KEYDOWN(KeyboardEvent::KEYDOWN(8)),
            Event::KEYHELD(KeyboardEvent::KEYHELD(7, 3)),
            Event::KEYPRESS(KeyboardEvent::KEYPRESS(7, 3)),
            Event::KEYUP(KeyboardEvent::KEYUP(7)),
            Event::KEYUP(KeyboardEvent::KEYUP(9)),
            Event::KEYDOWN(KeyboardEvent::KEYDOWN(7)),
            Event::KEYPRESS(KeyboardEvent::KEYPRESS(7, 1)),
            Event::KEYUP(KeyboardEvent::KEYUP(7)),
        ]
    );
    assert_eq!(manager.flush(), 0);
}

#[test]
fn repeat_count_wraps_around() {
    let mut manager = EventManager::new();
    for _ in 0..65_535 {
        manager.register_key_down(1);
    }
    assert_eq!(manager.peek_iter().peek_last(), Some(Event::KEYHELD(KeyboardEvent::KEYHELD(1, 65_535))));
    manager.register_key_down(1);
    assert_eq!(manager.peek_iter().peek_last(), Some(Event::KEYHELD(KeyboardEvent::KEYHELD(1, 0))));
    manager.register_key_down(1);
    assert_eq!(manager.peek_iter().peek_last(), Some(Event::KEYDOWN(KeyboardEvent::KEYDOWN(1))));
    assert_eq!(manager.flush(), 65_537);
}

#[test]
fn peeking_leaves_events_where_they_are() {
    let mut manager = EventManager::new();
    assert_eq!(manager.peek_iter().next(), None);
    assert_eq!(manager.peek_iter().peek_last(), None);
    manager.push_event(Event::MOUSEMOVE);
    manager.push_event(WindowEvent::WINDOWFOCUS);
    let mut cursor = manager.peek_iter();
    assert_eq!(cursor.next(), Some(Event::WINDOWFOCUS(WindowEvent::WINDOWFOCUS)));
    assert_eq!(cursor.next(), Some(Event::WINDOWFOCUS(WindowEvent::WINDOWFOCUS)));
    assert_eq!(cursor.peek_last(), Some(Event::WINDOWFOCUS(WindowEvent::WINDOWFOCUS)));
    assert_eq!(manager.flush(), 2);
    assert_eq!(manager.flush(), 0);
}

#[test]
fn polling_takes_the_newest_event_while_any_event_passes() {
    let mut manager = EventManager::new();
    manager.push_event(WindowEvent::WINDOWFOCUS);
    manager.push_event(Event::MOUSEMOVE);
    manager.push_event(KeyboardEvent::KEYUP(3));
    // only window events pass: the newest event is handed out as long as a
    // window event waits
    let mut cursor = manager.poll_iter().filter(EventFilter::WINDOWEVENT);
    assert_eq!(cursor.next(), Some(Event::KEYUP(KeyboardEvent::KEYUP(3))));
    assert_eq!(cursor.next(), Some(Event::MOUSEMOVE));
    assert_eq!(cursor.next(), Some(Event::WINDOWFOCUS(WindowEvent::WINDOWFOCUS)));
    assert_eq!(cursor.next(), None);
    manager.push_event(Event::MOUSEMOVE);
    let mut cursor = manager.poll_iter().filter(EventFilter::KEYBOARDEVENT);
    assert_eq!(cursor.next(), None);
    let mut cursor = cursor.add_filter(EventFilter::MOUSEEVENT);
    assert_eq!(cursor.filter, 0b110);
    assert_eq!(cursor.next(), Some(Event::MOUSEMOVE));
    assert_eq!(cursor.next(), None);
}

#[test]
fn unknown_events_pass_every_filter() {
    let mut manager = EventManager::new();
    manager.push(Event::UNKNOWN(()));
    for filter in [EventFilter::WINDOWEVENT, EventFilter::KEYBOARDEVENT, EventFilter::MOUSEEVENT] {
        let mut cursor = manager.peek_iter().filter(filter.bits());
        assert_eq!(cursor.next(), Some(Event::UNKNOWN(())));
    }
    let mut cursor = manager.peek_iter().filter(0usize);
    assert_eq!(cursor.next(), None);
}

#[test]
fn filters_are_added_and_flipped() {
    let mut manager = EventManager::new();
    let mut cursor = manager.peek_iter();
    assert_eq!(cursor.filter, 0b111);
    assert!(!cursor.consuming);
    cursor.ref_filter(0b001usize).ref_add_filter(EventFilter::MOUSEEVENT);
    assert_eq!(cursor.filter, 0b101);
    cursor.remove_filter(EventFilter::MOUSEEVENT);
    assert_eq!(cursor.filter, 0b001);
    cursor.ref_remove_filter(EventFilter::KEYBOARDEVENT);
    assert_eq!(cursor.filter, 0b011);
    let cursor = manager.poll_iter();
    assert!(cursor.consuming);
}

#[test]
fn screen_builder_defaults_and_setters() {
    let mut builder = ScreenBuilder::new();
    assert_eq!((builder.width, builder.height, builder.refresh_rate), (512, 512, 60));
    assert_eq!(builder.title, "Simulation Engine");
    assert_eq!(builder.mode, DrawMode::CANVAS);
    builder.set_size(600, 800).set_title("demo").set_refresh_rate(30).use_pixel_buffer();
    assert_eq!((builder.width, builder.height, builder.refresh_rate), (600, 800, 30));
    assert_eq!(builder.title, "demo");
    assert_eq!(builder.mode, DrawMode::PIXELBUFFER);
    builder.use_canvas_drawer();
    assert_eq!(builder.mode, DrawMode::CANVAS);
}

#[test]
fn keys_that_do_not_repeat_are_reported_as_held() {
    assert_eq!(KeyboardEventType::of_key(true, true), KeyboardEventType::KEYDOWN);
    assert_eq!(KeyboardEventType::of_key(true, false), KeyboardEventType::KEYHELD);
    assert_eq!(KeyboardEventType::of_key(false, true), KeyboardEventType::KEYUP);
    assert_eq!(KeyboardEventType::of_key(false, false), KeyboardEventType::KEYHELD);
    assert_ne!(MouseInputType::MOUSEUP, MouseInputType::MOUSEDOWN);
    assert_eq!(simulation_engine::screen::frame_delay_millis(60), 16);
    assert_eq!(simulation_engine::screen::frame_delay_millis(1), 1000);
    assert_eq!(simulation_engine::screen::frame_delay_millis(1001), 0);
}
