//! What happens to a window, as events that a program can pick up later.

use std::collections::HashMap;
use vstd::prelude::*;
use vstd::std_specs::convert::IntoSpec;

verus! {

/// The kinds of event that can be picked out, as bits of a mask.
#[derive(Copy, Clone, Debug, PartialEq, Eq, Structural)]
pub enum EventFilter {
    WINDOWEVENT,
    KEYBOARDEVENT,
    MOUSEEVENT,
    NOFILTER,
}

impl EventFilter {
    /// The mask of this filter: one bit for each kind, and all three for
    /// `NOFILTER`.
    pub open spec fn spec_bits(self) -> usize {
        match self {
            EventFilter::WINDOWEVENT => 0b001,
            EventFilter::KEYBOARDEVENT => 0b010,
            EventFilter::MOUSEEVENT => 0b100,
            EventFilter::NOFILTER => 0b111,
        }
    }

    /// The mask of this filter.
    pub fn bits(self) -> (bits: usize)
        ensures
            bits == self.spec_bits(),
    {
        match self {
            EventFilter::WINDOWEVENT => 0b001,
            EventFilter::KEYBOARDEVENT => 0b010,
            EventFilter::MOUSEEVENT => 0b100,
            EventFilter::NOFILTER => 0b111,
        }
    }
}

impl From<EventFilter> for usize {
    fn from(filter: EventFilter) -> (bits: usize) {
        filter.bits()
    }
}

impl vstd::std_specs::convert::FromSpecImpl<EventFilter> for usize {
    open spec fn obeys_from_spec() -> bool {
        true
    }

    open spec fn from_spec(filter: EventFilter) -> usize {
        filter.spec_bits()
    }
}

impl core::ops::BitAnd for EventFilter {
    type Output = usize;

    fn bitand(self, rhs: EventFilter) -> (bits: usize) {
        self.bits() & rhs.bits()
    }
}

impl vstd::std_specs::ops::BitAndSpecImpl for EventFilter {
    open spec fn obeys_bitand_spec() -> bool {
        true
    }

    open spec fn bitand_req(self, rhs: EventFilter) -> bool {
        true
    }

    open spec fn bitand_spec(self, rhs: EventFilter) -> usize {
        self.spec_bits() & rhs.spec_bits()
    }
}

impl core::ops::BitAnd<usize> for EventFilter {
    type Output = usize;

    fn bitand(self, rhs: usize) -> (bits: usize) {
        self.bits() & rhs
    }
}

impl vstd::std_specs::ops::BitAndSpecImpl<usize> for EventFilter {
    open spec fn obeys_bitand_spec() -> bool {
        true
    }

    open spec fn bitand_req(self, rhs: usize) -> bool {
        true
    }

    open spec fn bitand_spec(self, rhs: usize) -> usize {
        self.spec_bits() & rhs
    }
}

impl core::ops::BitOr for EventFilter {
    type Output = usize;

    fn bitor(self, rhs: EventFilter) -> (bits: usize) {
        self.bits() | rhs.bits()
    }
}

impl vstd::std_specs::ops::BitOrSpecImpl for EventFilter {
    open spec fn obeys_bitor_spec() -> bool {
        true
    }

    open spec fn bitor_req(self, rhs: EventFilter) -> bool {
        true
    }

    open spec fn bitor_spec(self, rhs: EventFilter) -> usize {
        self.spec_bits() | rhs.spec_bits()
    }
}

impl core::ops::BitOr<usize> for EventFilter {
    type Output = usize;

    fn bitor(self, rhs: usize) -> (bits: usize) {
        self.bits() | rhs
    }
}

impl vstd::std_specs::ops::BitOrSpecImpl<usize> for EventFilter {
    open spec fn obeys_bitor_spec() -> bool {
        true
    }

    open spec fn bitor_req(self, rhs: usize) -> bool {
        true
    }

    open spec fn bitor_spec(self, rhs: usize) -> usize {
        self.spec_bits() | rhs
    }
}

impl core::ops::BitXor for EventFilter {
    type Output = usize;

    fn bitxor(self, rhs: EventFilter) -> (bits: usize) {
        self.bits() ^ rhs.bits()
    }
}

impl vstd::std_specs::ops::BitXorSpecImpl for EventFilter {
    open spec fn obeys_bitxor_spec() -> bool {
        true
    }

    open spec fn bitxor_req(self, rhs: EventFilter) -> bool {
        true
    }

    open spec fn bitxor_spec(self, rhs: EventFilter) -> usize {
        self.spec_bits() ^ rhs.spec_bits()
    }
}

impl core::ops::BitXor<usize> for EventFilter {
    type Output = usize;

    fn bitxor(self, rhs: usize) -> (bits: usize) {
        self.bits() ^ rhs
    }
}

impl vstd::std_specs::ops::BitXorSpecImpl<usize> for EventFilter {
    open spec fn obeys_bitxor_spec() -> bool {
        true
    }

    open spec fn bitxor_req(self, rhs: usize) -> bool {
        true
    }

    open spec fn bitxor_spec(self, rhs: usize) -> usize {
        self.spec_bits() ^ rhs
    }
}

/// What a key did: the key code, and for a held or pressed key the number of
/// times it repeated.
#[derive(Copy, Clone, Debug, PartialEq, Eq, Structural)]
pub enum KeyboardEvent {
    KEYDOWN(usize),
    KEYUP(usize),
    KEYHELD(usize, u16),
    KEYPRESS(usize, u16),
}

/// The buttons of a mouse.
#[derive(Copy, Clone, Debug, PartialEq, Eq, Structural)]
pub enum MouseButton {
    LEFTMOUSE,
    RIGHTMOUSE,
    MIDDLEMOUSE,
    XBUTTON,
    YBUTTON,
}

impl MouseButton {
    /// The number of this button, from 1 for the left button.
    pub open spec fn spec_number(self) -> u8 {
        match self {
            MouseButton::LEFTMOUSE => 1,
            MouseButton::RIGHTMOUSE => 2,
            MouseButton::MIDDLEMOUSE => 3,
            MouseButton::XBUTTON => 4,
            MouseButton::YBUTTON => 5,
        }
    }
}

impl From<MouseButton> for u8 {
    fn from(button: MouseButton) -> (number: u8) {
        match button {
            MouseButton::LEFTMOUSE => 1,
            MouseButton::RIGHTMOUSE => 2,
            MouseButton::MIDDLEMOUSE => 3,
            MouseButton::XBUTTON => 4,
            MouseButton::YBUTTON => 5,
        }
    }
}

impl vstd::std_specs::convert::FromSpecImpl<MouseButton> for u8 {
    open spec fn obeys_from_spec() -> bool {
        true
    }

    open spec fn from_spec(button: MouseButton) -> u8 {
        button.spec_number()
    }
}

/// What the mouse did: a button with the position of the pointer, or the
/// wheel with its two directions and the position of the pointer.
#[derive(Copy, Clone, Debug, PartialEq, Eq, Structural)]
pub enum MouseEvent {
    MOUSEDOWN(MouseButton, i32, i32),
    MOUSEUP(MouseButton, i32, i32),
    MOUSESCROLL(i16, i16, i32, i32),
    MOUSEMOVE,
}

/// What happened to the window itself.
#[derive(Copy, Clone, Debug, PartialEq, Eq, Structural)]
pub enum WindowEvent {
    WINDOWRESIZE,
    WINDOWMOVE,
    WINDOWFOCUS,
    WINDOWBLUR,
    WINDOWMAXIMIZE,
    WINDOWUNMAXIMIZE,
    WINDOWMINIMIZE,
    WINDOWRESTORE,
    WINDOWCLOSEBEGIN,
    WINDOWCLOSEFINAL,
}

/// Any event, under the name of what happened.
#[derive(Copy, Clone, Debug, PartialEq, Eq)]
pub enum Event {
    KEYDOWN(KeyboardEvent),
    KEYUP(KeyboardEvent),
    KEYHELD(KeyboardEvent),
    KEYPRESS(KeyboardEvent),
    MOUSEDOWN(MouseEvent),
    MOUSEUP(MouseEvent),
    MOUSESCROLL(MouseEvent),
    MOUSEMOVE,
    WINDOWRESIZE(WindowEvent),
    WINDOWMOVE(WindowEvent),
    WINDOWFOCUS(WindowEvent),
    WINDOWBLUR(WindowEvent),
    WINDOWMAXIMIZE(WindowEvent),
    WINDOWUNMAXIMIZE(WindowEvent),
    WINDOWMINIMIZE(WindowEvent),
    WINDOWRESTORE(WindowEvent),
    WINDOWCLOSEBEGIN(WindowEvent),
    WINDOWCLOSEFINAL(WindowEvent),
    UNKNOWN(()),
}

impl Event {
    /// The kind of this event. An unknown event is of every kind.
    pub open spec fn spec_filter_type(&self) -> EventFilter {
        match self {
            Event::KEYDOWN(_) | Event::KEYUP(_) | Event::KEYHELD(_) | Event::KEYPRESS(_) => {
                EventFilter::KEYBOARDEVENT
            },
            Event::MOUSEDOWN(_) | Event::MOUSEUP(_) | Event::MOUSESCROLL(_) | Event::MOUSEMOVE => {
                EventFilter::MOUSEEVENT
            },
            Event::UNKNOWN(_) => EventFilter::NOFILTER,
            _ => EventFilter::WINDOWEVENT,
        }
    }

    /// The kind of this event.
    pub fn get_filter_type(&self) -> (kind: EventFilter)
        ensures
            kind == self.spec_filter_type(),
    {
        match self {
            Event::KEYDOWN(_) | Event::KEYUP(_) | Event::KEYHELD(_) | Event::KEYPRESS(_) => {
                EventFilter::KEYBOARDEVENT
            },
            Event::MOUSEDOWN(_) | Event::MOUSEUP(_) | Event::MOUSESCROLL(_) | Event::MOUSEMOVE => {
                EventFilter::MOUSEEVENT
            },
            Event::WINDOWRESIZE(_)
            | Event::WINDOWMOVE(_)
            | Event::WINDOWFOCUS(_)
            | Event::WINDOWBLUR(_)
            | Event::WINDOWMAXIMIZE(_)
            | Event::WINDOWUNMAXIMIZE(_)
            | Event::WINDOWMINIMIZE(_)
            | Event::WINDOWRESTORE(_)
            | Event::WINDOWCLOSEBEGIN(_)
            | Event::WINDOWCLOSEFINAL(_) => EventFilter::WINDOWEVENT,
            _ => EventFilter::NOFILTER,
        }
    }

    /// Whether the mask `filter` lets this event through.
    pub open spec fn passes(&self, filter: usize) -> bool {
        self.spec_filter_type().spec_bits() & filter != 0
    }

    /// The event that a key gives rise to.
    pub open spec fn of_key(event: KeyboardEvent) -> Event {
        match event {
            KeyboardEvent::KEYDOWN(_) => Event::KEYDOWN(event),
            KeyboardEvent::KEYUP(_) => Event::KEYUP(event),
            KeyboardEvent::KEYHELD(_, _) => Event::KEYHELD(event),
            KeyboardEvent::KEYPRESS(_, _) => Event::KEYPRESS(event),
        }
    }

    /// The event that the mouse gives rise to.
    pub open spec fn of_mouse(event: MouseEvent) -> Event {
        match event {
            MouseEvent::MOUSEDOWN(_, _, _) => Event::MOUSEDOWN(event),
            MouseEvent::MOUSEUP(_, _, _) => Event::MOUSEUP(event),
            MouseEvent::MOUSESCROLL(_, _, _, _) => Event::MOUSESCROLL(event),
            MouseEvent::MOUSEMOVE => Event::MOUSEMOVE,
        }
    }

    /// The event that the window gives rise to.
    pub open spec fn of_window(event: WindowEvent) -> Event {
        match event {
            WindowEvent::WINDOWRESIZE => Event::WINDOWRESIZE(event),
            WindowEvent::WINDOWMOVE => Event::WINDOWMOVE(event),
            WindowEvent::WINDOWFOCUS => Event::WINDOWFOCUS(event),
            WindowEvent::WINDOWBLUR => Event::WINDOWBLUR(event),
            WindowEvent::WINDOWMAXIMIZE => Event::WINDOWMAXIMIZE(event),
            WindowEvent::WINDOWUNMAXIMIZE => Event::WINDOWUNMAXIMIZE(event),
            WindowEvent::WINDOWMINIMIZE => Event::WINDOWMINIMIZE(event),
            WindowEvent::WINDOWRESTORE => Event::WINDOWRESTORE(event),
            WindowEvent::WINDOWCLOSEBEGIN => Event::WINDOWCLOSEBEGIN(event),
            WindowEvent::WINDOWCLOSEFINAL => Event::WINDOWCLOSEFINAL(event),
        }
    }
}

impl From<KeyboardEvent> for Event {
    fn from(event: KeyboardEvent) -> (wrapped: Event) {
        match event {
            KeyboardEvent::KEYDOWN(_) => Event::KEYDOWN(event),
            KeyboardEvent::KEYUP(_) => Event::KEYUP(event),
            KeyboardEvent::KEYHELD(_, _) => Event::KEYHELD(event),
            KeyboardEvent::KEYPRESS(_, _) => Event::KEYPRESS(event),
        }
    }
}

impl vstd::std_specs::convert::FromSpecImpl<KeyboardEvent> for Event {
    open spec fn obeys_from_spec() -> bool {
        true
    }

    open spec fn from_spec(event: KeyboardEvent) -> Event {
        Event::of_key(event)
    }
}

impl From<MouseEvent> for Event {
    fn from(event: MouseEvent) -> (wrapped: Event) {
        match event {
            MouseEvent::MOUSEDOWN(_, _, _) => Event::MOUSEDOWN(event),
            MouseEvent::MOUSEUP(_, _, _) => Event::MOUSEUP(event),
            MouseEvent::MOUSESCROLL(_, _, _, _) => Event::MOUSESCROLL(event),
            MouseEvent::MOUSEMOVE => Event::MOUSEMOVE,
        }
    }
}

impl vstd::std_specs::convert::FromSpecImpl<MouseEvent> for Event {
    open spec fn obeys_from_spec() -> bool {
        true
    }

    open spec fn from_spec(event: MouseEvent) -> Event {
        Event::of_mouse(event)
    }
}

impl From<WindowEvent> for Event {
    fn from(event: WindowEvent) -> (wrapped: Event) {
        match event {
            WindowEvent::WINDOWRESIZE => Event::WINDOWRESIZE(event),
            WindowEvent::WINDOWMOVE => Event::WINDOWMOVE(event),
            WindowEvent::WINDOWFOCUS => Event::WINDOWFOCUS(event),
            WindowEvent::WINDOWBLUR => Event::WINDOWBLUR(event),
            WindowEvent::WINDOWMAXIMIZE => Event::WINDOWMAXIMIZE(event),
            WindowEvent::WINDOWUNMAXIMIZE => Event::WINDOWUNMAXIMIZE(event),
            WindowEvent::WINDOWMINIMIZE => Event::WINDOWMINIMIZE(event),
            WindowEvent::WINDOWRESTORE => Event::WINDOWRESTORE(event),
            WindowEvent::WINDOWCLOSEBEGIN => Event::WINDOWCLOSEBEGIN(event),
            WindowEvent::WINDOWCLOSEFINAL => Event::WINDOWCLOSEFINAL(event),
        }
    }
}

impl vstd::std_specs::convert::FromSpecImpl<WindowEvent> for Event {
    open spec fn obeys_from_spec() -> bool {
        true
    }

    open spec fn from_spec(event: WindowEvent) -> Event {
        Event::of_window(event)
    }
}

/// Some event of `events` passes the mask `filter`.
pub open spec fn any_passes(events: Seq<Event>, filter: usize) -> bool {
    exists|i: int| 0 <= i < events.len() && (#[trigger] events[i]).passes(filter)
}

/// The events that have not been picked up yet, oldest first, and how often
/// each key has repeated since it went down.
pub struct EventManager {
    events: Vec<Event>,
    keymap: HashMap<usize, u16>,
}

impl EventManager {
    /// The events that wait to be picked up, oldest first.
    pub closed spec fn spec_events(&self) -> Seq<Event> {
        self.events@
    }

    /// For each key that has gone down, how often it has repeated since;
    /// zero once it has come up again.
    pub closed spec fn spec_keymap(&self) -> Map<usize, u16> {
        self.keymap@
    }

    pub fn new() -> (manager: Self)
        ensures
            manager.spec_events() == Seq::<Event>::empty(),
            manager.spec_keymap() == Map::<usize, u16>::empty(),
    {
        Self { events: Vec::new(), keymap: HashMap::new() }
    }

    /// Adds the event that `e` stands for as the newest event.
    pub fn push_event<T: Into<Event>>(&mut self, e: T)
        ensures
            final(self).spec_events().len() == old(self).spec_events().len() + 1,
            final(self).spec_events().drop_last() == old(self).spec_events(),
            T::obeys_into_spec() ==> final(self).spec_events().last() == e.into_spec(),
            final(self).spec_keymap() == old(self).spec_keymap(),
    {
        let event: Event = e.into();
        self.push(event);
        assert(self.events@.drop_last() =~= old(self).events@);
    }

    /// Adds `event` as the newest event.
    pub fn push(&mut self, event: Event)
        ensures
            final(self).spec_events() == old(self).spec_events().push(event),
            final(self).spec_keymap() == old(self).spec_keymap(),
    {
        self.events.push(event);
    }

    /// The number of repeats that the key `key` reaches when it goes down
    /// once more: one for a key that was up, and one more than before,
    /// wrapping around at the end of `u16`, for a key that was down.
    pub open spec fn next_count(&self, key: usize) -> u16 {
        if self.spec_keymap().contains_key(key) {
            self.spec_keymap()[key].wrapping_add(1)
        } else {
            1
        }
    }

    /// The repeats of each key once the key `key` has gone down once more.
    pub open spec fn keymap_after_down(&self, key: usize) -> Map<usize, u16> {
        self.spec_keymap().insert(key, self.next_count(key))
    }

    /// The waiting events once the key `key` has gone down once more: it is
    /// reported as `KEYDOWN` the first time, and as `KEYHELD` with the number
    /// of repeats every time after.
    pub open spec fn events_after_down(&self, key: usize) -> Seq<Event> {
        self.spec_events().push(
            if self.next_count(key) == 1 {
                Event::KEYDOWN(KeyboardEvent::KEYDOWN(key))
            } else {
                Event::KEYHELD(KeyboardEvent::KEYHELD(key, self.next_count(key)))
            },
        )
    }

    /// The repeats of each key once the key `key` has come up: those of a
    /// key that has been down start again at zero.
    pub open spec fn keymap_after_up(&self, key: usize) -> Map<usize, u16> {
        if self.spec_keymap().contains_key(key) {
            self.spec_keymap().insert(key, 0)
        } else {
            self.spec_keymap()
        }
    }

    /// The waiting events once the key `key` has come up: a key that has
    /// been down is reported as `KEYPRESS` with the number of repeats, and
    /// every key as `KEYUP`.
    pub open spec fn events_after_up(&self, key: usize) -> Seq<Event> {
        if self.spec_keymap().contains_key(key) {
            self.spec_events().push(
                Event::KEYPRESS(KeyboardEvent::KEYPRESS(key, self.spec_keymap()[key])),
            ).push(Event::KEYUP(KeyboardEvent::KEYUP(key)))
        } else {
            self.spec_events().push(Event::KEYUP(KeyboardEvent::KEYUP(key)))
        }
    }

    /// Records that the key `key` is down.
    pub fn register_key_down(&mut self, key: usize)
        ensures
            final(self).spec_keymap() == old(self).keymap_after_down(key),
            final(self).spec_events() == old(self).events_after_down(key),
    {
        broadcast use vstd::std_specs::hash::group_hash_axioms;

        let count: u16 = match self.keymap.get(&key) {
            Some(repeated) => repeated.wrapping_add(1),
            None => 1,
        };
        self.keymap.insert(key, count);
        if count == 1 {
            self.push(Event::from(KeyboardEvent::KEYDOWN(key)));
        } else {
            self.push(Event::from(KeyboardEvent::KEYHELD(key, count)));
        }
    }

    /// Records that the key `key` has come up.
    pub fn register_key_up(&mut self, key: usize)
        ensures
            final(self).spec_keymap() == old(self).keymap_after_up(key),
            final(self).spec_events() == old(self).events_after_up(key),
    {
        broadcast use vstd::std_specs::hash::group_hash_axioms;

        let held: Option<u16> = match self.keymap.get(&key) {
            Some(repeated) => Some(*repeated),
            None => None,
        };
        match held {
            Some(count) => {
                self.push(Event::from(KeyboardEvent::KEYPRESS(key, count)));
                self.keymap.insert(key, 0);
            },
            None => {},
        }
        self.push(Event::from(KeyboardEvent::KEYUP(key)));
    }

    /// A cursor that looks at events and leaves them where they are.
    pub fn peek_iter(&mut self) -> (iterator: EventIterator<'_>)
        ensures
            iterator.data@ == old(self).spec_events(),
            !iterator.consuming,
            iterator.filter == EventFilter::NOFILTER.spec_bits(),
            final(self).spec_events() == (*final(iterator.data))@,
            final(self).spec_keymap() == old(self).spec_keymap(),
    {
        EventIterator {
            data: &mut self.events,
            consuming: false,
            filter: EventFilter::NOFILTER.bits(),
        }
    }

    /// A cursor that takes events away.
    pub fn poll_iter(&mut self) -> (iterator: EventIterator<'_>)
        ensures
            iterator.data@ == old(self).spec_events(),
            iterator.consuming,
            iterator.filter == EventFilter::NOFILTER.spec_bits(),
            final(self).spec_events() == (*final(iterator.data))@,
            final(self).spec_keymap() == old(self).spec_keymap(),
    {
        EventIterator {
            data: &mut self.events,
            consuming: true,
            filter: EventFilter::NOFILTER.bits(),
        }
    }

    /// Throws all waiting events away and says how many there were.
    pub fn flush(&mut self) -> (number_of_events: usize)
        ensures
            number_of_events == old(self).spec_events().len(),
            final(self).spec_events() == Seq::<Event>::empty(),
            final(self).spec_keymap() == old(self).spec_keymap(),
    {
        let number_of_events = self.events.len();
        self.events = Vec::new();
        number_of_events
    }
}

/// Whether any of `events` passes the mask `filter`.
fn any_event_passes(events: &Vec<Event>, filter: usize) -> (found: bool)
    ensures
        found == any_passes(events@, filter),
{
    let mut i: usize = 0;
    while i < events.len()
        invariant
            i <= events.len(),
            forall|k: int| 0 <= k < i ==> !(#[trigger] events@[k]).passes(filter),
        decreases events.len() - i,
    {
        if events[i].get_filter_type().bits() & filter != 0 {
            return true;
        }
        i += 1;
    }
    false
}

/// A cursor over the waiting events of a manager.
pub struct EventIterator<'a> {
    pub data: &'a mut Vec<Event>,
    pub consuming: bool,
    pub filter: usize,
}

impl<'a> EventIterator<'a> {
    /// The newest event, if there is any.
    pub fn peek_last(&mut self) -> (last: Option<Event>)
        ensures
            last == if old(self).data@.len() == 0 {
                None
            } else {
                Some(old(self).data@.last())
            },
            *final(self).data == *old(self).data,
            *final(final(self).data) == *final(old(self).data),
            final(self).consuming == old(self).consuming,
            final(self).filter == old(self).filter,
    {
        if self.data.len() == 0 {
            None
        } else {
            Some(self.data[self.data.len() - 1])
        }
    }

    /// Lets only events through that pass the mask that `filter` stands for.
    pub fn filter<T: Into<usize>>(self, filter: T) -> (iterator: Self)
        ensures
            T::obeys_into_spec() ==> iterator.filter == filter.into_spec(),
            iterator.consuming == self.consuming,
            *iterator.data == *old(self.data),
            *final(iterator.data) == *final(self.data),
    {
        let mut iterator = self;
        iterator.filter = filter.into();
        iterator
    }

    /// Lets only events through that pass the mask that `filter` stands for.
    pub fn ref_filter<T: Into<usize>>(&mut self, filter: T) -> (same: &mut Self)
        ensures
            T::obeys_into_spec() ==> same.filter == filter.into_spec(),
            same.consuming == old(self).consuming,
            *same.data == *old(self).data,
            *final(same.data) == *final(old(self).data),
            *final(self) == *final(same),
    {
        self.filter = filter.into();
        self
    }

    /// Lets events of the kind `filter_to_add` through as well.
    pub fn add_filter(self, filter_to_add: EventFilter) -> (iterator: Self)
        ensures
            iterator.filter == self.filter | filter_to_add.spec_bits(),
            iterator.consuming == self.consuming,
            *iterator.data == *old(self.data),
            *final(iterator.data) == *final(self.data),
    {
        let mut iterator = self;
        iterator.filter = iterator.filter | filter_to_add.bits();
        iterator
    }

    /// Lets events of the kind `filter_to_add` through as well.
    pub fn ref_add_filter(&mut self, filter_to_add: EventFilter) -> (same: &mut Self)
        ensures
            same.filter == old(self).filter | filter_to_add.spec_bits(),
            same.consuming == old(self).consuming,
            *same.data == *old(self).data,
            *final(same.data) == *final(old(self).data),
            *final(self) == *final(same),
    {
        self.filter = self.filter | filter_to_add.bits();
        self
    }

    /// Flips the bits of `filter_to_remove` in the mask.
    pub fn remove_filter(&mut self, filter_to_remove: EventFilter) -> (same: &mut Self)
        ensures
            same.filter == old(self).filter ^ filter_to_remove.spec_bits(),
            same.consuming == old(self).consuming,
            *same.data == *old(self).data,
            *final(same.data) == *final(old(self).data),
            *final(self) == *final(same),
    {
        self.ref_remove_filter(filter_to_remove)
    }

    /// Flips the bits of `filter_to_remove` in the mask.
    pub fn ref_remove_filter(&mut self, filter_to_remove: EventFilter) -> (same: &mut Self)
        ensures
            same.filter == old(self).filter ^ filter_to_remove.spec_bits(),
            same.consuming == old(self).consuming,
            *same.data == *old(self).data,
            *final(same.data) == *final(old(self).data),
            *final(self) == *final(same),
    {
        self.filter = self.filter ^ filter_to_remove.bits();
        self
    }


    /// The newest waiting event, as long as any waiting event passes the
    /// mask. A cursor that takes events away removes the event it returns.
    pub fn next(&mut self) -> (event: Option<Event>)
        ensures
            event == if any_passes(old(self).data@, old(self).filter) {
                Some(old(self).data@.last())
            } else {
                None
            },
            final(self).data@ == if any_passes(old(self).data@, old(self).filter) && old(self).consuming {
                old(self).data@.drop_last()
            } else {
                old(self).data@
            },
            *final(final(self).data) == *final(old(self).data),
            final(self).consuming == old(self).consuming,
            final(self).filter == old(self).filter,
    {
        if any_event_passes(self.data, self.filter) {
            if self.consuming {
                self.data.pop()
            } else {
                self.peek_last()
            }
        } else {
            None
        }
    }
}

} // verus!
