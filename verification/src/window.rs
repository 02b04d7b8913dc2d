//! The window as the renderer sees it: a grid of pixels that points and
//! lines are drawn into, a background colour, and whether it is still open.

use vstd::prelude::*;

use crate::color::Color;
use crate::event::{Event, EventManager, KeyboardEvent, MouseButton, MouseEvent, WindowEvent};

verus! {

/// How a window answers a request to close it.
#[derive(Copy, Clone, Debug, PartialEq, Eq, Structural)]
pub enum CloseState {
    NORMAL,
    REQUIREAPPROVE,
    AWAITINGAPPROVE,
}

/// `v` moved into the range from 0 up to, and without, `size`.
pub open spec fn clamped(v: int, size: int) -> int {
    if v < 0 {
        0
    } else if v >= size {
        size - 1
    } else {
        v
    }
}

/// The grid `pixels`, `width` wide and `height` high, after the pixel nearest
/// to (`x`, `y`) has been set to `value`. A grid without pixels stays as it is.
pub open spec fn painted(pixels: Seq<u32>, width: int, height: int, x: int, y: int, value: u32) -> Seq<
    u32,
> {
    if width > 0 && height > 0 {
        pixels.update(clamped(y, height) * width + clamped(x, width), value)
    } else {
        pixels
    }
}

/// The grid after each of `points` has been painted, first to last.
pub open spec fn painted_all(
    pixels: Seq<u32>,
    width: int,
    height: int,
    points: Seq<(int, int)>,
    value: u32,
) -> Seq<u32>
    decreases points.len(),
{
    if points.len() == 0 {
        pixels
    } else {
        painted(
            painted_all(pixels, width, height, points.drop_last(), value),
            width,
            height,
            points.last().0,
            points.last().1,
            value,
        )
    }
}

/// Where a line has got to: the pixel reached, and the error term that
/// decides when the minor coordinate moves.
pub struct Stride {
    pub x: int,
    pub y: int,
    pub fraction: int,
}

/// The distance between `from` and `to`.
pub open spec fn span(from: int, to: int) -> int {
    if to < from {
        from - to
    } else {
        to - from
    }
}

/// The direction from `from` towards `to`.
pub open spec fn heading(from: int, to: int) -> int {
    if to < from {
        -1int
    } else {
        1int
    }
}

/// The line from `a` to `b` covers more columns than rows.
pub open spec fn is_shallow(a: (i32, i32), b: (i32, i32)) -> bool {
    span(a.0 as int, b.0 as int) > span(a.1 as int, b.1 as int)
}

/// The number of steps from `a` to `b`.
pub open spec fn line_steps(a: (i32, i32), b: (i32, i32)) -> nat {
    if is_shallow(a, b) {
        span(a.0 as int, b.0 as int) as nat
    } else {
        span(a.1 as int, b.1 as int) as nat
    }
}

/// The first stride of the line from `a` to `b`.
pub open spec fn line_start(a: (i32, i32), b: (i32, i32)) -> Stride {
    let dx = span(a.0 as int, b.0 as int);
    let dy = span(a.1 as int, b.1 as int);
    Stride {
        x: a.0 as int,
        y: a.1 as int,
        fraction: if is_shallow(a, b) {
            2 * dy - dx
        } else {
            2 * dx - dy / 2
        },
    }
}

/// The stride after `s` on the line from `a` to `b`: one pixel along the
/// major coordinate, and one along the minor where the error term has
/// turned non-negative.
pub open spec fn line_step(a: (i32, i32), b: (i32, i32), s: Stride) -> Stride {
    let dx = span(a.0 as int, b.0 as int);
    let dy = span(a.1 as int, b.1 as int);
    let step_x = heading(a.0 as int, b.0 as int);
    let step_y = heading(a.1 as int, b.1 as int);
    if is_shallow(a, b) {
        if s.fraction >= 0 {
            Stride { x: s.x + step_x, y: s.y + step_y, fraction: s.fraction - 2 * dx + 2 * dy }
        } else {
            Stride { x: s.x + step_x, y: s.y, fraction: s.fraction + 2 * dy }
        }
    } else {
        if s.fraction >= 0 {
            Stride { x: s.x + step_x, y: s.y + step_y, fraction: s.fraction - 2 * dy + 2 * dx }
        } else {
            Stride { x: s.x, y: s.y + step_y, fraction: s.fraction + 2 * dx }
        }
    }
}

/// The stride that the line from `a` to `b` has reached after `i` steps.
pub open spec fn line_walk(a: (i32, i32), b: (i32, i32), i: nat) -> Stride
    decreases i,
{
    if i == 0 {
        line_start(a, b)
    } else {
        line_step(a, b, line_walk(a, b, (i - 1) as nat))
    }
}

/// The pixels of the line from `a` to `b`, in the order they are drawn:
/// `a` first, then one pixel for each step.
pub open spec fn line_points(a: (i32, i32), b: (i32, i32)) -> Seq<(int, int)> {
    Seq::new(line_steps(a, b) + 1, |i: int| (line_walk(a, b, i as nat).x, line_walk(a, b, i as nat).y))
}

/// After `i` steps a line has moved `i` pixels along its major coordinate,
/// at most `i` along its minor one, and its error term is bounded by the
/// doubled spans.
pub proof fn lemma_line_walk(a: (i32, i32), b: (i32, i32), i: nat)
    ensures
        ({
            let s = line_walk(a, b, i);
            let dx = span(a.0 as int, b.0 as int);
            let dy = span(a.1 as int, b.1 as int);
            &&& is_shallow(a, b) ==> s.x == (if b.0 < a.0 {
                a.0 - i
            } else {
                a.0 + i
            }) && span(a.1 as int, s.y) <= i && -2 * dx <= s.fraction <= 2 * dy
            &&& !is_shallow(a, b) ==> s.y == (if b.1 < a.1 {
                a.1 - i
            } else {
                a.1 + i
            }) && span(a.0 as int, s.x) <= i && -2 * dy <= s.fraction <= 2 * dx
        }),
    decreases i,
{
    if i > 0 {
        lemma_line_walk(a, b, (i - 1) as nat);
    }
}

/// Byte `k` of `pixel`, counted from the least significant: blue, green,
/// red, and the byte above them.
pub open spec fn byte_of(pixel: u32, k: u32) -> u8 {
    ((pixel >> (8 * k)) & 0xff) as u8
}

/// Byte `k` of `pixel`, counted from the least significant.
fn byte(pixel: u32, k: u32) -> (b: u8)
    requires
        k < 4,
    ensures
        b == byte_of(pixel, k),
{
    let shifted = pixel >> (8 * k);
    let low = shifted & 0xff;
    assert(low < 256) by (bit_vector)
        requires
            low == shifted & 0xff,
    ;
    low as u8
}

/// The bytes `bytes` after the first `n` of `pixels` have been written to
/// them, four bytes to the pixel, the least significant first. The fourth
/// byte of every pixel stays as it is, and a pixel that does not fit whole is
/// left out.
pub open spec fn written(bytes: Seq<u8>, pixels: Seq<u32>, n: nat) -> Seq<u8>
    decreases n,
{
    if n == 0 {
        bytes
    } else {
        let before = written(bytes, pixels, (n - 1) as nat);
        let at = 4 * (n - 1);
        if at + 3 < bytes.len() {
            before.update(at, byte_of(pixels[n - 1], 0)).update(
                at + 1,
                byte_of(pixels[n - 1], 1),
            ).update(at + 2, byte_of(pixels[n - 1], 2))
        } else {
            before
        }
    }
}

/// A grid of pixels, stored row by row from the top.
pub struct Surface {
    width: i32,
    height: i32,
    pixels: Vec<u32>,
}

impl View for Surface {
    type V = Seq<u32>;

    /// The pixels, row by row from the top.
    closed spec fn view(&self) -> Seq<u32> {
        self.pixels@
    }
}

impl Surface {
    /// There is one pixel for each point of the grid.
    #[verifier::type_invariant]
    pub closed spec fn well_formed(&self) -> bool {
        0 <= self.width && 0 <= self.height && self.pixels.len() == self.width * self.height
    }

    /// The width and the height of the grid.
    pub closed spec fn spec_size(&self) -> (i32, i32) {
        (self.width, self.height)
    }

    /// A grid of `width` by `height` pixels, each of them `value`.
    pub fn new(width: i32, height: i32, value: u32) -> (surface: Surface)
        requires
            0 <= width,
            0 <= height,
            width * height <= usize::MAX,
        ensures
            surface.spec_size() == (width, height),
            surface@.len() == width * height,
            forall|i: int| 0 <= i < surface@.len() ==> surface@[i] == value,
    {
        assert(0 <= width * height) by (nonlinear_arith)
            requires
                0 <= width,
                0 <= height,
        ;
        let cells: usize = (width as usize) * (height as usize);
        let mut pixels: Vec<u32> = Vec::new();
        while pixels.len() < cells
            invariant
                pixels.len() <= cells,
                forall|i: int| 0 <= i < pixels.len() ==> pixels@[i] == value,
            decreases cells - pixels.len(),
        {
            pixels.push(value);
        }
        Surface { width, height, pixels }
    }

    /// The width and the height of the grid.
    pub fn size(&self) -> (size: (i32, i32))
        ensures
            size == self.spec_size(),
            0 <= size.0,
            0 <= size.1,
            self@.len() == size.0 * size.1,
    {
        proof {
            use_type_invariant(self);
        }
        (self.width, self.height)
    }

    /// The pixels, row by row from the top.
    pub fn pixels(&self) -> (pixels: &Vec<u32>)
        ensures
            pixels@ == self@,
    {
        &self.pixels
    }

    /// Sets the pixel nearest to (`x`, `y`): a point outside the grid is
    /// moved to its edge.
    pub fn plot(&mut self, x: i64, y: i64, value: u32)
        ensures
            final(self)@ == painted(
                old(self)@,
                old(self).spec_size().0 as int,
                old(self).spec_size().1 as int,
                x as int,
                y as int,
                value,
            ),
            final(self).spec_size() == old(self).spec_size(),
    {
        proof {
            use_type_invariant(&*self);
        }
        if self.width == 0 || self.height == 0 {
            return ;
        }
        let width = self.width as i64;
        let height = self.height as i64;
        let x_filtered: i64 = if x < 0 {
            0
        } else if x >= width {
            width - 1
        } else {
            x
        };
        let y_filtered: i64 = if y < 0 {
            0
        } else if y >= height {
            height - 1
        } else {
            y
        };
        proof {
            crate::linearalgebra::lemma_cell_in_grid(
                width as int,
                height as int,
                y_filtered as int,
                x_filtered as int,
            );
            assert(y_filtered * width == width * y_filtered) by (nonlinear_arith);
        }
        let index = (y_filtered as usize) * (width as usize) + (x_filtered as usize);
        self.pixels[index] = value;
    }

    /// Sets every pixel to `value`.
    pub fn fill(&mut self, value: u32)
        ensures
            final(self)@.len() == old(self)@.len(),
            forall|i: int| 0 <= i < final(self)@.len() ==> final(self)@[i] == value,
            final(self).spec_size() == old(self).spec_size(),
    {
        proof {
            use_type_invariant(&*self);
        }
        let cells = self.pixels.len();
        let mut offset: usize = 0;
        while offset < cells
            invariant
                offset <= cells,
                cells == self.pixels.len(),
                self.well_formed(),
                self.pixels.len() == old(self).pixels.len(),
                self.width == old(self).width,
                self.height == old(self).height,
                forall|i: int| 0 <= i < offset ==> self.pixels@[i] == value,
            decreases cells - offset,
        {
            self.pixels[offset] = value;
            offset += 1;
        }
    }
}

/// The direction in which the border of a window is being dragged.
#[derive(Copy, Clone, Debug, PartialEq, Eq, Structural)]
pub enum SizingDirection {
    NONE,
    LEFT,
    RIGHT,
    TOP,
    TOPLEFT,
    TOPRIGHT,
    BOTTOM,
    BOTTOMLEFT,
    BOTTOMRIGHT,
}

/// What a window remembers from one update to the next while its border is
/// dragged.
#[derive(Copy, Clone, Debug, PartialEq, Eq)]
pub struct UpdateState {
    pub sizing_direction: SizingDirection,
    pub cached_cursor_pos: (i32, i32),
    pub cancel_draw: bool,
}

impl UpdateState {
    pub fn new() -> (state: Self)
        ensures
            state == (UpdateState {
                sizing_direction: SizingDirection::NONE,
                cached_cursor_pos: (0, 0),
                cancel_draw: false,
            }),
    {
        Self { sizing_direction: SizingDirection::NONE, cached_cursor_pos: (0, 0), cancel_draw: false }
    }

    pub fn get_sizing_direction(&self) -> (direction: SizingDirection)
        ensures
            direction == self.sizing_direction,
    {
        self.sizing_direction
    }

    pub fn set_sizing_direction(&mut self, direction: SizingDirection)
        ensures
            *final(self) == (UpdateState { sizing_direction: direction, ..*old(self) }),
    {
        self.sizing_direction = direction;
    }

    pub fn clear_sizing_direction(&mut self)
        ensures
            *final(self) == (UpdateState { sizing_direction: SizingDirection::NONE, ..*old(self) }),
    {
        self.set_sizing_direction(SizingDirection::NONE);
    }

    pub fn get_cached_cursor_pos(&self) -> (pos: (i32, i32))
        ensures
            pos == self.cached_cursor_pos,
    {
        self.cached_cursor_pos
    }

    pub fn cache_cursor_pos(&mut self, pos: (i32, i32))
        ensures
            *final(self) == (UpdateState { cached_cursor_pos: pos, ..*old(self) }),
    {
        self.cached_cursor_pos = pos;
    }

    pub fn drawing_enabled(&self) -> (enabled: bool)
        ensures
            enabled == !self.cancel_draw,
    {
        !self.cancel_draw
    }

    pub fn enable_draw(&mut self)
        ensures
            *final(self) == (UpdateState { cancel_draw: false, ..*old(self) }),
    {
        self.cancel_draw = false;
    }

    pub fn cancel_draw(&mut self)
        ensures
            *final(self) == (UpdateState { cancel_draw: true, ..*old(self) }),
    {
        self.cancel_draw = true;
    }
}

/// The limit on a width or a height that is no limit.
pub const NO_LIMIT: i32 = -1;

/// What a window knows of itself besides its pixels, its colours and its
/// events.
#[derive(Copy, Clone, Debug, PartialEq, Eq)]
pub struct WindowStatus {
    pub minimum_size: (i32, i32),
    pub maximum_size: (i32, i32),
    pub maximized: bool,
    pub close_mode: CloseState,
    pub focused: bool,
    pub frame_count: i32,
    pub counting_frames: bool,
    pub modal_running: bool,
    pub timer_callback_running: bool,
    pub update_state: UpdateState,
}

/// A rectangle on the screen, by its edges.
#[derive(Copy, Clone, Debug, PartialEq, Eq, Structural)]
pub struct Rect {
    pub left: i32,
    pub top: i32,
    pub right: i32,
    pub bottom: i32,
}

/// Where on the screen a window is to be put, and how large.
#[derive(Copy, Clone, Debug, PartialEq, Eq, Structural)]
pub struct Placement {
    pub x: i32,
    pub y: i32,
    pub width: i32,
    pub height: i32,
}

/// The parts of a window outside its client area that a click can hit.
#[derive(Copy, Clone, Debug, PartialEq, Eq, Structural)]
pub enum NonClientArea {
    BORDER(SizingDirection),
    CLOSE,
    MAXBUTTON,
    MINBUTTON,
    OTHER,
}

/// What the system tells a window. Positions are those of the pointer in the
/// client area; an extra button is the first or the second; a wheel turns by
/// a signed amount.
#[derive(Copy, Clone, Debug, PartialEq, Eq, Structural)]
pub enum WindowMessage {
    MOUSEMOVE,
    MOUSELEAVE,
    LBUTTONDOWN(i32, i32),
    LBUTTONUP(i32, i32),
    RBUTTONDOWN(i32, i32),
    RBUTTONUP(i32, i32),
    MBUTTONDOWN(i32, i32),
    MBUTTONUP(i32, i32),
    XBUTTONDOWN(bool, i32, i32),
    XBUTTONUP(bool, i32, i32),
    MOUSEWHEEL(i16, i32, i32),
    MOUSEHWHEEL(i16, i32, i32),
    KEYDOWN(usize),
    KEYUP(usize),
    NCLBUTTONDOWN(NonClientArea),
    NCLBUTTONUP,
    NCMOUSEMOVE,
    NCMOUSELEAVE,
    SYSCOMMAND(bool),
    OTHER,
}

/// What the system knows at the moment a message is handled: whether the
/// left button is down, where the pointer is on the screen, and where the
/// window is.
#[derive(Copy, Clone, Debug, PartialEq, Eq)]
pub struct Pointer {
    pub left_mouse_down: bool,
    pub cursor: (i32, i32),
    pub window_rect: Rect,
}

/// What is to be done about a message once the window has taken note of it.
#[derive(Copy, Clone, Debug, PartialEq, Eq)]
pub struct Response {
    /// Whether the message goes on to the system's own handling.
    pub use_default_protocol: bool,
    /// Where to move the window to, if it was resized.
    pub placement: Option<Placement>,
    /// Whether to show the window maximized or restored, if either.
    pub show_maximized: Option<bool>,
    /// Whether the timer that runs while a border is held is to be stopped.
    pub kill_timer: bool,
}

/// How much wider and higher a window becomes when the border `direction`
/// is dragged to `cursor`. The differences wrap around at the ends of `i32`.
pub open spec fn growth(direction: SizingDirection, rect: Rect, cursor: (i32, i32)) -> (i32, i32) {
    let to_left = rect.left.wrapping_sub(cursor.0);
    let to_right = cursor.0.wrapping_sub(rect.right);
    let to_top = rect.top.wrapping_sub(cursor.1);
    let to_bottom = cursor.1.wrapping_sub(rect.bottom);
    match direction {
        SizingDirection::TOP => (0, to_top),
        SizingDirection::BOTTOM => (0, to_bottom),
        SizingDirection::LEFT => (to_left, 0),
        SizingDirection::RIGHT => (to_right, 0),
        SizingDirection::TOPLEFT => (to_left, to_top),
        SizingDirection::TOPRIGHT => (to_right, to_top),
        SizingDirection::BOTTOMLEFT => (to_left, to_bottom),
        SizingDirection::BOTTOMRIGHT => (to_right, to_bottom),
        SizingDirection::NONE => (0, 0),
    }
}

/// How far a window moves left and up when it grows by `by` at the border
/// `direction`: as far as it grows at its left and at its top.
pub open spec fn shift(direction: SizingDirection, by: (i32, i32)) -> (i32, i32) {
    match direction {
        SizingDirection::TOP => (0, by.1),
        SizingDirection::LEFT => (by.0, 0),
        SizingDirection::TOPLEFT => by,
        SizingDirection::TOPRIGHT => (0, by.1),
        SizingDirection::BOTTOMLEFT => (by.0, 0),
        _ => (0, 0),
    }
}

/// `extent` held between `minimum` and `maximum`, where -1 is no limit and
/// the maximum is looked at first.
pub open spec fn limited(extent: i32, minimum: i32, maximum: i32) -> i32 {
    if extent > maximum && maximum != NO_LIMIT {
        maximum
    } else if extent < minimum && minimum != NO_LIMIT {
        minimum
    } else {
        extent
    }
}

/// Where a window at `rect` goes when its border `direction` is dragged to
/// `cursor`, its size held within `minimum` and `maximum`.
pub open spec fn dragged(
    direction: SizingDirection,
    rect: Rect,
    cursor: (i32, i32),
    minimum: (i32, i32),
    maximum: (i32, i32),
) -> Placement {
    let by = growth(direction, rect, cursor);
    let moved = shift(direction, by);
    Placement {
        x: rect.left.wrapping_sub(moved.0),
        y: rect.top.wrapping_sub(moved.1),
        width: limited(
            rect.right.wrapping_sub(rect.left).wrapping_add(by.0),
            minimum.0,
            maximum.0,
        ),
        height: limited(
            rect.bottom.wrapping_sub(rect.top).wrapping_add(by.1),
            minimum.1,
            maximum.1,
        ),
    }
}

/// The mouse event that a message about a button or a wheel stands for.
/// A second extra button that comes up is reported as one that went down.
pub open spec fn mouse_event_of(message: WindowMessage) -> Option<MouseEvent> {
    match message {
        WindowMessage::LBUTTONDOWN(x, y) => Some(MouseEvent::MOUSEDOWN(MouseButton::LEFTMOUSE, x, y)),
        WindowMessage::LBUTTONUP(x, y) => Some(MouseEvent::MOUSEUP(MouseButton::LEFTMOUSE, x, y)),
        WindowMessage::RBUTTONDOWN(x, y) => Some(MouseEvent::MOUSEDOWN(MouseButton::RIGHTMOUSE, x, y)),
        WindowMessage::RBUTTONUP(x, y) => Some(MouseEvent::MOUSEUP(MouseButton::RIGHTMOUSE, x, y)),
        WindowMessage::MBUTTONDOWN(x, y) => Some(
            MouseEvent::MOUSEDOWN(MouseButton::MIDDLEMOUSE, x, y),
        ),
        WindowMessage::MBUTTONUP(x, y) => Some(MouseEvent::MOUSEUP(MouseButton::MIDDLEMOUSE, x, y)),
        WindowMessage::XBUTTONDOWN(first, x, y) => Some(
            MouseEvent::MOUSEDOWN(
                if first {
                    MouseButton::XBUTTON
                } else {
                    MouseButton::YBUTTON
                },
                x,
                y,
            ),
        ),
        WindowMessage::XBUTTONUP(first, x, y) => Some(
            MouseEvent::MOUSEDOWN(
                if first {
                    MouseButton::XBUTTON
                } else {
                    MouseButton::YBUTTON
                },
                x,
                y,
            ),
        ),
        WindowMessage::MOUSEWHEEL(delta, x, y) => Some(MouseEvent::MOUSESCROLL(0, delta, x, y)),
        WindowMessage::MOUSEHWHEEL(delta, x, y) => Some(MouseEvent::MOUSESCROLL(delta, 0, x, y)),
        _ => None,
    }
}

/// The mouse event that a message about a button or a wheel stands for.
pub fn mouse_event(message: WindowMessage) -> (event: Option<MouseEvent>)
    ensures
        event == mouse_event_of(message),
{
    match message {
        WindowMessage::LBUTTONDOWN(x, y) => Some(MouseEvent::MOUSEDOWN(MouseButton::LEFTMOUSE, x, y)),
        WindowMessage::LBUTTONUP(x, y) => Some(MouseEvent::MOUSEUP(MouseButton::LEFTMOUSE, x, y)),
        WindowMessage::RBUTTONDOWN(x, y) => Some(MouseEvent::MOUSEDOWN(MouseButton::RIGHTMOUSE, x, y)),
        WindowMessage::RBUTTONUP(x, y) => Some(MouseEvent::MOUSEUP(MouseButton::RIGHTMOUSE, x, y)),
        WindowMessage::MBUTTONDOWN(x, y) => Some(
            MouseEvent::MOUSEDOWN(MouseButton::MIDDLEMOUSE, x, y),
        ),
        WindowMessage::MBUTTONUP(x, y) => Some(MouseEvent::MOUSEUP(MouseButton::MIDDLEMOUSE, x, y)),
        WindowMessage::XBUTTONDOWN(first, x, y) => {
            let button = if first {
                MouseButton::XBUTTON
            } else {
                MouseButton::YBUTTON
            };
            Some(MouseEvent::MOUSEDOWN(button, x, y))
        },
        WindowMessage::XBUTTONUP(first, x, y) => {
            let button = if first {
                MouseButton::XBUTTON
            } else {
                MouseButton::YBUTTON
            };
            Some(MouseEvent::MOUSEDOWN(button, x, y))
        },
        WindowMessage::MOUSEWHEEL(delta, x, y) => Some(MouseEvent::MOUSESCROLL(0, delta, x, y)),
        WindowMessage::MOUSEHWHEEL(delta, x, y) => Some(MouseEvent::MOUSESCROLL(delta, 0, x, y)),
        _ => None,
    }
}

/// The grid of pixels behind an open window, and what the window knows of
/// itself.
pub struct Window {
    surface: Surface,
    background_color: Color,
    running: bool,
    show_frame_rate: bool,
    status: WindowStatus,
    event_manager: EventManager,
}

impl View for Window {
    type V = Seq<u32>;

    /// The pixels, row by row from the top.
    closed spec fn view(&self) -> Seq<u32> {
        self.surface@
    }
}

impl Window {
    /// The width and the height of the client area.
    pub closed spec fn spec_client_size(&self) -> (i32, i32) {
        self.surface.spec_size()
    }

    pub closed spec fn spec_background_color(&self) -> Color {
        self.background_color
    }

    pub closed spec fn spec_is_running(&self) -> bool {
        self.running
    }

    pub closed spec fn spec_shows_frame_rate(&self) -> bool {
        self.show_frame_rate
    }

    pub closed spec fn spec_status(&self) -> WindowStatus {
        self.status
    }

    pub closed spec fn spec_event_manager(&self) -> EventManager {
        self.event_manager
    }

    /// `self` is `before` in all but its pixels.
    pub open spec fn same_frame_as(&self, before: &Window) -> bool {
        &&& self.spec_client_size() == before.spec_client_size()
        &&& self.spec_background_color() == before.spec_background_color()
        &&& self.spec_is_running() == before.spec_is_running()
        &&& self.spec_shows_frame_rate() == before.spec_shows_frame_rate()
        &&& self.spec_status() == before.spec_status()
        &&& self.spec_event_manager() == before.spec_event_manager()
    }

    /// The grid after the pixel nearest to (`x`, `y`) has been set to `value`.
    pub open spec fn with_point(&self, x: int, y: int, value: u32) -> Seq<u32> {
        painted(self@, self.spec_client_size().0 as int, self.spec_client_size().1 as int, x, y, value)
    }

    /// The grid after each of `points` has been set to `value`, first to last.
    pub open spec fn with_points(&self, points: Seq<(int, int)>, value: u32) -> Seq<u32> {
        painted_all(
            self@,
            self.spec_client_size().0 as int,
            self.spec_client_size().1 as int,
            points,
            value,
        )
    }

    /// What a window knows of itself when it opens: no limits on its size,
    /// focused, neither maximized nor dragged, closing when asked to.
    pub open spec fn initial_status() -> WindowStatus {
        WindowStatus {
            minimum_size: (NO_LIMIT, NO_LIMIT),
            maximum_size: (NO_LIMIT, NO_LIMIT),
            maximized: false,
            close_mode: CloseState::NORMAL,
            focused: true,
            frame_count: 0,
            counting_frames: false,
            modal_running: false,
            timer_callback_running: false,
            update_state: UpdateState {
                sizing_direction: SizingDirection::NONE,
                cached_cursor_pos: (0, 0),
                cancel_draw: false,
            },
        }
    }

    /// The size that a request for `width` by `height` pixels gives: a
    /// negative extent counts as zero.
    pub open spec fn granted(width: i32, height: i32) -> (i32, i32) {
        (
            if width < 0 {
                0
            } else {
                width
            },
            if height < 0 {
                0
            } else {
                height
            },
        )
    }

    /// An open window with a client area of `width` by `height` pixels, all
    /// of them in the background colour. A negative size counts as zero.
    pub fn new(width: i32, height: i32, background_color: Color) -> (window: Window)
        requires
            width * height <= usize::MAX,
        ensures
            window.spec_client_size() == Self::granted(width, height),
            window.spec_background_color() == background_color,
            window.spec_is_running(),
            !window.spec_shows_frame_rate(),
            window.spec_status() == Self::initial_status(),
            window.spec_event_manager().spec_events() == Seq::<Event>::empty(),
            window.spec_event_manager().spec_keymap() == Map::<usize, u16>::empty(),
            window@.len() == window.spec_client_size().0 * window.spec_client_size().1,
            forall|i: int| 0 <= i < window@.len() ==> window@[i] == background_color.spec_to_u32(),
    {
        let surface = Self::blank(width, height, background_color.to_u32());
        Window {
            surface,
            background_color,
            running: true,
            show_frame_rate: false,
            status: WindowStatus {
                minimum_size: (NO_LIMIT, NO_LIMIT),
                maximum_size: (NO_LIMIT, NO_LIMIT),
                maximized: false,
                close_mode: CloseState::NORMAL,
                focused: true,
                frame_count: 0,
                counting_frames: false,
                modal_running: false,
                timer_callback_running: false,
                update_state: UpdateState::new(),
            },
            event_manager: EventManager::new(),
        }
    }

    /// A grid for a client area of `width` by `height` pixels, each of them
    /// `value`.
    fn blank(width: i32, height: i32, value: u32) -> (surface: Surface)
        requires
            width * height <= usize::MAX,
        ensures
            surface.spec_size() == Self::granted(width, height),
            surface@.len() == surface.spec_size().0 * surface.spec_size().1,
            forall|i: int| 0 <= i < surface@.len() ==> surface@[i] == value,
    {
        let width: i32 = if width < 0 {
            0
        } else {
            width
        };
        let height: i32 = if height < 0 {
            0
        } else {
            height
        };
        Surface::new(width, height, value)
    }

    /// Whether the window is still open. A window that was closed stays
    /// closed.
    pub fn is_running(&self) -> (running: bool)
        ensures
            running == self.spec_is_running(),
    {
        self.running
    }

    /// Closes the window for good.
    pub fn close(&mut self)
        ensures
            !final(self).spec_is_running(),
            final(self)@ == old(self)@,
            final(self).spec_client_size() == old(self).spec_client_size(),
            final(self).spec_background_color() == old(self).spec_background_color(),
            final(self).spec_shows_frame_rate() == old(self).spec_shows_frame_rate(),
            final(self).spec_status() == old(self).spec_status(),
            final(self).spec_event_manager() == old(self).spec_event_manager(),
    {
        self.running = false;
    }

    /// The width and the height of the client area.
    pub fn get_client_size(&self) -> (size: (i32, i32))
        ensures
            size == self.spec_client_size(),
            0 <= size.0,
            0 <= size.1,
            self@.len() == size.0 * size.1,
    {
        self.surface.size()
    }

    /// The pixels, row by row from the top.
    pub fn pixels(&self) -> (pixels: &Vec<u32>)
        ensures
            pixels@ == self@,
    {
        self.surface.pixels()
    }

    /// Writes the pixels to `bytes`, four bytes to the pixel: blue, green
    /// and red, and a fourth byte that stays as it is.
    pub fn write_to(&self, bytes: &mut Vec<u8>)
        ensures
            final(bytes)@ == written(old(bytes)@, self@, self@.len()),
            final(bytes).len() == old(bytes).len(),
    {
        let pixels = self.surface.pixels();
        let mut i: usize = 0;
        while i < pixels.len()
            invariant
                i <= pixels.len(),
                pixels@ == self@,
                bytes.len() == old(bytes).len(),
                bytes@ == written(old(bytes)@, pixels@, i as nat),
            decreases pixels.len() - i,
        {
            if i < bytes.len() / 4 {
                let pixel = pixels[i];
                let at = 4 * i;
                bytes.set(at, byte(pixel, 0));
                bytes.set(at + 1, byte(pixel, 1));
                bytes.set(at + 2, byte(pixel, 2));
            }
            i += 1;
        }
    }

    pub fn get_background_color(&self) -> (color: Color)
        ensures
            color == self.spec_background_color(),
    {
        self.background_color
    }

    pub fn set_background_color(&mut self, color: Color)
        ensures
            final(self).spec_background_color() == color,
            final(self)@ == old(self)@,
            final(self).spec_client_size() == old(self).spec_client_size(),
            final(self).spec_is_running() == old(self).spec_is_running(),
            final(self).spec_shows_frame_rate() == old(self).spec_shows_frame_rate(),
            final(self).spec_status() == old(self).spec_status(),
            final(self).spec_event_manager() == old(self).spec_event_manager(),
    {
        self.background_color = color;
    }

    pub fn show_frame_rate(&mut self)
        ensures
            final(self).spec_shows_frame_rate(),
            final(self)@ == old(self)@,
            final(self).spec_client_size() == old(self).spec_client_size(),
            final(self).spec_is_running() == old(self).spec_is_running(),
            final(self).spec_background_color() == old(self).spec_background_color(),
            final(self).spec_status() == old(self).spec_status(),
            final(self).spec_event_manager() == old(self).spec_event_manager(),
    {
        self.set_frame_rate_display(true);
    }

    pub fn hide_frame_rate(&mut self)
        ensures
            !final(self).spec_shows_frame_rate(),
            final(self)@ == old(self)@,
            final(self).spec_client_size() == old(self).spec_client_size(),
            final(self).spec_is_running() == old(self).spec_is_running(),
            final(self).spec_background_color() == old(self).spec_background_color(),
            final(self).spec_status() == old(self).spec_status(),
            final(self).spec_event_manager() == old(self).spec_event_manager(),
    {
        self.set_frame_rate_display(false);
    }

    pub fn set_frame_rate_display(&mut self, show: bool)
        ensures
            final(self).spec_shows_frame_rate() == show,
            final(self)@ == old(self)@,
            final(self).spec_client_size() == old(self).spec_client_size(),
            final(self).spec_is_running() == old(self).spec_is_running(),
            final(self).spec_background_color() == old(self).spec_background_color(),
            final(self).spec_status() == old(self).spec_status(),
            final(self).spec_event_manager() == old(self).spec_event_manager(),
    {
        self.show_frame_rate = show;
    }

    /// Gives the client area a new size and paints all of it in the
    /// background colour. A negative size counts as zero.
    pub fn resize(&mut self, width: i32, height: i32)
        requires
            width * height <= usize::MAX,
        ensures
            final(self).spec_client_size() == Self::granted(width, height),
            final(self)@.len() == final(self).spec_client_size().0 * final(self).spec_client_size().1,
            forall|i: int|
                0 <= i < final(self)@.len()
                    ==> final(self)@[i] == old(self).spec_background_color().spec_to_u32(),
            final(self).spec_background_color() == old(self).spec_background_color(),
            final(self).spec_is_running() == old(self).spec_is_running(),
            final(self).spec_shows_frame_rate() == old(self).spec_shows_frame_rate(),
            final(self).spec_status() == old(self).spec_status(),
            final(self).spec_event_manager() == old(self).spec_event_manager(),
    {
        self.surface = Self::blank(width, height, self.background_color.to_u32());
    }

    /// Draws a point in `color`. A point outside the client area is drawn on
    /// its edge.
    pub fn draw_point(&mut self, x: i32, y: i32, color: Color)
        ensures
            final(self)@ == old(self).with_point(x as int, y as int, color.spec_to_u32()),
            final(self).same_frame_as(old(self)),
    {
        self.surface.plot(x as i64, y as i64, color.to_u32());
    }

    /// Draws the line from `point_a` to `point_b` in `color`, pixel by pixel
    /// with an integer error term.
    pub fn draw_line(&mut self, point_a: (i32, i32), point_b: (i32, i32), color: Color)
        ensures
            final(self)@ == old(self).with_points(
                line_points(point_a, point_b),
                color.spec_to_u32(),
            ),
            final(self).same_frame_as(old(self)),
    {
        let value = color.to_u32();
        let ghost size = self.surface.spec_size();
        let ghost points = line_points(point_a, point_b);
        let ghost steps = line_steps(point_a, point_b);
        let mut dx: i64 = point_b.0 as i64 - point_a.0 as i64;
        let mut dy: i64 = point_b.1 as i64 - point_a.1 as i64;
        let step_x: i64 = if dx < 0 {
            dx = -dx;
            -1
        } else {
            1
        };
        let step_y: i64 = if dy < 0 {
            dy = -dy;
            -1
        } else {
            1
        };
        let mut x: i64 = point_a.0 as i64;
        let mut y: i64 = point_a.1 as i64;
        self.surface.plot(x, y, value);
        let ghost mut done: int = 0;
        proof {
            assert(points.take(1).drop_last() =~= Seq::<(int, int)>::empty());
            assert(points.take(1).last() == (x as int, y as int));
            assert(painted_all(
                old(self)@,
                old(self).spec_client_size().0 as int,
                old(self).spec_client_size().1 as int,
                points.take(1).drop_last(),
                value,
            ) == old(self)@);
        }
        if dx > dy {
            let mut fraction: i64 = 2 * dy - dx;
            while x != point_b.0 as i64
                invariant
                    dx == span(point_a.0 as int, point_b.0 as int),
                    dy == span(point_a.1 as int, point_b.1 as int),
                    step_x == heading(point_a.0 as int, point_b.0 as int),
                    step_y == heading(point_a.1 as int, point_b.1 as int),
                    is_shallow(point_a, point_b),
                    points == line_points(point_a, point_b),
                    steps == line_steps(point_a, point_b),
                    0 <= done <= steps,
                    line_walk(point_a, point_b, done as nat) == (Stride {
                        x: x as int,
                        y: y as int,
                        fraction: fraction as int,
                    }),
                    self@ == old(self).with_points(points.take(done + 1), value),
                    self.same_frame_as(old(self)),
                decreases steps - done,
            {
                proof {
                    lemma_line_walk(point_a, point_b, done as nat);
                    lemma_line_walk(point_a, point_b, (done + 1) as nat);
                }
                x += step_x;
                if fraction >= 0 {
                    y += step_y;
                    fraction -= 2 * dx;
                }
                fraction += 2 * dy;
                self.surface.plot(x, y, value);
                proof {
                    done = done + 1;
                    assert(points.take(done + 1).drop_last() =~= points.take(done));
                    assert(points.take(done + 1).last() == (x as int, y as int));
                }
            }
            proof {
                lemma_line_walk(point_a, point_b, done as nat);
                assert(points.take(done + 1) =~= points);
            }
        } else {
            let mut fraction: i64 = 2 * dx - dy / 2;
            while y != point_b.1 as i64
                invariant
                    dx == span(point_a.0 as int, point_b.0 as int),
                    dy == span(point_a.1 as int, point_b.1 as int),
                    step_x == heading(point_a.0 as int, point_b.0 as int),
                    step_y == heading(point_a.1 as int, point_b.1 as int),
                    !is_shallow(point_a, point_b),
                    points == line_points(point_a, point_b),
                    steps == line_steps(point_a, point_b),
                    0 <= done <= steps,
                    line_walk(point_a, point_b, done as nat) == (Stride {
                        x: x as int,
                        y: y as int,
                        fraction: fraction as int,
                    }),
                    self@ == old(self).with_points(points.take(done + 1), value),
                    self.same_frame_as(old(self)),
                decreases steps - done,
            {
                proof {
                    lemma_line_walk(point_a, point_b, done as nat);
                    lemma_line_walk(point_a, point_b, (done + 1) as nat);
                }
                y += step_y;
                if fraction >= 0 {
                    x += step_x;
                    fraction -= 2 * dy;
                }
                fraction += 2 * dx;
                self.surface.plot(x, y, value);
                proof {
                    done = done + 1;
                    assert(points.take(done + 1).drop_last() =~= points.take(done));
                    assert(points.take(done + 1).last() == (x as int, y as int));
                }
            }
            proof {
                lemma_line_walk(point_a, point_b, done as nat);
                assert(points.take(done + 1) =~= points);
            }
        }
    }

    /// Paints every pixel in `color`.
    pub fn fill(&mut self, color: Color)
        ensures
            final(self)@.len() == old(self)@.len(),
            forall|i: int| 0 <= i < final(self)@.len() ==> final(self)@[i] == color.spec_to_u32(),
            final(self).same_frame_as(old(self)),
    {
        self.surface.fill(color.to_u32());
    }

    /// `self` is `before` in all but what it knows of itself and its events.
    pub open spec fn same_picture_as(&self, before: &Window) -> bool {
        &&& self@ == before@
        &&& self.spec_client_size() == before.spec_client_size()
        &&& self.spec_background_color() == before.spec_background_color()
        &&& self.spec_is_running() == before.spec_is_running()
        &&& self.spec_shows_frame_rate() == before.spec_shows_frame_rate()
    }

    /// The events that wait to be picked up.
    pub fn event_manager(&self) -> (manager: &EventManager)
        ensures
            *manager == self.spec_event_manager(),
    {
        &self.event_manager
    }

    /// The events that wait to be picked up, to be taken away or added to.
    pub fn event_manager_mut(&mut self) -> (manager: &mut EventManager)
        ensures
            *manager == old(self).spec_event_manager(),
            final(self).spec_event_manager() == *final(manager),
            final(self).same_picture_as(old(self)),
            final(self).spec_status() == old(self).spec_status(),
    {
        &mut self.event_manager
    }

    /// What the window knows of itself.
    pub fn status(&self) -> (status: WindowStatus)
        ensures
            status == self.spec_status(),
    {
        self.status
    }

    /// Sets the limits on the size of the window and how it answers a
    /// request to close it.
    pub fn configure(
        &mut self,
        minimum_size: (i32, i32),
        maximum_size: (i32, i32),
        maximized: bool,
        close_mode: CloseState,
    )
        ensures
            final(self).spec_status() == (WindowStatus {
                minimum_size,
                maximum_size,
                maximized,
                close_mode,
                ..old(self).spec_status()
            }),
            final(self).same_picture_as(old(self)),
            final(self).spec_event_manager() == old(self).spec_event_manager(),
    {
        self.status.minimum_size = minimum_size;
        self.status.maximum_size = maximum_size;
        self.status.maximized = maximized;
        self.status.close_mode = close_mode;
    }

    /// Notes whether the system has taken over the handling of messages,
    /// as it does while a window is moved or resized by its frame.
    pub fn set_modal_running(&mut self, running: bool)
        ensures
            final(self).spec_status() == (WindowStatus {
                modal_running: running,
                ..old(self).spec_status()
            }),
            final(self).same_picture_as(old(self)),
            final(self).spec_event_manager() == old(self).spec_event_manager(),
    {
        self.status.modal_running = running;
    }

    /// Notes whether a frame is being drawn from the timer that runs while
    /// the system handles the messages.
    pub fn set_timer_callback_running(&mut self, running: bool)
        ensures
            final(self).spec_status() == (WindowStatus {
                timer_callback_running: running,
                ..old(self).spec_status()
            }),
            final(self).same_picture_as(old(self)),
            final(self).spec_event_manager() == old(self).spec_event_manager(),
    {
        self.status.timer_callback_running = running;
    }

    /// Whether the border of the window is being dragged according to
    /// `status`, with the left button down or not.
    pub open spec fn drags(status: WindowStatus, left_mouse_down: bool) -> bool {
        left_mouse_down && status.update_state.sizing_direction != SizingDirection::NONE
    }

    /// What the window knows once it has looked whether its border is being
    /// dragged: a border that is not dragged any more is let go of.
    pub open spec fn after_looking(status: WindowStatus, left_mouse_down: bool) -> WindowStatus {
        if Self::drags(status, left_mouse_down) {
            status
        } else {
            WindowStatus {
                update_state: UpdateState {
                    sizing_direction: SizingDirection::NONE,
                    ..status.update_state
                },
                ..status
            }
        }
    }

    /// Whether the border of the window is being dragged: a border was taken
    /// hold of and the left button is still down. Otherwise the border is
    /// let go of.
    pub fn is_resizing(&mut self, left_mouse_down: bool) -> (resizing: bool)
        ensures
            resizing == Self::drags(old(self).spec_status(), left_mouse_down),
            final(self).spec_status() == Self::after_looking(
                old(self).spec_status(),
                left_mouse_down,
            ),
            final(self).same_picture_as(old(self)),
            final(self).spec_event_manager() == old(self).spec_event_manager(),
    {
        let held = match self.status.update_state.get_sizing_direction() {
            SizingDirection::NONE => false,
            _ => true,
        };
        if left_mouse_down && held {
            true
        } else {
            self.status.update_state.clear_sizing_direction();
            false
        }
    }

    /// `width` held within the limits on the width of the window.
    pub fn clamp_width(&self, width: i32) -> (clamped: i32)
        ensures
            clamped == limited(
                width,
                self.spec_status().minimum_size.0,
                self.spec_status().maximum_size.0,
            ),
    {
        if width > self.status.maximum_size.0 && self.status.maximum_size.0 != NO_LIMIT {
            self.status.maximum_size.0
        } else if width < self.status.minimum_size.0 && self.status.minimum_size.0 != NO_LIMIT {
            self.status.minimum_size.0
        } else {
            width
        }
    }

    /// `height` held within the limits on the height of the window.
    pub fn clamp_height(&self, height: i32) -> (clamped: i32)
        ensures
            clamped == limited(
                height,
                self.spec_status().minimum_size.1,
                self.spec_status().maximum_size.1,
            ),
    {
        if height > self.status.maximum_size.1 && self.status.maximum_size.1 != NO_LIMIT {
            self.status.maximum_size.1
        } else if height < self.status.minimum_size.1 && self.status.minimum_size.1 != NO_LIMIT {
            self.status.minimum_size.1
        } else {
            height
        }
    }

    /// What the window knows once its border has been dragged to the
    /// pointer: where the pointer was, and that the next frame is not to be
    /// shown.
    pub open spec fn after_drag(status: WindowStatus, pointer: Pointer) -> WindowStatus {
        if status.update_state.cached_cursor_pos == pointer.cursor {
            status
        } else {
            WindowStatus {
                update_state: UpdateState {
                    cached_cursor_pos: pointer.cursor,
                    cancel_draw: true,
                    ..status.update_state
                },
                ..status
            }
        }
    }

    /// Follows the pointer with the border that is held. Where the pointer
    /// has moved since it was last looked at, the window is to be put where
    /// `dragged` says, a resize is reported as an event, and the next frame
    /// is not shown; where it has not moved, nothing happens.
    pub fn handle_resize(&mut self, pointer: Pointer) -> (placement: Option<Placement>)
        ensures
            placement == if old(self).spec_status().update_state.cached_cursor_pos
                == pointer.cursor {
                None
            } else {
                Some(
                    dragged(
                        old(self).spec_status().update_state.sizing_direction,
                        pointer.window_rect,
                        pointer.cursor,
                        old(self).spec_status().minimum_size,
                        old(self).spec_status().maximum_size,
                    ),
                )
            },
            final(self).spec_status() == Self::after_drag(old(self).spec_status(), pointer),
            final(self).spec_event_manager().spec_keymap() == old(self).spec_event_manager().spec_keymap(),
            final(self).spec_event_manager().spec_events() == if placement is Some {
                old(self).spec_event_manager().spec_events().push(
                    Event::WINDOWRESIZE(WindowEvent::WINDOWRESIZE),
                )
            } else {
                old(self).spec_event_manager().spec_events()
            },
            final(self).same_picture_as(old(self)),
    {
        let (cursor_x, cursor_y) = pointer.cursor;
        let cached = self.status.update_state.get_cached_cursor_pos();
        if cached.0 == cursor_x && cached.1 == cursor_y {
            return None;
        }
        let window_rect = pointer.window_rect;
        let direction = self.status.update_state.get_sizing_direction();
        let to_left = window_rect.left.wrapping_sub(cursor_x);
        let to_right = cursor_x.wrapping_sub(window_rect.right);
        let to_top = window_rect.top.wrapping_sub(cursor_y);
        let to_bottom = cursor_y.wrapping_sub(window_rect.bottom);
        let (dwidth, dheight): (i32, i32) = match direction {
            SizingDirection::TOP => (0, to_top),
            SizingDirection::BOTTOM => (0, to_bottom),
            SizingDirection::LEFT => (to_left, 0),
            SizingDirection::RIGHT => (to_right, 0),
            SizingDirection::TOPLEFT => (to_left, to_top),
            SizingDirection::TOPRIGHT => (to_right, to_top),
            SizingDirection::BOTTOMLEFT => (to_left, to_bottom),
            SizingDirection::BOTTOMRIGHT => (to_right, to_bottom),
            SizingDirection::NONE => (0, 0),
        };
        let (dx, dy): (i32, i32) = match direction {
            SizingDirection::TOP => (0, dheight),
            SizingDirection::LEFT => (dwidth, 0),
            SizingDirection::TOPLEFT => (dwidth, dheight),
            SizingDirection::TOPRIGHT => (0, dheight),
            SizingDirection::BOTTOMLEFT => (dwidth, 0),
            _ => (0, 0),
        };
        let width = window_rect.right.wrapping_sub(window_rect.left);
        let height = window_rect.bottom.wrapping_sub(window_rect.top);
        let placement = Placement {
            x: window_rect.left.wrapping_sub(dx),
            y: window_rect.top.wrapping_sub(dy),
            width: self.clamp_width(width.wrapping_add(dwidth)),
            height: self.clamp_height(height.wrapping_add(dheight)),
        };
        self.event_manager.push(Event::from(WindowEvent::WINDOWRESIZE));
        self.status.update_state.cache_cursor_pos((cursor_x, cursor_y));
        self.status.update_state.cancel_draw();
        Some(placement)
    }

    /// Follows the pointer with the border if the border is being dragged,
    /// and lets go of the border if it is not.
    fn follow(&mut self, pointer: Pointer) -> (placement: Option<Placement>)
        ensures
            placement == Self::followed(old(self).spec_status(), pointer).1,
            final(self).spec_status() == Self::followed(old(self).spec_status(), pointer).0,
            final(self).spec_event_manager().spec_keymap() == old(self).spec_event_manager().spec_keymap(),
            final(self).spec_event_manager().spec_events() == if placement is Some {
                old(self).spec_event_manager().spec_events().push(
                    Event::WINDOWRESIZE(WindowEvent::WINDOWRESIZE),
                )
            } else {
                old(self).spec_event_manager().spec_events()
            },
            final(self).same_picture_as(old(self)),
    {
        if self.is_resizing(pointer.left_mouse_down) {
            self.handle_resize(pointer)
        } else {
            None
        }
    }

    /// What the window knows, and where it is to be put, once it has followed
    /// the pointer with a border that may be held.
    pub open spec fn followed(status: WindowStatus, pointer: Pointer) -> (
        WindowStatus,
        Option<Placement>,
    ) {
        if Self::drags(status, pointer.left_mouse_down) {
            (
                Self::after_drag(status, pointer),
                if status.update_state.cached_cursor_pos == pointer.cursor {
                    None
                } else {
                    Some(
                        dragged(
                            status.update_state.sizing_direction,
                            pointer.window_rect,
                            pointer.cursor,
                            status.minimum_size,
                            status.maximum_size,
                        ),
                    )
                },
            )
        } else {
            (Self::after_looking(status, pointer.left_mouse_down), None)
        }
    }

    /// What the window knows once it has taken note of `message`.
    pub open spec fn after_message(
        status: WindowStatus,
        message: WindowMessage,
        pointer: Pointer,
    ) -> WindowStatus {
        match message {
            WindowMessage::MOUSEMOVE
            | WindowMessage::MOUSELEAVE
            | WindowMessage::NCMOUSEMOVE
            | WindowMessage::NCMOUSELEAVE => Self::followed(status, pointer).0,
            WindowMessage::NCLBUTTONDOWN(NonClientArea::BORDER(direction)) => WindowStatus {
                update_state: UpdateState {
                    sizing_direction: direction,
                    cached_cursor_pos: pointer.cursor,
                    ..status.update_state
                },
                ..status
            },
            WindowMessage::NCLBUTTONDOWN(NonClientArea::MAXBUTTON) => WindowStatus {
                maximized: !status.maximized,
                ..status
            },
            _ => status,
        }
    }

    /// What is to be done about `message`.
    ///
    /// A pointer that moves inside the window while a border is dragged is
    /// the window's own business, and so is a click on a border or on the
    /// close button of a window that asks before it closes; everything else
    /// goes on to the system.
    pub open spec fn response_to(
        status: WindowStatus,
        message: WindowMessage,
        pointer: Pointer,
    ) -> Response {
        match message {
            WindowMessage::MOUSEMOVE => Response {
                use_default_protocol: !Self::drags(status, pointer.left_mouse_down),
                placement: Self::followed(status, pointer).1,
                show_maximized: None,
                kill_timer: false,
            },
            WindowMessage::MOUSELEAVE
            | WindowMessage::NCMOUSEMOVE
            | WindowMessage::NCMOUSELEAVE => Response {
                use_default_protocol: true,
                placement: Self::followed(status, pointer).1,
                show_maximized: None,
                kill_timer: false,
            },
            WindowMessage::NCLBUTTONDOWN(NonClientArea::BORDER(_)) => Response {
                use_default_protocol: false,
                placement: None,
                show_maximized: None,
                kill_timer: false,
            },
            WindowMessage::NCLBUTTONDOWN(NonClientArea::CLOSE) => Response {
                use_default_protocol: status.close_mode != CloseState::REQUIREAPPROVE,
                placement: None,
                show_maximized: None,
                kill_timer: false,
            },
            WindowMessage::NCLBUTTONDOWN(NonClientArea::MAXBUTTON) => Response {
                use_default_protocol: true,
                placement: None,
                show_maximized: Some(!status.maximized),
                kill_timer: false,
            },
            WindowMessage::NCLBUTTONUP => Response {
                use_default_protocol: true,
                placement: None,
                show_maximized: None,
                kill_timer: true,
            },
            _ => Response {
                use_default_protocol: true,
                placement: None,
                show_maximized: None,
                kill_timer: false,
            },
        }
    }

    /// The events that `message` adds to those waiting, but for the events
    /// of keys, which depend on the keys that are down.
    pub open spec fn events_of(
        status: WindowStatus,
        message: WindowMessage,
        pointer: Pointer,
    ) -> Seq<Event> {
        match message {
            WindowMessage::MOUSEMOVE => if Self::drags(status, pointer.left_mouse_down) {
                if Self::followed(status, pointer).1 is Some {
                    seq![Event::WINDOWRESIZE(WindowEvent::WINDOWRESIZE)]
                } else {
                    Seq::<Event>::empty()
                }
            } else {
                seq![Event::MOUSEMOVE]
            },
            WindowMessage::MOUSELEAVE
            | WindowMessage::NCMOUSEMOVE
            | WindowMessage::NCMOUSELEAVE => if Self::followed(status, pointer).1 is Some {
                seq![Event::WINDOWRESIZE(WindowEvent::WINDOWRESIZE)]
            } else {
                Seq::<Event>::empty()
            },
            WindowMessage::NCLBUTTONDOWN(NonClientArea::CLOSE) => if status.close_mode
                == CloseState::REQUIREAPPROVE {
                seq![Event::WINDOWCLOSEBEGIN(WindowEvent::WINDOWCLOSEBEGIN)]
            } else {
                seq![Event::WINDOWCLOSEFINAL(WindowEvent::WINDOWCLOSEFINAL)]
            },
            WindowMessage::NCLBUTTONDOWN(NonClientArea::MAXBUTTON) => if !status.maximized {
                seq![Event::WINDOWMAXIMIZE(WindowEvent::WINDOWMAXIMIZE)]
            } else {
                seq![Event::WINDOWUNMAXIMIZE(WindowEvent::WINDOWUNMAXIMIZE)]
            },
            WindowMessage::NCLBUTTONDOWN(NonClientArea::MINBUTTON) => seq![
                Event::WINDOWMINIMIZE(WindowEvent::WINDOWMINIMIZE),
            ],
            WindowMessage::SYSCOMMAND(restore) => if restore {
                seq![Event::WINDOWRESTORE(WindowEvent::WINDOWRESTORE)]
            } else {
                Seq::<Event>::empty()
            },
            _ => match mouse_event_of(message) {
                Some(event) => seq![Event::of_mouse(event)],
                None => Seq::<Event>::empty(),
            },
        }
    }

    /// The repeats of each key once `message` has been taken note of.
    pub open spec fn keymap_after(manager: &EventManager, message: WindowMessage) -> Map<
        usize,
        u16,
    > {
        match message {
            WindowMessage::KEYDOWN(key) => manager.keymap_after_down(key),
            WindowMessage::KEYUP(key) => manager.keymap_after_up(key),
            _ => manager.spec_keymap(),
        }
    }

    /// The waiting events once `message` has been taken note of.
    pub open spec fn events_after(
        manager: &EventManager,
        status: WindowStatus,
        message: WindowMessage,
        pointer: Pointer,
    ) -> Seq<Event> {
        match message {
            WindowMessage::KEYDOWN(key) => manager.events_after_down(key),
            WindowMessage::KEYUP(key) => manager.events_after_up(key),
            _ => manager.spec_events() + Self::events_of(status, message, pointer),
        }
    }

    /// Takes note of one message from the system and says what is to be done
    /// about it. A key that goes down or comes up is recorded with the event
    /// manager; every other message changes what `after_message` says and
    /// adds the events that `events_of` lists.
    pub fn handle_message(&mut self, message: WindowMessage, pointer: Pointer) -> (response:
        Response)
        ensures
            response == Self::response_to(old(self).spec_status(), message, pointer),
            final(self).spec_status() == Self::after_message(
                old(self).spec_status(),
                message,
                pointer,
            ),
            final(self).same_picture_as(old(self)),
            final(self).spec_event_manager().spec_keymap() == Self::keymap_after(
                &old(self).spec_event_manager(),
                message,
            ),
            final(self).spec_event_manager().spec_events() == Self::events_after(
                &old(self).spec_event_manager(),
                old(self).spec_status(),
                message,
                pointer,
            ),
    {
        match message {
            WindowMessage::MOUSEMOVE => self.note_mouse_move(pointer),
            WindowMessage::MOUSELEAVE | WindowMessage::NCMOUSEMOVE | WindowMessage::NCMOUSELEAVE => {
                let placement = self.follow(pointer);
                proof {
                    Self::lemma_push_is_concat(
                        old(self).spec_event_manager().spec_events(),
                        Event::WINDOWRESIZE(WindowEvent::WINDOWRESIZE),
                    );
                }
                Response {
                    use_default_protocol: true,
                    placement,
                    show_maximized: None,
                    kill_timer: false,
                }
            },
            WindowMessage::KEYDOWN(key) => {
                self.event_manager.register_key_down(key);
                Self::pass_on()
            },
            WindowMessage::KEYUP(key) => {
                self.event_manager.register_key_up(key);
                Self::pass_on()
            },
            WindowMessage::NCLBUTTONDOWN(area) => self.note_border_click(area, pointer),
            WindowMessage::NCLBUTTONUP => {
                assert(self.event_manager.spec_events() =~= old(self).spec_event_manager().spec_events()
                    + Seq::<Event>::empty());
                Response {
                    use_default_protocol: true,
                    placement: None,
                    show_maximized: None,
                    kill_timer: true,
                }
            },
            WindowMessage::SYSCOMMAND(restore) => {
                if restore {
                    self.event_manager.push(Event::from(WindowEvent::WINDOWRESTORE));
                }
                proof {
                    Self::lemma_push_is_concat(
                        old(self).spec_event_manager().spec_events(),
                        Event::WINDOWRESTORE(WindowEvent::WINDOWRESTORE),
                    );
                }
                Self::pass_on()
            },
            _ => {
                match mouse_event(message) {
                    Some(event) => {
                        self.event_manager.push(Event::from(event));
                    },
                    None => {},
                }
                proof {
                    match mouse_event_of(message) {
                        Some(event) => Self::lemma_push_is_concat(
                            old(self).spec_event_manager().spec_events(),
                            Event::of_mouse(event),
                        ),
                        None => Self::lemma_push_is_concat(
                            old(self).spec_event_manager().spec_events(),
                            Event::MOUSEMOVE,
                        ),
                    }
                }
                Self::pass_on()
            },
        }
    }

    /// Appending one event, or none, is appending a sequence.
    proof fn lemma_push_is_concat(events: Seq<Event>, event: Event)
        ensures
            events.push(event) == events + seq![event],
            events == events + Seq::<Event>::empty(),
    {
        assert(events.push(event) =~= events + seq![event]);
        assert(events =~= events + Seq::<Event>::empty());
    }

    /// The response that leaves a message to the system.
    fn pass_on() -> (response: Response)
        ensures
            response == (Response {
                use_default_protocol: true,
                placement: None,
                show_maximized: None,
                kill_timer: false,
            }),
    {
        Response {
            use_default_protocol: true,
            placement: None,
            show_maximized: None,
            kill_timer: false,
        }
    }

    /// Takes note that the pointer has moved inside the window.
    fn note_mouse_move(&mut self, pointer: Pointer) -> (response: Response)
        ensures
            response == Self::response_to(
                old(self).spec_status(),
                WindowMessage::MOUSEMOVE,
                pointer,
            ),
            final(self).spec_status() == Self::after_message(
                old(self).spec_status(),
                WindowMessage::MOUSEMOVE,
                pointer,
            ),
            final(self).same_picture_as(old(self)),
            final(self).spec_event_manager().spec_keymap() == old(self).spec_event_manager().spec_keymap(),
            final(self).spec_event_manager().spec_events()
                == old(self).spec_event_manager().spec_events() + Self::events_of(
                old(self).spec_status(),
                WindowMessage::MOUSEMOVE,
                pointer,
            ),
    {
        proof {
            Self::lemma_push_is_concat(
                old(self).spec_event_manager().spec_events(),
                Event::WINDOWRESIZE(WindowEvent::WINDOWRESIZE),
            );
            Self::lemma_push_is_concat(
                old(self).spec_event_manager().spec_events(),
                Event::MOUSEMOVE,
            );
        }
        if self.is_resizing(pointer.left_mouse_down) {
            let placement = self.handle_resize(pointer);
            Response {
                use_default_protocol: false,
                placement,
                show_maximized: None,
                kill_timer: false,
            }
        } else {
            self.event_manager.push(Event::from(MouseEvent::MOUSEMOVE));
            Self::pass_on()
        }
    }

    /// Takes note of a click of the left button outside the client area.
    fn note_border_click(&mut self, area: NonClientArea, pointer: Pointer) -> (response: Response)
        ensures
            response == Self::response_to(
                old(self).spec_status(),
                WindowMessage::NCLBUTTONDOWN(area),
                pointer,
            ),
            final(self).spec_status() == Self::after_message(
                old(self).spec_status(),
                WindowMessage::NCLBUTTONDOWN(area),
                pointer,
            ),
            final(self).same_picture_as(old(self)),
            final(self).spec_event_manager().spec_keymap() == old(self).spec_event_manager().spec_keymap(),
            final(self).spec_event_manager().spec_events()
                == old(self).spec_event_manager().spec_events() + Self::events_of(
                old(self).spec_status(),
                WindowMessage::NCLBUTTONDOWN(area),
                pointer,
            ),
    {
        let ghost before = self.event_manager.spec_events();
        let mut response = Self::pass_on();
        match area {
            NonClientArea::BORDER(direction) => {
                self.status.update_state.set_sizing_direction(direction);
                self.status.update_state.cache_cursor_pos(pointer.cursor);
                response.use_default_protocol = false;
            },
            NonClientArea::CLOSE => {
                match self.status.close_mode {
                    CloseState::REQUIREAPPROVE => {
                        self.event_manager.push(Event::from(WindowEvent::WINDOWCLOSEBEGIN));
                        response.use_default_protocol = false;
                    },
                    _ => {
                        self.event_manager.push(Event::from(WindowEvent::WINDOWCLOSEFINAL));
                    },
                }
            },
            NonClientArea::MAXBUTTON => {
                self.status.maximized = !self.status.maximized;
                response.show_maximized = Some(self.status.maximized);
                self.event_manager.push(
                    Event::from(
                        if self.status.maximized {
                            WindowEvent::WINDOWMAXIMIZE
                        } else {
                            WindowEvent::WINDOWUNMAXIMIZE
                        },
                    ),
                );
            },
            NonClientArea::MINBUTTON => {
                self.event_manager.push(Event::from(WindowEvent::WINDOWMINIMIZE));
            },
            NonClientArea::OTHER => {},
        }
        assert(self.event_manager.spec_events() =~= before + Self::events_of(
            old(self).spec_status(),
            WindowMessage::NCLBUTTONDOWN(area),
            pointer,
        ));
        response
    }

    /// What the window knows once an update has begun while the window is
    /// focused or not.
    pub open spec fn after_begin(status: WindowStatus, window_is_focused: bool) -> WindowStatus {
        WindowStatus {
            modal_running: status.modal_running && status.timer_callback_running,
            focused: window_is_focused,
            update_state: UpdateState { cancel_draw: false, ..status.update_state },
            ..status
        }
    }

    /// Begins an update and says whether messages are to be handled in it.
    ///
    /// A window that has gained or lost the focus since the last update
    /// reports so as an event. Messages are handled unless the last update
    /// asked for a frame not to be shown; in that case this update shows a
    /// frame again and leaves the messages for the next.
    pub fn begin_update(&mut self, window_is_focused: bool) -> (handle_messages: bool)
        ensures
            handle_messages == !old(self).spec_status().update_state.cancel_draw,
            final(self).spec_status() == Self::after_begin(
                old(self).spec_status(),
                window_is_focused,
            ),
            final(self).spec_event_manager().spec_keymap() == old(self).spec_event_manager().spec_keymap(),
            final(self).spec_event_manager().spec_events()
                == if window_is_focused == old(self).spec_status().focused {
                old(self).spec_event_manager().spec_events()
            } else if window_is_focused {
                old(self).spec_event_manager().spec_events().push(
                    Event::WINDOWFOCUS(WindowEvent::WINDOWFOCUS),
                )
            } else {
                old(self).spec_event_manager().spec_events().push(
                    Event::WINDOWBLUR(WindowEvent::WINDOWBLUR),
                )
            },
            final(self).same_picture_as(old(self)),
    {
        if !self.status.timer_callback_running {
            self.status.modal_running = false;
        }
        if window_is_focused && !self.status.focused {
            self.status.focused = true;
            self.event_manager.push(Event::from(WindowEvent::WINDOWFOCUS));
        } else if !window_is_focused && self.status.focused {
            self.status.focused = false;
            self.event_manager.push(Event::from(WindowEvent::WINDOWBLUR));
        }
        if self.status.update_state.drawing_enabled() {
            true
        } else {
            self.status.update_state.enable_draw();
            false
        }
    }

    /// Whether the frame is to be shown, once the client area has been found
    /// to be `client_size` large and the window minimized or not.
    ///
    /// A minimized window shows nothing. A client area that has changed its
    /// size gets a new grid in the background colour, and neither this frame
    /// nor the next is shown. Otherwise the frame is shown unless showing
    /// was called off.
    pub fn draw_screen(&mut self, minimized: bool, client_size: (i32, i32)) -> (show: bool)
        requires
            client_size.0 * client_size.1 <= usize::MAX,
        ensures
            minimized ==> !show && *final(self) == *old(self),
            !minimized && Self::granted(client_size.0, client_size.1) == old(self).spec_client_size()
                ==> show == !old(self).spec_status().update_state.cancel_draw
                && *final(self) == *old(self),
            !minimized && Self::granted(client_size.0, client_size.1) != old(self).spec_client_size() ==> {
                &&& !show
                &&& final(self).spec_client_size() == Self::granted(client_size.0, client_size.1)
                &&& final(self)@.len() == final(self).spec_client_size().0 * final(self).spec_client_size().1
                &&& forall|i: int|
                    0 <= i < final(self)@.len()
                        ==> final(self)@[i] == old(self).spec_background_color().spec_to_u32()
                &&& final(self).spec_status() == (WindowStatus {
                    update_state: UpdateState {
                        cancel_draw: true,
                        ..old(self).spec_status().update_state
                    },
                    ..old(self).spec_status()
                })
                &&& final(self).spec_background_color() == old(self).spec_background_color()
                &&& final(self).spec_is_running() == old(self).spec_is_running()
                &&& final(self).spec_shows_frame_rate() == old(self).spec_shows_frame_rate()
                &&& final(self).spec_event_manager() == old(self).spec_event_manager()
            },
    {
        if minimized {
            return false;
        }
        let (width, height) = self.get_client_size();
        let wanted_width: i32 = if client_size.0 < 0 {
            0
        } else {
            client_size.0
        };
        let wanted_height: i32 = if client_size.1 < 0 {
            0
        } else {
            client_size.1
        };
        if wanted_width != width || wanted_height != height {
            self.resize(client_size.0, client_size.1);
            self.status.update_state.cancel_draw();
        }
        self.status.update_state.drawing_enabled()
    }

    /// Counts a frame that was shown and, once a second has passed since
    /// counting began, says how many frames there were in it.
    ///
    /// Frames are counted while the frame rate is shown, and until the end
    /// of the second in which it was hidden.
    pub fn count_frame(&mut self, second_elapsed: bool) -> (frames: Option<i32>)
        ensures
            final(self).same_picture_as(old(self)),
            final(self).spec_event_manager() == old(self).spec_event_manager(),
            !(old(self).spec_shows_frame_rate() || old(self).spec_status().counting_frames)
                ==> frames is None && final(self).spec_status() == old(self).spec_status(),
            (old(self).spec_shows_frame_rate() || old(self).spec_status().counting_frames)
                && !second_elapsed ==> frames is None && final(self).spec_status()
                == (WindowStatus {
                counting_frames: true,
                frame_count: old(self).spec_status().frame_count.wrapping_add(1),
                ..old(self).spec_status()
            }),
            (old(self).spec_shows_frame_rate() || old(self).spec_status().counting_frames)
                && second_elapsed ==> frames == Some(
                old(self).spec_status().frame_count.wrapping_add(1),
            ) && final(self).spec_status() == (WindowStatus {
                counting_frames: old(self).spec_shows_frame_rate(),
                frame_count: 0,
                ..old(self).spec_status()
            }),
    {
        if self.show_frame_rate || self.status.counting_frames {
            self.status.counting_frames = true;
            self.status.frame_count = self.status.frame_count.wrapping_add(1);
            if second_elapsed {
                let frames = self.status.frame_count;
                self.status.frame_count = 0;
                self.status.counting_frames = self.show_frame_rate;
                return Some(frames);
            }
        }
        None
    }
}

} // verus!
