//! The settings a window is opened with.

use vstd::prelude::*;

use crate::color::{Color, ColorMode};
use crate::event::Event;
use crate::window::{CloseState, Window, WindowStatus, NO_LIMIT};

verus! {

/// The position or extent that leaves the choice to the system.
pub const USE_DEFAULT: i32 = i32::MIN;

/// Whether the pair `a` comes before the pair `b`: by the first component,
/// and by the second where the first are equal.
pub open spec fn pair_below(a: (i32, i32), b: (i32, i32)) -> bool {
    a.0 < b.0 || (a.0 == b.0 && a.1 < b.1)
}

/// The lower limit on the size of a window once `wanted` has been asked for
/// while the limits were `minimum` and `maximum`.
///
/// A lower limit that is below the upper limit as a pair is taken whole.
/// Otherwise, and only while the upper limit leaves an extent open, each
/// extent is taken on its own where the upper limit is open or above it.
pub open spec fn lowered(minimum: (i32, i32), maximum: (i32, i32), wanted: (i32, i32)) -> (
    i32,
    i32,
) {
    if pair_below(wanted, maximum) {
        wanted
    } else if maximum.0 == NO_LIMIT || maximum.1 == NO_LIMIT {
        (
            if maximum.0 == NO_LIMIT || maximum.0 > wanted.0 {
                wanted.0
            } else {
                minimum.0
            },
            if maximum.1 == NO_LIMIT || maximum.1 > wanted.1 {
                wanted.1
            } else {
                minimum.1
            },
        )
    } else {
        minimum
    }
}

/// The upper limit on the size of a window once `wanted` has been asked for
/// while the limits were `minimum` and `maximum`: as `lowered`, the other
/// way round.
pub open spec fn raised(minimum: (i32, i32), maximum: (i32, i32), wanted: (i32, i32)) -> (
    i32,
    i32,
) {
    if pair_below(minimum, wanted) {
        wanted
    } else if minimum.0 == NO_LIMIT || minimum.1 == NO_LIMIT {
        (
            if minimum.0 == NO_LIMIT || minimum.0 < wanted.0 {
                wanted.0
            } else {
                maximum.0
            },
            if minimum.1 == NO_LIMIT || minimum.1 < wanted.1 {
                wanted.1
            } else {
                maximum.1
            },
        )
    } else {
        maximum
    }
}

/// Collects the settings of a window before it is opened.
#[derive(Debug)]
pub struct WindowBuilder {
    pub title: String,
    pub x: i32,
    pub y: i32,
    pub width: i32,
    pub height: i32,
    pub background_color: Color,
    pub show_frame_rate: bool,
    pub min_size: (i32, i32),
    pub max_size: (i32, i32),
    pub start_maximized: bool,
    pub allow_resize: bool,
    pub allow_maximize: bool,
    pub close_approval: bool,
}

impl WindowBuilder {
    /// A white window that the system places and sizes, without limits on
    /// its size, that may be resized and maximized and closes when asked to.
    pub fn new() -> (builder: Self)
        ensures
            builder.title@ == "New Window"@,
            builder == (WindowBuilder {
                title: builder.title,
                x: USE_DEFAULT,
                y: USE_DEFAULT,
                width: USE_DEFAULT,
                height: USE_DEFAULT,
                background_color: Color { r: 0xff, g: 0xff, b: 0xff, a: 0xff, mode: ColorMode::RGB },
                show_frame_rate: false,
                min_size: (NO_LIMIT, NO_LIMIT),
                max_size: (NO_LIMIT, NO_LIMIT),
                start_maximized: false,
                allow_resize: true,
                allow_maximize: true,
                close_approval: false,
            }),
    {
        Self {
            title: "New Window".to_owned(),
            x: USE_DEFAULT,
            y: USE_DEFAULT,
            width: USE_DEFAULT,
            height: USE_DEFAULT,
            background_color: Color::white(),
            show_frame_rate: false,
            min_size: (NO_LIMIT, NO_LIMIT),
            max_size: (NO_LIMIT, NO_LIMIT),
            start_maximized: false,
            allow_resize: true,
            allow_maximize: true,
            close_approval: false,
        }
    }

    pub fn set_title(self, title: &str) -> (builder: Self)
        ensures
            builder.title@ == title@,
            builder == (WindowBuilder { title: builder.title, ..self }),
    {
        let mut builder = self;
        builder.ref_set_title(title);
        builder
    }

    pub fn ref_set_title(&mut self, title: &str) -> (same: &mut Self)
        ensures
            same.title@ == title@,
            *same == (WindowBuilder { title: same.title, ..*old(self) }),
            *final(self) == *final(same),
    {
        self.title = title.to_owned();
        self
    }

    /// Asks for a lower limit on the size of the window.
    pub fn set_min_size(self, width: i32, height: i32) -> (builder: Self)
        ensures
            builder == (WindowBuilder {
                min_size: lowered(self.min_size, self.max_size, (width, height)),
                ..self
            }),
    {
        let mut builder = self;
        builder.ref_set_min_size(width, height);
        builder
    }

    /// Asks for a lower limit on the size of the window.
    pub fn ref_set_min_size(&mut self, width: i32, height: i32) -> (same: &mut Self)
        ensures
            *same == (WindowBuilder {
                min_size: lowered(old(self).min_size, old(self).max_size, (width, height)),
                ..*old(self)
            }),
            *final(self) == *final(same),
    {
        if width < self.max_size.0 || (width == self.max_size.0 && height < self.max_size.1) {
            self.min_size = (width, height);
        } else if self.max_size.0 == NO_LIMIT || self.max_size.1 == NO_LIMIT {
            if self.max_size.0 == NO_LIMIT || self.max_size.0 > width {
                self.min_size = (width, self.min_size.1);
            }
            if self.max_size.1 == NO_LIMIT || self.max_size.1 > height {
                self.min_size = (self.min_size.0, height);
            }
        }
        self
    }

    /// Asks for an upper limit on the size of the window.
    pub fn set_max_size(self, width: i32, height: i32) -> (builder: Self)
        ensures
            builder == (WindowBuilder {
                max_size: raised(self.min_size, self.max_size, (width, height)),
                ..self
            }),
    {
        let mut builder = self;
        builder.ref_set_max_size(width, height);
        builder
    }

    /// Asks for an upper limit on the size of the window.
    pub fn ref_set_max_size(&mut self, width: i32, height: i32) -> (same: &mut Self)
        ensures
            *same == (WindowBuilder {
                max_size: raised(old(self).min_size, old(self).max_size, (width, height)),
                ..*old(self)
            }),
            *final(self) == *final(same),
    {
        if self.min_size.0 < width || (self.min_size.0 == width && self.min_size.1 < height) {
            self.max_size = (width, height);
        } else if self.min_size.0 == NO_LIMIT || self.min_size.1 == NO_LIMIT {
            if self.min_size.0 == NO_LIMIT || self.min_size.0 < width {
                self.max_size = (width, self.max_size.1);
            }
            if self.min_size.1 == NO_LIMIT || self.min_size.1 < height {
                self.max_size = (self.max_size.0, height);
            }
        }
        self
    }

    pub fn set_x(self, x: i32) -> (builder: Self)
        ensures
            builder == (WindowBuilder { x: x, ..self }),
    {
        let mut builder = self;
        builder.ref_set_x(x);
        builder
    }

    pub fn ref_set_x(&mut self, x: i32) -> (same: &mut Self)
        ensures
            *same == (WindowBuilder { x: x, ..*old(self) }),
            *final(self) == *final(same),
    {
        self.x = x;
        self
    }

    pub fn set_y(self, y: i32) -> (builder: Self)
        ensures
            builder == (WindowBuilder { y: y, ..self }),
    {
        let mut builder = self;
        builder.ref_set_y(y);
        builder
    }

    pub fn ref_set_y(&mut self, y: i32) -> (same: &mut Self)
        ensures
            *same == (WindowBuilder { y: y, ..*old(self) }),
            *final(self) == *final(same),
    {
        self.y = y;
        self
    }

    pub fn set_position(self, x: i32, y: i32) -> (builder: Self)
        ensures
            builder == (WindowBuilder { x: x, y: y, ..self }),
    {
        let mut builder = self;
        builder.ref_set_position(x, y);
        builder
    }

    pub fn ref_set_position(&mut self, x: i32, y: i32) -> (same: &mut Self)
        ensures
            *same == (WindowBuilder { x: x, y: y, ..*old(self) }),
            *final(self) == *final(same),
    {
        self.ref_set_x(x);
        self.ref_set_y(y);
        self
    }

    pub fn set_width(self, width: i32) -> (builder: Self)
        ensures
            builder == (WindowBuilder { width: width, ..self }),
    {
        let mut builder = self;
        builder.ref_set_width(width);
        builder
    }

    pub fn ref_set_width(&mut self, width: i32) -> (same: &mut Self)
        ensures
            *same == (WindowBuilder { width: width, ..*old(self) }),
            *final(self) == *final(same),
    {
        self.width = width;
        self
    }

    pub fn set_height(self, height: i32) -> (builder: Self)
        ensures
            builder == (WindowBuilder { height: height, ..self }),
    {
        let mut builder = self;
        builder.ref_set_height(height);
        builder
    }

    pub fn ref_set_height(&mut self, height: i32) -> (same: &mut Self)
        ensures
            *same == (WindowBuilder { height: height, ..*old(self) }),
            *final(self) == *final(same),
    {
        self.height = height;
        self
    }

    pub fn set_size(self, width: i32, height: i32) -> (builder: Self)
        ensures
            builder == (WindowBuilder { width: width, height: height, ..self }),
    {
        let mut builder = self;
        builder.ref_set_size(width, height);
        builder
    }

    pub fn ref_set_size(&mut self, width: i32, height: i32) -> (same: &mut Self)
        ensures
            *same == (WindowBuilder { width: width, height: height, ..*old(self) }),
            *final(self) == *final(same),
    {
        self.ref_set_width(width);
        self.ref_set_height(height);
        self
    }

    pub fn set_background_color(self, color: Color) -> (builder: Self)
        ensures
            builder == (WindowBuilder { background_color: color, ..self }),
    {
        let mut builder = self;
        builder.ref_set_background_color(color);
        builder
    }

    pub fn ref_set_background_color(&mut self, color: Color) -> (same: &mut Self)
        ensures
            *same == (WindowBuilder { background_color: color, ..*old(self) }),
            *final(self) == *final(same),
    {
        self.background_color = color;
        self
    }

    pub fn show_frame_rate(self) -> (builder: Self)
        ensures
            builder == (WindowBuilder { show_frame_rate: true, ..self }),
    {
        let mut builder = self;
        builder.ref_show_frame_rate();
        builder
    }

    pub fn ref_show_frame_rate(&mut self) -> (same: &mut Self)
        ensures
            *same == (WindowBuilder { show_frame_rate: true, ..*old(self) }),
            *final(self) == *final(same),
    {
        self.show_frame_rate = true;
        self
    }

    pub fn hide_frame_rate(self) -> (builder: Self)
        ensures
            builder == (WindowBuilder { show_frame_rate: false, ..self }),
    {
        let mut builder = self;
        builder.ref_hide_frame_rate();
        builder
    }

    pub fn ref_hide_frame_rate(&mut self) -> (same: &mut Self)
        ensures
            *same == (WindowBuilder { show_frame_rate: false, ..*old(self) }),
            *final(self) == *final(same),
    {
        self.show_frame_rate = false;
        self
    }

    pub fn set_allow_resize(self, allow: bool) -> (builder: Self)
        ensures
            builder == (WindowBuilder { allow_resize: allow, ..self }),
    {
        let mut builder = self;
        builder.ref_set_allow_resize(allow);
        builder
    }

    pub fn ref_set_allow_resize(&mut self, allow: bool) -> (same: &mut Self)
        ensures
            *same == (WindowBuilder { allow_resize: allow, ..*old(self) }),
            *final(self) == *final(same),
    {
        self.allow_resize = allow;
        self
    }

    pub fn allow_resize(self) -> (builder: Self)
        ensures
            builder == (WindowBuilder { allow_resize: true, ..self }),
    {
        let mut builder = self;
        builder.ref_allow_resize();
        builder
    }

    pub fn ref_allow_resize(&mut self) -> (same: &mut Self)
        ensures
            *same == (WindowBuilder { allow_resize: true, ..*old(self) }),
            *final(self) == *final(same),
    {
        self.ref_set_allow_resize(true);
        self
    }

    pub fn disable_resize(self) -> (builder: Self)
        ensures
            builder == (WindowBuilder { allow_resize: false, ..self }),
    {
        let mut builder = self;
        builder.ref_disable_resize();
        builder
    }

    pub fn ref_disable_resize(&mut self) -> (same: &mut Self)
        ensures
            *same == (WindowBuilder { allow_resize: false, ..*old(self) }),
            *final(self) == *final(same),
    {
        self.ref_set_allow_resize(false);
        self
    }

    /// Lets the window close as soon as it is asked to.
    pub fn normal_close_mode(self) -> (builder: Self)
        ensures
            builder == (WindowBuilder { close_approval: false, ..self }),
    {
        let mut builder = self;
        builder.ref_normal_close_mode();
        builder
    }

    /// Lets the window close as soon as it is asked to.
    pub fn ref_normal_close_mode(&mut self) -> (same: &mut Self)
        ensures
            *same == (WindowBuilder { close_approval: false, ..*old(self) }),
            *final(self) == *final(same),
    {
        self.close_approval = false;
        self
    }

    /// Makes the window ask before it closes.
    pub fn approve_close_mode(self) -> (builder: Self)
        ensures
            builder == (WindowBuilder { close_approval: true, ..self }),
    {
        let mut builder = self;
        builder.ref_approve_close_mode();
        builder
    }

    /// Makes the window ask before it closes.
    pub fn ref_approve_close_mode(&mut self) -> (same: &mut Self)
        ensures
            *same == (WindowBuilder { close_approval: true, ..*old(self) }),
            *final(self) == *final(same),
    {
        self.close_approval = true;
        self
    }

    pub fn set_close_mode(self, approve: bool) -> (builder: Self)
        ensures
            builder == (WindowBuilder { close_approval: approve, ..self }),
    {
        let mut builder = self;
        builder.ref_set_close_mode(approve);
        builder
    }

    pub fn ref_set_close_mode(&mut self, approve: bool) -> (same: &mut Self)
        ensures
            *same == (WindowBuilder { close_approval: approve, ..*old(self) }),
            *final(self) == *final(same),
    {
        self.close_approval = approve;
        self
    }

    /// Opens the window maximized or not. A window that may not be maximized opens
    /// as it is.
    pub fn set_start_maximized(self, start_maximized: bool) -> (builder: Self)
        ensures
            builder == (WindowBuilder { start_maximized: self.allow_maximize && start_maximized, ..self }),
    {
        let mut builder = self;
        builder.ref_set_start_maximized(start_maximized);
        builder
    }

    /// Opens the window maximized or not. A window that may not be maximized opens
    /// as it is.
    pub fn ref_set_start_maximized(&mut self, start_maximized: bool) -> (same: &mut Self)
        ensures
            *same
                == (WindowBuilder { start_maximized: old(self).allow_maximize
                    && start_maximized, ..*old(self) }),
            *final(self) == *final(same),
    {
        if self.allow_maximize {
            self.start_maximized = start_maximized;
        } else {
            self.start_maximized = false;
        }
        self
    }

    /// Opens the window maximized, if it may be maximized.
    pub fn start_maximized(self) -> (builder: Self)
        ensures
            builder == (WindowBuilder { start_maximized: self.allow_maximize, ..self }),
    {
        let mut builder = self;
        builder.ref_start_maximixed();
        builder
    }

    /// Opens the window maximized, if it may be maximized.
    pub fn ref_start_maximixed(&mut self) -> (same: &mut Self)
        ensures
            *same == (WindowBuilder { start_maximized: old(self).allow_maximize, ..*old(self) }),
            *final(self) == *final(same),
    {
        self.ref_set_start_maximized(true);
        self
    }

    pub fn start_unmaximixed(self) -> (builder: Self)
        ensures
            builder == (WindowBuilder { start_maximized: false, ..self }),
    {
        let mut builder = self;
        builder.ref_start_unmaximized();
        builder
    }

    pub fn ref_start_unmaximized(&mut self) -> (same: &mut Self)
        ensures
            *same == (WindowBuilder { start_maximized: false, ..*old(self) }),
            *final(self) == *final(same),
    {
        self.ref_set_start_maximized(false);
        self
    }

    /// Lets the window be maximized or not. A window that may not be maximized
    /// does not open maximized either.
    pub fn set_allow_maximize(self, allow: bool) -> (builder: Self)
        ensures
            builder
                == (WindowBuilder { allow_maximize: allow, start_maximized: allow
                    && self.start_maximized, ..self }),
    {
        let mut builder = self;
        builder.ref_set_allow_maximize(allow);
        builder
    }

    /// Lets the window be maximized or not. A window that may not be maximized
    /// does not open maximized either.
    pub fn ref_set_allow_maximize(&mut self, allow: bool) -> (same: &mut Self)
        ensures
            *same
                == (WindowBuilder { allow_maximize: allow, start_maximized: allow
                    && old(self).start_maximized, ..*old(self) }),
            *final(self) == *final(same),
    {
        self.allow_maximize = allow;
        if !self.allow_maximize {
            self.start_maximized = false;
        }
        self
    }

    pub fn allow_maximize(self) -> (builder: Self)
        ensures
            builder == (WindowBuilder { allow_maximize: true, ..self }),
    {
        let mut builder = self;
        builder.ref_allow_maximize();
        builder
    }

    pub fn ref_allow_maximize(&mut self) -> (same: &mut Self)
        ensures
            *same == (WindowBuilder { allow_maximize: true, ..*old(self) }),
            *final(self) == *final(same),
    {
        self.ref_set_allow_maximize(true);
        self
    }

    pub fn disable_maximize(self) -> (builder: Self)
        ensures
            builder == (WindowBuilder { allow_maximize: false, start_maximized: false, ..self }),
    {
        let mut builder = self;
        builder.ref_disable_maximize();
        builder
    }

    pub fn ref_disable_maximize(&mut self) -> (same: &mut Self)
        ensures
            *same == (WindowBuilder { allow_maximize: false, start_maximized: false, ..*old(self) }),
            *final(self) == *final(same),
    {
        self.ref_set_allow_maximize(false);
        self
    }

    /// The lower limit on the size of the window that these settings give
    /// to a window whose title bar is `taskbar_height` high: a window is never
    /// lower than its title bar.
    pub open spec fn floor(&self, taskbar_height: i32) -> (i32, i32) {
        if self.min_size.1 < taskbar_height {
            (self.min_size.0, taskbar_height.wrapping_add(1))
        } else {
            self.min_size
        }
    }

    /// `window` is the window that these settings open with a client area of
    /// `client_size` under a title bar of `taskbar_height`.
    pub open spec fn is_built(
        &self,
        client_size: (i32, i32),
        taskbar_height: i32,
        window: &Window,
    ) -> bool {
        &&& window.spec_client_size() == Window::granted(client_size.0, client_size.1)
        &&& window@.len() == window.spec_client_size().0 * window.spec_client_size().1
        &&& forall|i: int|
            0 <= i < window@.len() ==> window@[i] == self.background_color.spec_to_u32()
        &&& window.spec_background_color() == self.background_color
        &&& window.spec_is_running()
        &&& window.spec_shows_frame_rate() == self.show_frame_rate
        &&& window.spec_event_manager().spec_events() == Seq::<Event>::empty()
        &&& window.spec_event_manager().spec_keymap() == Map::<usize, u16>::empty()
        &&& window.spec_status() == (WindowStatus {
            minimum_size: self.floor(taskbar_height),
            maximum_size: self.max_size,
            maximized: self.start_maximized,
            close_mode: if self.close_approval {
                CloseState::REQUIREAPPROVE
            } else {
                CloseState::NORMAL
            },
            ..Window::initial_status()
        })
    }

    /// Opens the window, once the system has made room for a client area of
    /// `client_size` under a title bar of `taskbar_height`.
    pub fn build(self, client_size: (i32, i32), taskbar_height: i32) -> (window: Window)
        requires
            client_size.0 * client_size.1 <= usize::MAX,
        ensures
            self.is_built(client_size, taskbar_height, &window),
    {
        self.ref_build(client_size, taskbar_height)
    }

    /// Opens the window and keeps the settings.
    pub fn ref_build(&self, client_size: (i32, i32), taskbar_height: i32) -> (window: Window)
        requires
            client_size.0 * client_size.1 <= usize::MAX,
        ensures
            self.is_built(client_size, taskbar_height, &window),
    {
        let mut window = Window::new(client_size.0, client_size.1, self.background_color);
        let minimum_size = if self.min_size.1 < taskbar_height {
            (self.min_size.0, taskbar_height.wrapping_add(1))
        } else {
            self.min_size
        };
        window.configure(
            minimum_size,
            self.max_size,
            self.start_maximized,
            if self.close_approval {
                CloseState::REQUIREAPPROVE
            } else {
                CloseState::NORMAL
            },
        );
        window.set_frame_rate_display(self.show_frame_rate);
        window
    }
}

} // verus!
