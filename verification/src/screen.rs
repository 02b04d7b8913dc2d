//! The settings of a screen, and the kinds of input it reports.

use vstd::prelude::*;

use crate::drawing::DrawMode;

verus! {

/// Whether a mouse button came up or went down.
#[derive(Copy, Clone, Debug, PartialEq, Eq, Structural)]
pub enum MouseInputType {
    MOUSEUP,
    MOUSEDOWN,
}

/// Whether a key came up, went down, or is held.
#[derive(Copy, Clone, Debug, PartialEq, Eq, Structural)]
pub enum KeyboardEventType {
    KEYUP,
    KEYDOWN,
    KEYHELD,
}

impl KeyboardEventType {
    /// The kind of keyboard event that a key reports which went down
    /// (`down`) or came up, as a repeat or not: a repeat is reported as the
    /// movement itself, anything else as a key that is held.
    pub fn of_key(down: bool, repeat: bool) -> (kind: KeyboardEventType)
        ensures
            kind == if !repeat {
                KeyboardEventType::KEYHELD
            } else if down {
                KeyboardEventType::KEYDOWN
            } else {
                KeyboardEventType::KEYUP
            },
    {
        if repeat {
            if down {
                KeyboardEventType::KEYDOWN
            } else {
                KeyboardEventType::KEYUP
            }
        } else {
            KeyboardEventType::KEYHELD
        }
    }
}

/// The number of milliseconds in a second.
pub const MILLIS_PER_SECOND: u64 = 1000;

/// The number of milliseconds between two frames at `rate` frames per
/// second.
pub fn frame_delay_millis(rate: u64) -> (delay: u64)
    requires
        rate != 0,
    ensures
        delay == MILLIS_PER_SECOND / rate,
{
    MILLIS_PER_SECOND / rate
}

/// The width and the height of a screen unless told otherwise.
pub const DEFAULT_SCREEN_SIZE: u32 = 512;

/// The number of frames per second unless told otherwise.
pub const DEFAULT_REFRESH_RATE: u16 = 60;

/// Collects the settings of a screen before it is opened.
#[derive(Copy, Clone, Debug)]
pub struct ScreenBuilder {
    pub width: u32,
    pub height: u32,
    pub mode: DrawMode,
    pub title: &'static str,
    pub refresh_rate: u16,
}

impl ScreenBuilder {
    /// A square screen that draws on a canvas.
    pub fn new() -> (builder: Self)
        ensures
            builder.title@ == "Simulation Engine"@,
            builder == (ScreenBuilder {
                width: DEFAULT_SCREEN_SIZE,
                height: DEFAULT_SCREEN_SIZE,
                mode: DrawMode::CANVAS,
                title: builder.title,
                refresh_rate: DEFAULT_REFRESH_RATE,
            }),
    {
        Self {
            width: DEFAULT_SCREEN_SIZE,
            height: DEFAULT_SCREEN_SIZE,
            mode: DrawMode::CANVAS,
            title: "Simulation Engine",
            refresh_rate: DEFAULT_REFRESH_RATE,
        }
    }

    pub fn set_size(&mut self, width: u32, height: u32) -> (same: &mut Self)
        ensures
            *same == (ScreenBuilder { width, height, ..*old(self) }),
            *final(self) == *final(same),
    {
        self.width = width;
        self.height = height;
        self
    }

    pub fn set_title(&mut self, title: &'static str) -> (same: &mut Self)
        ensures
            *same == (ScreenBuilder { title, ..*old(self) }),
            *final(self) == *final(same),
    {
        self.title = title;
        self
    }

    pub fn set_refresh_rate(&mut self, rate: u16) -> (same: &mut Self)
        ensures
            *same == (ScreenBuilder { refresh_rate: rate, ..*old(self) }),
            *final(self) == *final(same),
    {
        self.refresh_rate = rate;
        self
    }

    pub fn use_pixel_buffer(&mut self) -> (same: &mut Self)
        ensures
            *same == (ScreenBuilder { mode: DrawMode::PIXELBUFFER, ..*old(self) }),
            *final(self) == *final(same),
    {
        self.mode = DrawMode::PIXELBUFFER;
        self
    }

    pub fn use_canvas_drawer(&mut self) -> (same: &mut Self)
        ensures
            *same == (ScreenBuilder { mode: DrawMode::CANVAS, ..*old(self) }),
            *final(self) == *final(same),
    {
        self.mode = DrawMode::CANVAS;
        self
    }
}

} // verus!
