//! Colours of eight bits per channel, and their packing into pixels.

use vstd::prelude::*;

verus! {

/// The order in which the three colour channels are packed into a pixel.
#[derive(Copy, Clone, Debug, PartialEq, Eq, Structural)]
pub enum ColorMode {
    RGB,
    BGR,
}

/// A colour with an alpha channel.
#[derive(Copy, Clone, Debug, PartialEq, Eq, Structural)]
pub struct Color {
    pub r: u8,
    pub g: u8,
    pub b: u8,
    pub a: u8,
    pub mode: ColorMode,
}

/// The pixel that packs `high`, `middle` and `low`, eight bits each, from the
/// most significant channel down.
pub open spec fn packed(high: u8, middle: u8, low: u8) -> u32 {
    (high as u32 * 0x1_0000 + middle as u32 * 0x100 + low as u32) as u32
}

impl Color {
    pub fn black() -> (color: Color)
        ensures
            color == (Color { r: 0, g: 0, b: 0, a: 0xff, mode: ColorMode::RGB }),
    {
        Color { r: 0, g: 0, b: 0, a: 0xff, mode: ColorMode::RGB }
    }

    pub fn white() -> (color: Color)
        ensures
            color == (Color { r: 0xff, g: 0xff, b: 0xff, a: 0xff, mode: ColorMode::RGB }),
    {
        Color { r: 0xff, g: 0xff, b: 0xff, a: 0xff, mode: ColorMode::RGB }
    }

    pub fn red() -> (color: Color)
        ensures
            color == (Color { r: 0xff, g: 0, b: 0, a: 0xff, mode: ColorMode::RGB }),
    {
        Color { r: 0xff, g: 0, b: 0, a: 0xff, mode: ColorMode::RGB }
    }

    pub fn green() -> (color: Color)
        ensures
            color == (Color { r: 0, g: 0xff, b: 0, a: 0xff, mode: ColorMode::RGB }),
    {
        Color { r: 0, g: 0xff, b: 0, a: 0xff, mode: ColorMode::RGB }
    }

    pub fn blue() -> (color: Color)
        ensures
            color == (Color { r: 0, g: 0, b: 0xff, a: 0xff, mode: ColorMode::RGB }),
    {
        Color { r: 0, g: 0, b: 0xff, a: 0xff, mode: ColorMode::RGB }
    }

    pub fn orange() -> (color: Color)
        ensures
            color == (Color { r: 0xff, g: 0xa5, b: 0, a: 0xff, mode: ColorMode::RGB }),
    {
        Color { r: 0xff, g: 0xa5, b: 0, a: 0xff, mode: ColorMode::RGB }
    }

    pub fn pink() -> (color: Color)
        ensures
            color == (Color { r: 0xff, g: 0xc0, b: 0xcb, a: 0xff, mode: ColorMode::RGB }),
    {
        Color { r: 0xff, g: 0xc0, b: 0xcb, a: 0xff, mode: ColorMode::RGB }
    }

    pub fn cyan() -> (color: Color)
        ensures
            color == (Color { r: 0, g: 0xff, b: 0xff, a: 0xff, mode: ColorMode::RGB }),
    {
        Color { r: 0, g: 0xff, b: 0xff, a: 0xff, mode: ColorMode::RGB }
    }

    pub fn purple() -> (color: Color)
        ensures
            color == (Color { r: 0x80, g: 0, b: 0x80, a: 0xff, mode: ColorMode::RGB }),
    {
        Color { r: 0x80, g: 0, b: 0x80, a: 0xff, mode: ColorMode::RGB }
    }

    pub fn grey() -> (color: Color)
        ensures
            color == (Color { r: 0x80, g: 0x80, b: 0x80, a: 0xff, mode: ColorMode::RGB }),
    {
        Color { r: 0x80, g: 0x80, b: 0x80, a: 0xff, mode: ColorMode::RGB }
    }

    pub fn gray() -> (color: Color)
        ensures
            color == (Color { r: 0x80, g: 0x80, b: 0x80, a: 0xff, mode: ColorMode::RGB }),
    {
        Color { r: 0x80, g: 0x80, b: 0x80, a: 0xff, mode: ColorMode::RGB }
    }

    pub fn transparent() -> (color: Color)
        ensures
            color == (Color { r: 0, g: 0, b: 0, a: 0, mode: ColorMode::RGB }),
    {
        Color { r: 0, g: 0, b: 0, a: 0, mode: ColorMode::RGB }
    }

    /// An opaque colour.
    pub fn rgb(r: u8, g: u8, b: u8) -> (color: Color)
        ensures
            color == (Color { r, g, b, a: 0xff, mode: ColorMode::RGB }),
    {
        Color::rgba(r, g, b, 0xff)
    }

    pub fn rgba(r: u8, g: u8, b: u8, a: u8) -> (color: Color)
        ensures
            color == (Color { r, g, b, a, mode: ColorMode::RGB }),
    {
        Color { r, g, b, a, mode: ColorMode::RGB }
    }

    pub fn argb(a: u8, r: u8, g: u8, b: u8) -> (color: Color)
        ensures
            color == (Color { r, g, b, a, mode: ColorMode::RGB }),
    {
        Color::rgba(r, g, b, a)
    }

    pub fn bgr(b: u8, g: u8, r: u8) -> (color: Color)
        ensures
            color == (Color { r, g, b, a: 0xff, mode: ColorMode::RGB }),
    {
        Color::rgb(r, g, b)
    }

    pub fn abgr(a: u8, b: u8, g: u8, r: u8) -> (color: Color)
        ensures
            color == (Color { r, g, b, a, mode: ColorMode::RGB }),
    {
        Color::rgba(r, g, b, a)
    }

    /// Packs red first from now on.
    pub fn as_rgb(&mut self) -> (same: &mut Self)
        ensures
            *same == (Color { mode: ColorMode::RGB, ..*old(self) }),
            *final(self) == *final(same),
    {
        self.mode = ColorMode::RGB;
        self
    }

    /// Packs blue first from now on.
    pub fn as_bgr(&mut self) -> (same: &mut Self)
        ensures
            *same == (Color { mode: ColorMode::BGR, ..*old(self) }),
            *final(self) == *final(same),
    {
        self.mode = ColorMode::BGR;
        self
    }

    /// The same colour, packed red first.
    pub fn to_rgb(self) -> (color: Color)
        ensures
            color == (Color { mode: ColorMode::RGB, ..self }),
    {
        Color { r: self.r, g: self.g, b: self.b, a: self.a, mode: ColorMode::RGB }
    }

    /// The same colour, packed blue first.
    pub fn to_bgr(self) -> (color: Color)
        ensures
            color == (Color { mode: ColorMode::BGR, ..self }),
    {
        Color { r: self.r, g: self.g, b: self.b, a: self.a, mode: ColorMode::BGR }
    }

    /// Every channel at full intensity, packed as `self` is.
    pub open spec fn saturated(self) -> Color {
        Color { r: 0xff, g: 0xff, b: 0xff, a: 0xff, mode: self.mode }
    }

    /// The channel value that a merged channel is raised to: whatever
    /// `value` is, the lowest value that is neither below the smaller of
    /// `value` and 0 nor below 0xff.
    fn bound_color_value(value: u8) -> (bounded: u8)
        ensures
            bounded == 0xff,
    {
        let floor: u8 = if value <= 0 {
            value
        } else {
            0
        };
        if floor >= 0xff {
            floor
        } else {
            0xff
        }
    }

    /// Combines the two colours channel by channel with `op` and bounds each
    /// result.
    fn merge<F: Fn(u8, u8) -> u8>(&self, other: Self, op: F) -> (color: Self)
        requires
            forall|a: u8, b: u8| op.requires((a, b)),
        ensures
            color == self.saturated(),
    {
        Self {
            r: Color::bound_color_value(op(self.r, other.r)),
            g: Color::bound_color_value(op(self.g, other.g)),
            b: Color::bound_color_value(op(self.b, other.b)),
            a: Color::bound_color_value(op(self.a, other.a)),
            mode: self.mode,
        }
    }

    /// Additive blending. The channels are averaged, wrapping around at 256,
    /// and then bounded, which leaves every channel at full intensity.
    pub fn blend_add(&self, other: Self) -> (color: Self)
        ensures
            color == self.saturated(),
    {
        self.merge(other, |a: u8, b: u8| -> (r: u8) { a.wrapping_add(b) / 2 })
    }

    /// Subtractive blending. The channels' differences are halved, wrapping
    /// around at 256, and then bounded, which leaves every channel at full
    /// intensity.
    pub fn blend_sub(&self, other: Self) -> (color: Self)
        ensures
            color == self.saturated(),
    {
        self.merge(other, |a: u8, b: u8| -> (r: u8) { a.wrapping_sub(b) / 2 })
    }

    /// The pixel of this colour: the three colour channels in the order of
    /// its mode, without the alpha channel.
    pub open spec fn spec_to_u32(self) -> u32 {
        match self.mode {
            ColorMode::RGB => packed(self.r, self.g, self.b),
            ColorMode::BGR => packed(self.b, self.g, self.r),
        }
    }

    /// The pixel of this colour.
    pub fn to_u32(self) -> (pixel: u32)
        ensures
            pixel == self.spec_to_u32(),
    {
        match self.mode {
            ColorMode::RGB => pack(self.r, self.g, self.b),
            ColorMode::BGR => pack(self.b, self.g, self.r),
        }
    }
}

impl From<Color> for u32 {
    /// The pixel of the colour.
    fn from(color: Color) -> (pixel: u32) {
        color.to_u32()
    }
}

impl vstd::std_specs::convert::FromSpecImpl<Color> for u32 {
    open spec fn obeys_from_spec() -> bool {
        true
    }

    open spec fn from_spec(color: Color) -> u32 {
        color.spec_to_u32()
    }
}

impl core::ops::Add for Color {
    type Output = Color;

    /// Additive colouring: the channels are added, wrapping around at 256,
    /// and then bounded.
    fn add(self, other: Color) -> (color: Color) {
        self.merge(other, |a: u8, b: u8| -> (r: u8) { a.wrapping_add(b) })
    }
}

impl vstd::std_specs::ops::AddSpecImpl for Color {
    open spec fn obeys_add_spec() -> bool {
        true
    }

    open spec fn add_req(self, other: Color) -> bool {
        true
    }

    open spec fn add_spec(self, other: Color) -> Color {
        self.saturated()
    }
}

impl core::ops::Sub for Color {
    type Output = Color;

    /// Subtractive colouring: the channels are subtracted, wrapping around
    /// at 256, and then bounded.
    fn sub(self, other: Color) -> (color: Color) {
        self.merge(other, |a: u8, b: u8| -> (r: u8) { a.wrapping_sub(b) })
    }
}

impl vstd::std_specs::ops::SubSpecImpl for Color {
    open spec fn obeys_sub_spec() -> bool {
        true
    }

    open spec fn sub_req(self, other: Color) -> bool {
        true
    }

    open spec fn sub_spec(self, other: Color) -> Color {
        self.saturated()
    }
}

impl Default for Color {
    /// Transparent black.
    fn default() -> (color: Color)
        ensures
            color == (Color { r: 0, g: 0, b: 0, a: 0, mode: ColorMode::RGB }),
    {
        Color { r: 0, g: 0, b: 0, a: 0, mode: ColorMode::RGB }
    }
}

/// A coloured point of the window.
#[derive(Copy, Clone, Debug, PartialEq, Eq, Structural)]
pub struct Pixel {
    pub color: Color,
    pub x: i32,
    pub y: i32,
}

impl Default for Pixel {
    /// The transparent black pixel at the top left.
    fn default() -> (pixel: Pixel)
        ensures
            pixel == (Pixel { color: Color { r: 0, g: 0, b: 0, a: 0, mode: ColorMode::RGB }, x: 0, y: 0 }),
    {
        Pixel { color: Color::default(), x: 0, y: 0 }
    }
}

/// Packs three channels into a pixel, `high` in bits 16 to 23.
fn pack(high: u8, middle: u8, low: u8) -> (pixel: u32)
    ensures
        pixel == packed(high, middle, low),
{
    let pixel = ((high as u32) << 16) | ((middle as u32) << 8) | (low as u32);
    assert(pixel == high as u32 * 0x1_0000 + middle as u32 * 0x100 + low as u32) by (bit_vector)
        requires
            pixel == ((high as u32) << 16) | ((middle as u32) << 8) | (low as u32),
    ;
    pixel
}

} // verus!
