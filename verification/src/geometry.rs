//! Rectangles on the window and how the window is divided among what is
//! drawn on it.

use vstd::prelude::*;

verus! {

/// A rectangle: the corner nearest the origin, and its size.
#[derive(Debug, Copy, Clone)]
pub struct Rect {
    x: u32,
    y: u32,
    w: u32,
    h: u32,
}

/// A rectangle as a mathematical value.
pub struct Area {
    pub x: int,
    pub y: int,
    pub width: int,
    pub height: int,
}

impl View for Rect {
    type V = Area;

    closed spec fn view(&self) -> Area {
        Area { x: self.x as int, y: self.y as int, width: self.w as int, height: self.h as int }
    }
}

/// The value that a `u32` turns into when its bits are read as an `i32`.
pub open spec fn reinterpreted(value: int) -> int {
    if value <= i32::MAX {
        value
    } else {
        value - 0x1_0000_0000
    }
}

impl Rect {
    /// Every part of a rectangle fits a `u32`.
    pub proof fn lemma_bounds(self)
        ensures
            0 <= self@.x <= u32::MAX,
            0 <= self@.y <= u32::MAX,
            0 <= self@.width <= u32::MAX,
            0 <= self@.height <= u32::MAX,
    {
    }

    pub fn new(x: u32, y: u32, w: u32, h: u32) -> (rect: Rect)
        ensures
            rect@ == (Area { x: x as int, y: y as int, width: w as int, height: h as int }),
    {
        Rect { x, y, w, h }
    }

    /// The rectangle moved right by `offset`.
    pub fn offset_x(self, offset: u32) -> (rect: Rect)
        requires
            self@.x + offset <= u32::MAX,
        ensures
            rect@ == (Area { x: self@.x + offset, ..self@ }),
    {
        Rect::new(self.x + offset, self.y, self.w, self.h)
    }

    /// The rectangle moved down by `offset`.
    pub fn offset_y(self, offset: u32) -> (rect: Rect)
        requires
            self@.y + offset <= u32::MAX,
        ensures
            rect@ == (Area { y: self@.y + offset, ..self@ }),
    {
        Rect::new(self.x, self.y + offset, self.w, self.h)
    }

    /// The rectangle without a strip of width `offset` at its left.
    pub fn cutoff_x(self, offset: u32) -> (rect: Rect)
        requires
            self@.x + offset <= u32::MAX,
            offset <= self@.width,
        ensures
            rect@ == (Area { x: self@.x + offset, width: self@.width - offset, ..self@ }),
    {
        Rect::new(self.x + offset, self.y, self.w - offset, self.h)
    }

    /// The rectangle without a strip of height `offset` at its top.
    pub fn cutoff_y(self, offset: u32) -> (rect: Rect)
        requires
            self@.y + offset <= u32::MAX,
            offset <= self@.height,
        ensures
            rect@ == (Area { y: self@.y + offset, height: self@.height - offset, ..self@ }),
    {
        Rect::new(self.x, self.y + offset, self.w, self.h - offset)
    }

    /// The rectangle made narrower by `offset`, down to no width at all.
    pub fn cutoff_width(self, offset: u32) -> (rect: Rect)
        ensures
            rect@ == (Area {
                width: if offset <= self@.width {
                    self@.width - offset
                } else {
                    0
                },
                ..self@
            }),
    {
        Rect::new(self.x, self.y, self.w.saturating_sub(offset), self.h)
    }

    /// The rectangle made lower by `offset`, down to no height at all.
    pub fn cutoff_height(self, offset: u32) -> (rect: Rect)
        ensures
            rect@ == (Area {
                height: if offset <= self@.height {
                    self@.height - offset
                } else {
                    0
                },
                ..self@
            }),
    {
        Rect::new(self.x, self.y, self.w, self.h.saturating_sub(offset))
    }

    /// The rectangle at the same place with another size.
    pub fn with_size(self, width: u32, height: u32) -> (rect: Rect)
        ensures
            rect@ == (Area { width: width as int, height: height as int, ..self@ }),
    {
        Rect::new(self.x, self.y, width, height)
    }

    pub fn x(self) -> (x: u32)
        ensures
            x == self@.x,
    {
        self.x
    }

    pub fn y(self) -> (y: u32)
        ensures
            y == self@.y,
    {
        self.y
    }

    /// `x` with its bits read as a signed number.
    pub fn x_signed(self) -> (x: i32)
        ensures
            x == reinterpreted(self@.x),
    {
        signed(self.x)
    }

    /// `y` with its bits read as a signed number.
    pub fn y_signed(self) -> (y: i32)
        ensures
            y == reinterpreted(self@.y),
    {
        signed(self.y)
    }

    pub fn width(self) -> (width: u32)
        ensures
            width == self@.width,
    {
        self.w
    }

    pub fn height(self) -> (height: u32)
        ensures
            height == self@.height,
    {
        self.h
    }
}

impl Rect {
    /// Splits the rectangle into a strip of exactly `height` at its top and
    /// what is left below it. There is no such strip where the rectangle is
    /// lower than `height`.
    pub fn subdivide_exact(self, height: u32) -> (parts: Option<(Rect, Rect)>)
        requires
            height <= self@.height ==> self@.y + height <= u32::MAX,
        ensures
            parts is Some <==> height <= self@.height,
            parts matches Some((top, rest)) ==> top@ == (Area { height: height as int, ..self@ })
                && rest@ == (Area {
                y: self@.y + height,
                height: self@.height - height,
                ..self@
            }),
    {
        if self.h >= height {
            Some((self.with_size(self.w, height), self.cutoff_y(height)))
        } else {
            None
        }
    }

    /// Splits the rectangle into a strip of `max_height` at its top and what
    /// is left below it, if anything is left.
    pub fn subdivide_up_to(self, max_height: u32) -> (parts: (Rect, Option<Rect>))
        requires
            max_height <= self@.height,
            self@.y + max_height <= u32::MAX,
        ensures
            parts.0@ == (Area { height: max_height as int, ..self@ }),
            parts.1 is Some <==> max_height < self@.height,
            parts.1 matches Some(rest) ==> rest@ == (Area {
                y: self@.y + max_height,
                height: self@.height - max_height,
                ..self@
            }),
    {
        let top = self.with_size(self.w, max_height);
        let rest = self.cutoff_y(max_height);
        if rest.h != 0 {
            (top, Some(rest))
        } else {
            (top, None)
        }
    }

    /// Where a text of the given size is drawn in this rectangle: at its
    /// left, centred between top and bottom, and cut to the rectangle's size.
    pub fn text_area(self, width: u32, height: u32) -> (rect: Rect)
        requires
            i32::MIN <= reinterpreted(self@.height) - reinterpreted(height as int) <= i32::MAX,
        ensures
            rect@ == (Area {
                x: self@.x,
                y: wrapped(
                    self@.y + half(reinterpreted(self@.height) - reinterpreted(height as int)),
                ),
                width: if width <= self@.width {
                    width as int
                } else {
                    self@.width
                },
                height: if height <= self@.height {
                    height as int
                } else {
                    self@.height
                },
            }),
    {
        let spare: i32 = signed(self.h) - signed(height);
        let shift: i32 = spare / 2;
        let y: u32 = add_signed_wrapping(self.y, shift);
        let w: u32 = if width <= self.w {
            width
        } else {
            self.w
        };
        let h: u32 = if height <= self.h {
            height
        } else {
            self.h
        };
        Rect::new(self.x, y, w, h)
    }
}

/// A strip over the whole width of a window, by its corner and size.
#[derive(Debug, Copy, Clone)]
pub struct Section {
    pub x: i32,
    pub y: i32,
    pub width: u32,
    pub height: u32,
}

/// How far down a window of a given size is taken up by sections.
pub struct State {
    valign: i32,
    width: u32,
    height: u32,
}

impl State {
    /// Where the next section begins.
    pub closed spec fn filled(&self) -> int {
        self.valign as int
    }

    /// The width of the window.
    pub closed spec fn width(&self) -> int {
        self.width as int
    }

    /// The height of the window.
    pub closed spec fn height(&self) -> int {
        self.height as int
    }

    /// A window of the given size with no sections yet.
    pub fn new(width: u32, height: u32) -> (state: State)
        ensures
            state.filled() == 0,
            state.width() == width,
            state.height() == height,
    {
        State { valign: 0, width, height }
    }

    /// Takes the next `height` of the window: a section over the whole
    /// width that begins where the last one ended.
    pub fn new_section(&mut self, height: u32) -> (section: Section)
        requires
            i32::MIN <= old(self).filled() + reinterpreted(height as int) <= i32::MAX,
        ensures
            section.x == 0,
            section.y == old(self).filled(),
            section.width == old(self).width(),
            section.height == height,
            final(self).filled() == old(self).filled() + reinterpreted(height as int),
            final(self).width() == old(self).width(),
            final(self).height() == old(self).height(),
    {
        let start: i32 = self.valign;
        let delim: i32 = start + signed(height);
        self.valign = delim;
        Section { x: 0, y: start, width: self.width, height }
    }
}

/// Half of `value`, rounded towards zero.
pub open spec fn half(value: int) -> int {
    if value >= 0 {
        value / 2
    } else {
        -((-value) / 2)
    }
}

/// `value` brought into the range of a `u32` by adding or taking away a
/// multiple of the size of that range.
pub open spec fn wrapped(value: int) -> int {
    value % 0x1_0000_0000
}

/// `value + delta`, wrapped around at the boundary of the type.
fn add_signed_wrapping(value: u32, delta: i32) -> (sum: u32)
    ensures
        sum == wrapped(value + delta),
{
    let wide: i64 = value as i64 + delta as i64;
    if wide < 0 {
        (wide + 0x1_0000_0000) as u32
    } else if wide > 0xffff_ffff {
        (wide - 0x1_0000_0000) as u32
    } else {
        wide as u32
    }
}

/// The bits of `value` read as a signed number.
fn signed(value: u32) -> (out: i32)
    ensures
        out == reinterpreted(value as int),
{
    let out: i32 = value as i32;
    assert(value <= 0x7fff_ffffu32 ==> value as i32 == value) by (bit_vector);
    assert(value > 0x7fff_ffffu32 ==> value as i32 == value - 0x1_0000_0000) by (bit_vector);
    out
}

} // verus!
