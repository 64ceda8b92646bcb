//! Drawing primitives mapped onto windows and pixel streams.

use vstd::prelude::*;
use crate::driver::{
    lemma_full_window, pixel_script, pixels_script, put_pixel, visible_size, window_area,
    DriverView, ST7789,
};
use crate::codec::{command_script, window_script, AddressWindow};
use crate::instruction::Instruction;
use crate::orientation::swaps_axes_of;
use crate::wire::{payload, trace, words_bytes, Step, StepView};

verus! {

/// Last column of panel memory in portrait addressing.
pub const PANEL_LAST_COLUMN: u16 = 239;

/// Last row of panel memory in portrait addressing.
pub const PANEL_LAST_ROW: u16 = 319;

/// Number of pixels in panel memory.
pub const PANEL_PIXELS: usize = 76_800;

/// A position on the drawing surface.
#[derive(Clone, Copy, Debug, PartialEq, Eq, Structural)]
pub struct Point {
    pub x: i32,
    pub y: i32,
}

/// A width and a height.
#[derive(Clone, Copy, Debug, PartialEq, Eq, Structural)]
pub struct Size {
    pub width: u32,
    pub height: u32,
}

/// A rectangle given by its top-left corner and its size.
#[derive(Clone, Copy, Debug, PartialEq, Eq, Structural)]
pub struct Rectangle {
    pub top_left: Point,
    pub size: Size,
}

/// A color by its channels: five bits of red, six of green, five of blue.
/// Higher bits of a channel are ignored.
#[derive(Clone, Copy, Debug, PartialEq, Eq, Structural)]
pub struct Rgb565 {
    pub r: u8,
    pub g: u8,
    pub b: u8,
}

/// How a rectangle is to be drawn.
#[derive(Clone, Copy, Debug, PartialEq, Eq, Structural)]
pub enum RectangleStyle {
    /// All of its points in one color.
    Filled(Rgb565),
    /// Its outline only.
    Outlined,
    /// Anything else.
    Other,
}

/// A point and the color to give it.
#[derive(Clone, Copy, Debug, PartialEq, Eq, Structural)]
pub struct Pixel(pub Point, pub Rgb565);

/// The 16-bit word of a color: red in the top five bits, green in the middle
/// six, blue in the low five.
pub open spec fn raw_of(color: Rgb565) -> u16 {
    ((color.r % 32) * 2048 + (color.g % 64) * 32 + color.b % 32) as u16
}

/// The words of a run of colors.
pub open spec fn raw_words(colors: Seq<Rgb565>) -> Seq<u16> {
    Seq::new(colors.len(), |i: int| raw_of(colors[i]))
}

/// Whether the bottom-right corner of a rectangle can be computed in `i32`:
/// width and height fit `i32`, and so does the top-left corner moved by them.
/// A rectangle without area has no such corner and always qualifies.
pub open spec fn representable(area: Rectangle) -> bool {
    area.size.width > 0 && area.size.height > 0 ==> {
        &&& area.size.width <= i32::MAX
        &&& area.size.height <= i32::MAX
        &&& area.top_left.x + area.size.width <= i32::MAX
        &&& area.top_left.y + area.size.height <= i32::MAX
    }
}

/// The bottom-right corner of a rectangle, the corner itself included in the
/// rectangle; none for a rectangle without area.
pub open spec fn corner_of(area: Rectangle) -> Option<Point> {
    if area.size.width > 0 && area.size.height > 0 {
        Some(
            Point {
                x: (area.top_left.x + area.size.width - 1) as i32,
                y: (area.top_left.y + area.size.height - 1) as i32,
            },
        )
    } else {
        None
    }
}

/// Number of points in a rectangle.
pub open spec fn point_count(area: Rectangle) -> nat {
    (area.size.width * area.size.height) as nat
}

/// The window a rectangle is drawn into, each coordinate cut to 16 bits.
/// None where the rectangle has no area or the cut coordinates no longer run
/// from start to end.
pub open spec fn window_of(area: Rectangle) -> Option<AddressWindow> {
    match corner_of(area) {
        Some(corner) => corners_window(area.top_left.x, area.top_left.y, corner.x, corner.y),
        None => None,
    }
}

/// The window between two corners, both included, each coordinate cut to 16
/// bits; none where a start then lies behind its end.
pub open spec fn corners_window(left: i32, top: i32, right: i32, bottom: i32) -> Option<
    AddressWindow,
> {
    let window = AddressWindow {
        sx: left as u16,
        sy: top as u16,
        ex: right as u16,
        ey: bottom as u16,
    };
    if window.well_formed() {
        Some(window)
    } else {
        None
    }
}

/// Writing `words` into `window`; nothing at all where there is no window.
pub open spec fn fill_script(
    state: DriverView,
    window: Option<AddressWindow>,
    words: Seq<u16>,
) -> Seq<StepView> {
    match window {
        Some(window) => pixels_script(
            state.stream,
            window.sx,
            window.sy,
            window.ex,
            window.ey,
            words,
        ),
        None => Seq::empty(),
    }
}

/// Filling a rectangle with one color: its window, then the color's word once
/// for every point of the rectangle.
pub open spec fn solid_script(state: DriverView, area: Rectangle, color: Rgb565) -> Seq<StepView> {
    fill_script(state, window_of(area), Seq::new(point_count(area), |i: int| raw_of(color)))
}

/// Filling a rectangle from a run of colors: its window, then the colors'
/// words, cut off after as many as the rectangle has points.
pub open spec fn contiguous_script(state: DriverView, area: Rectangle, colors: Seq<Rgb565>) -> Seq<
    StepView,
> {
    fill_script(
        state,
        window_of(area),
        raw_words(
            colors.take(
                if colors.len() <= point_count(area) {
                    colors.len() as int
                } else {
                    point_count(area) as int
                },
            ),
        ),
    )
}

/// Drawing an image whose far corner lies one past its last pixel: the
/// window ends one short of that corner on both axes, and every color given
/// is sent.
pub open spec fn image_script(
    state: DriverView,
    top_left: Point,
    bottom_right: Point,
    colors: Seq<Rgb565>,
) -> Seq<StepView> {
    fill_script(
        state,
        corners_window(
            top_left.x,
            top_left.y,
            (bottom_right.x - 1) as i32,
            (bottom_right.y - 1) as i32,
        ),
        raw_words(colors),
    )
}

/// Drawing single pixels one after another, each with a window of its own.
pub open spec fn draw_script(pixels: Seq<Pixel>) -> Seq<StepView>
    decreases pixels.len(),
{
    if pixels.len() == 0 {
        Seq::empty()
    } else {
        draw_script(pixels.drop_last()) + pixel_script(
            pixels.last().0.x as u16,
            pixels.last().0.y as u16,
            raw_of(pixels.last().1),
        )
    }
}

/// Drawing a styled rectangle: a filled one as a solid fill of its area,
/// any other pixel by pixel from its rasterised points.
pub open spec fn rectangle_script(
    state: DriverView,
    area: Rectangle,
    style: RectangleStyle,
    pixels: Seq<Pixel>,
) -> Seq<StepView> {
    match style {
        RectangleStyle::Filled(color) => solid_script(state, area, color),
        _ => draw_script(pixels),
    }
}

/// Clearing the display: a window over all of panel memory, laid out as the
/// orientation has it, and the color's word once for every pixel of it.
pub open spec fn clear_script(state: DriverView, color: Rgb565) -> Seq<StepView> {
    let words = Seq::new(PANEL_PIXELS as nat, |i: int| raw_of(color));
    if swaps_axes_of(state.orientation) {
        pixels_script(state.stream, 0, 0, PANEL_LAST_ROW, PANEL_LAST_COLUMN, words)
    } else {
        pixels_script(state.stream, 0, 0, PANEL_LAST_COLUMN, PANEL_LAST_ROW, words)
    }
}

/// `Rectangle::bottom_right` of embedded-graphics-core: for a rectangle with
/// area, the top-left corner moved by the size less one on each axis; none
/// for a rectangle without area. Rectangles whose size or corner does not fit
/// `i32` are kept out, as the addition behind it may panic on them.
#[verifier::external_body]
fn bottom_right(area: &Rectangle) -> (corner: Option<Point>)
    requires
        representable(*area),
    ensures
        corner == corner_of(*area),
{
    let outside = embedded_graphics_core::primitives::Rectangle::new(
        embedded_graphics_core::geometry::Point::new(area.top_left.x, area.top_left.y),
        embedded_graphics_core::geometry::Size::new(area.size.width, area.size.height),
    );
    match outside.bottom_right() {
        Some(corner) => Some(Point { x: corner.x, y: corner.y }),
        None => None,
    }
}

/// `RawU16::from` on an `Rgb565` of embedded-graphics-core built from the
/// three channels, then `into_inner`: each channel is cut to its width and
/// the three are packed red, green, blue from the top bit down.
#[verifier::external_body]
fn raw_word(color: &Rgb565) -> (word: u16)
    ensures
        word == raw_of(*color),
{
    let outside = embedded_graphics_core::pixelcolor::Rgb565::new(color.r, color.g, color.b);
    embedded_graphics_core::pixelcolor::raw::RawData::into_inner(
        embedded_graphics_core::pixelcolor::raw::RawU16::from(outside),
    )
}

/// A coordinate cut to the 16 bits the controller takes.
fn coordinate(value: i32) -> (cut: u16)
    ensures
        cut == value as u16,
{
    value as u16
}

/// The window between two corners, if its cut coordinates are in order.
fn window_between(left: i32, top: i32, right: i32, bottom: i32) -> (window: Option<
    AddressWindow,
>)
    ensures
        window == corners_window(left, top, right, bottom),
        window is Some ==> window.unwrap().well_formed(),
{
    let sx = coordinate(left);
    let sy = coordinate(top);
    let ex = coordinate(right);
    let ey = coordinate(bottom);
    if sx <= ex && sy <= ey {
        Some(AddressWindow { sx, sy, ex, ey })
    } else {
        None
    }
}

/// `count` copies of one word.
fn repeat_word(word: u16, count: usize) -> (words: Vec<u16>)
    ensures
        words@ == Seq::new(count as nat, |i: int| word),
{
    let mut words: Vec<u16> = Vec::new();
    while words.len() < count
        invariant
            words@.len() <= count,
            forall|i: int| 0 <= i < words@.len() ==> words@[i] == word,
        decreases count - words@.len(),
    {
        words.push(word);
    }
    words
}

/// The words of the first `limit` colors, or of all where there are fewer.
fn words_of(colors: &[Rgb565], limit: usize) -> (words: Vec<u16>)
    ensures
        words@ == raw_words(
            colors@.take(
                if colors@.len() <= limit {
                    colors@.len() as int
                } else {
                    limit as int
                },
            ),
        ),
{
    let mut words: Vec<u16> = Vec::new();
    let mut i: usize = 0;
    while i < colors.len() && i < limit
        invariant
            i <= colors@.len(),
            i <= limit,
            words@ == raw_words(colors@.take(i as int)),
        decreases colors@.len() - i,
    {
        words.push(raw_word(&colors[i]));
        i += 1;
    }
    words
}

impl ST7789 {
    /// The script for `words` in `window`; empty where there is no window.
    fn fill(&self, window: Option<AddressWindow>, words: &[u16]) -> (plan: Vec<Step>)
        requires
            window is Some ==> window.unwrap().well_formed(),
        ensures
            trace(plan@) == fill_script(self@, window, words@),
            window is None ==> plan@.len() == 0,
    {
        match window {
            Some(window) => self.set_pixels(window.sx, window.sy, window.ex, window.ey, words),
            None => Vec::new(),
        }
    }

    /// The window a rectangle is drawn into, if it has one.
    fn window(area: &Rectangle) -> (window: Option<AddressWindow>)
        requires
            representable(*area),
        ensures
            window == window_of(*area),
            window is Some ==> window.unwrap().well_formed(),
    {
        match bottom_right(area) {
            Some(corner) => window_between(area.top_left.x, area.top_left.y, corner.x, corner.y),
            None => None,
        }
    }

    /// The script that draws single pixels in the order given, each with a
    /// window of its own.
    pub fn draw_iter(&self, pixels: &[Pixel]) -> (plan: Vec<Step>)
        ensures
            trace(plan@) == draw_script(pixels@),
    {
        let mut plan: Vec<Step> = Vec::new();
        let mut i: usize = 0;
        while i < pixels.len()
            invariant
                i <= pixels@.len(),
                trace(plan@) == draw_script(pixels@.take(i as int)),
            decreases pixels@.len() - i,
        {
            let pixel = pixels[i];
            let color = raw_word(&pixel.1);
            let x = coordinate(pixel.0.x);
            let y = coordinate(pixel.0.y);
            put_pixel(&mut plan, x, y, color);
            i += 1;
            assert(pixels@.take(i as int).drop_last() =~= pixels@.take(i - 1));
        }
        assert(pixels@.take(i as int) =~= pixels@);
        plan
    }

    /// The script that fills a rectangle with one color. A rectangle without
    /// area, or one whose cut coordinates are out of order, draws nothing.
    pub fn fill_solid(&self, area: &Rectangle, color: Rgb565) -> (plan: Vec<Step>)
        requires
            representable(*area),
            point_count(*area) <= usize::MAX,
        ensures
            trace(plan@) == solid_script(self@, *area, color),
            window_of(*area) is None ==> plan@.len() == 0,
    {
        let window = Self::window(area);
        if window.is_some() {
            let count: u64 = (area.size.width as u64) * (area.size.height as u64);
            let colors = repeat_word(raw_word(&color), count as usize);
            self.fill(window, colors.as_slice())
        } else {
            Vec::new()
        }
    }

    /// The script that draws a rectangle in a style. A filled rectangle goes
    /// into one window; an outline, or a style not known here, cannot, and is
    /// drawn from `pixels`, its points as rasterised by the caller, one by
    /// one.
    pub fn draw_rectangle(&self, area: &Rectangle, style: RectangleStyle, pixels: &[Pixel]) -> (plan:
        Vec<Step>)
        requires
            style is Filled ==> representable(*area) && point_count(*area) <= usize::MAX,
        ensures
            trace(plan@) == rectangle_script(self@, *area, style, pixels@),
    {
        match style {
            RectangleStyle::Filled(color) => self.fill_solid(area, color),
            _ => self.draw_iter(pixels),
        }
    }

    /// The script that fills a rectangle from a run of colors. Colors beyond
    /// the rectangle's point count are left out; fewer are sent as they are.
    pub fn fill_contiguous(&self, area: &Rectangle, colors: &[Rgb565]) -> (plan: Vec<Step>)
        requires
            representable(*area),
        ensures
            trace(plan@) == contiguous_script(self@, *area, colors@),
            window_of(*area) is None ==> plan@.len() == 0,
    {
        let window = Self::window(area);
        if window.is_some() {
            assert(area.size.width * area.size.height <= 0xFFFF_FFFF * 0xFFFF_FFFF)
                by (nonlinear_arith)
                requires
                    area.size.width <= 0xFFFF_FFFF,
                    area.size.height <= 0xFFFF_FFFF,
            ;
            let count: u64 = (area.size.width as u64) * (area.size.height as u64);
            let given: usize = colors.len();
            let limit: usize = if count <= given as u64 {
                count as usize
            } else {
                given
            };
            let words = words_of(colors, limit);
            self.fill(window, words.as_slice())
        } else {
            Vec::new()
        }
    }

    /// The script that draws an image between `top_left` and `bottom_right`,
    /// where `bottom_right` lies one past the last pixel on both axes, unlike
    /// the corner of a rectangle. Every color given is sent.
    pub fn draw_image(&self, top_left: Point, bottom_right: Point, colors: &[Rgb565]) -> (plan:
        Vec<Step>)
        requires
            bottom_right.x > i32::MIN,
            bottom_right.y > i32::MIN,
        ensures
            trace(plan@) == image_script(self@, top_left, bottom_right, colors@),
    {
        let window = window_between(
            top_left.x,
            top_left.y,
            bottom_right.x - 1,
            bottom_right.y - 1,
        );
        let words = words_of(colors, colors.len());
        assert(colors@.take(colors@.len() as int) =~= colors@);
        self.fill(window, words.as_slice())
    }

    /// The script that sets all of panel memory to one color, the part
    /// outside the visible size included.
    pub fn clear(&self, color: Rgb565) -> (plan: Vec<Step>)
        ensures
            trace(plan@) == clear_script(self@, color),
    {
        let colors = repeat_word(raw_word(&color), PANEL_PIXELS);
        if self.orientation().swaps_axes() {
            self.set_pixels(0, 0, PANEL_LAST_ROW, PANEL_LAST_COLUMN, colors.as_slice())
        } else {
            self.set_pixels(0, 0, PANEL_LAST_COLUMN, PANEL_LAST_ROW, colors.as_slice())
        }
    }

    /// The visible area, not the size of panel memory.
    pub fn size(&self) -> (size: Size)
        ensures
            size.width == visible_size(self@).0,
            size.height == visible_size(self@).1,
    {
        let (width, height) = self.visible();
        Size { width: width as u32, height: height as u32 }
    }
}

/// Panel memory holds as many pixels as its window has, whichever way the
/// window is laid out.
pub proof fn lemma_panel_area()
    ensures
        window_area(0, 0, PANEL_LAST_COLUMN, PANEL_LAST_ROW) == PANEL_PIXELS,
        window_area(0, 0, PANEL_LAST_ROW, PANEL_LAST_COLUMN) == PANEL_PIXELS,
{
    assert((239 - 0 + 1) * (319 - 0 + 1) == 76_800) by (nonlinear_arith);
    assert((319 - 0 + 1) * (239 - 0 + 1) == 76_800) by (nonlinear_arith);
}

/// Clearing sets a window that spans all of panel memory, laid out as the
/// orientation has it, and after memory-write sends one word per pixel of
/// panel memory and no other data, every word the color's own, whatever the
/// visible size.
pub proof fn lemma_clear_covers_panel(state: DriverView, color: Rgb565)
    ensures
        clear_script(state, color).subrange(0, 7) == (if swaps_axes_of(state.orientation) {
            window_script(0, 0, PANEL_LAST_ROW, PANEL_LAST_COLUMN)
        } else {
            window_script(0, 0, PANEL_LAST_COLUMN, PANEL_LAST_ROW)
        }) + command_script(Instruction::RAMWR, None),
        payload(clear_script(state, color).skip(7)) == words_bytes(
            Seq::new(PANEL_PIXELS as nat, |i: int| raw_of(color)),
        ),
        words_bytes(Seq::new(PANEL_PIXELS as nat, |i: int| raw_of(color))).len() == 2
            * PANEL_PIXELS,
{
    let words = Seq::new(PANEL_PIXELS as nat, |i: int| raw_of(color));
    let (ex, ey) = if swaps_axes_of(state.orientation) {
        (PANEL_LAST_ROW, PANEL_LAST_COLUMN)
    } else {
        (PANEL_LAST_COLUMN, PANEL_LAST_ROW)
    };
    let script = pixels_script(state.stream, 0, 0, ex, ey, words);
    assert(clear_script(state, color) == script);
    lemma_panel_area();
    lemma_full_window(state.stream, 0, 0, ex, ey, words);
    assert(script.subrange(0, 7) =~= window_script(0, 0, ex, ey) + command_script(
        Instruction::RAMWR,
        None,
    ));
}

/// A rectangle without area draws nothing: no window is set and no pixel is
/// written.
pub proof fn lemma_empty_area_draws_nothing(state: DriverView, area: Rectangle, color: Rgb565)
    requires
        area.size.width == 0 || area.size.height == 0,
    ensures
        solid_script(state, area, color) == Seq::<StepView>::empty(),
{
}

} // verus!
