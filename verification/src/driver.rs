//! The driver: screen geometry, orientation, and the script of every
//! operation.

use vstd::prelude::*;
use crate::codec::{
    command_script, set_address_window, window_script, write_command, write_word, AddressWindow,
};
use crate::instruction::{opcode_of, Instruction};
use crate::orientation::{control_byte_of, swaps_axes_of, Orientation};
use crate::stream::{lemma_strategies_agree, stream_script, write_pixels, PixelStream};
use crate::wire::{emit, payload, trace, word_bytes, words_bytes, Step, StepView};

verus! {

/// Settle time after each edge on the reset line, in microseconds.
pub const RESET_SETTLE_US: u32 = 10;

/// Settle time after a software reset, in microseconds.
pub const SWRESET_SETTLE_US: u32 = 150_000;

/// Settle time after the other commands that need one, in microseconds.
pub const COMMAND_SETTLE_US: u32 = 10_000;

/// Color-mode parameter selecting 16 bits per pixel, 65K colors.
pub const COLOR_MODE_16BIT: u8 = 0b0101_0101;

/// What a driver knows: the visible size it was made for, the orientation
/// the controller is in, and how pixel words are cut into transactions.
pub struct DriverView {
    pub size_x: u16,
    pub size_y: u16,
    pub orientation: Orientation,
    pub stream: PixelStream,
}

/// ST7789 driver to connect to TFT displays.
pub struct ST7789 {
    size_x: u16,
    size_y: u16,
    orientation: Orientation,
    stream: PixelStream,
}

impl View for ST7789 {
    type V = DriverView;

    closed spec fn view(&self) -> DriverView {
        DriverView {
            size_x: self.size_x,
            size_y: self.size_y,
            orientation: self.orientation,
            stream: self.stream,
        }
    }
}

/// The reset line goes high, low, high, and rests after each edge.
pub open spec fn hard_reset_script() -> Seq<StepView> {
    seq![
        StepView::ResetHigh,
        StepView::DelayUs(RESET_SETTLE_US),
        StepView::ResetLow,
        StepView::DelayUs(RESET_SETTLE_US),
        StepView::ResetHigh,
        StepView::DelayUs(RESET_SETTLE_US),
    ]
}

/// The commands that bring the controller up after a hard reset, with the
/// pauses the hardware asks for.
pub open spec fn power_up_script() -> Seq<StepView> {
    seq![
        StepView::Command(opcode_of(Instruction::SWRESET)),
        StepView::DelayUs(SWRESET_SETTLE_US),
        StepView::Command(opcode_of(Instruction::SLPOUT)),
        StepView::DelayUs(COMMAND_SETTLE_US),
        StepView::Command(opcode_of(Instruction::INVOFF)),
        StepView::Command(opcode_of(Instruction::MADCTL)),
        StepView::Data(seq![control_byte_of(Orientation::Portrait)]),
        StepView::Command(opcode_of(Instruction::COLMOD)),
        StepView::Data(seq![COLOR_MODE_16BIT]),
        StepView::Command(opcode_of(Instruction::INVON)),
        StepView::DelayUs(COMMAND_SETTLE_US),
        StepView::Command(opcode_of(Instruction::NORON)),
        StepView::DelayUs(COMMAND_SETTLE_US),
        StepView::Command(opcode_of(Instruction::DISPON)),
        StepView::DelayUs(COMMAND_SETTLE_US),
    ]
}

/// Initialisation: a hard reset, then the power-up commands.
pub open spec fn init_script() -> Seq<StepView> {
    hard_reset_script() + power_up_script()
}

/// Selecting an orientation: one addressing-mode command with the
/// orientation's control byte as its only parameter.
pub open spec fn orientation_script(orientation: Orientation) -> Seq<StepView> {
    command_script(Instruction::MADCTL, Some(seq![control_byte_of(orientation)]))
}

/// Writing a run of words into a window: the window, memory-write, then the
/// words as the strategy cuts them.
pub open spec fn pixels_script(
    stream: PixelStream,
    sx: u16,
    sy: u16,
    ex: u16,
    ey: u16,
    colors: Seq<u16>,
) -> Seq<StepView> {
    window_script(sx, sy, ex, ey) + command_script(Instruction::RAMWR, None) + stream_script(
        stream,
        colors,
    )
}

/// Writing one pixel: a window of that pixel alone, memory-write, one word.
pub open spec fn pixel_script(x: u16, y: u16, color: u16) -> Seq<StepView> {
    window_script(x, y, x, y) + command_script(Instruction::RAMWR, None) + seq![
        StepView::Data(word_bytes(color)),
    ]
}

/// Number of pixels in the window from (`sx`, `sy`) to (`ex`, `ey`), both
/// corners included.
pub open spec fn window_area(sx: u16, sy: u16, ex: u16, ey: u16) -> int {
    (AddressWindow { sx, sy, ex, ey }).area()
}

/// The visible size in an orientation: as given for the portrait variants,
/// width and height exchanged for the landscape variants.
pub open spec fn visible_size(state: DriverView) -> (u16, u16) {
    if swaps_axes_of(state.orientation) {
        (state.size_y, state.size_x)
    } else {
        (state.size_x, state.size_y)
    }
}

/// Appends the reset-line sequence.
fn reset_sequence(out: &mut Vec<Step>)
    ensures
        trace(final(out)@) == trace(old(out)@) + hard_reset_script(),
{
    emit(out, Step::ResetHigh);
    emit(out, Step::DelayUs(RESET_SETTLE_US));
    emit(out, Step::ResetLow);
    emit(out, Step::DelayUs(RESET_SETTLE_US));
    emit(out, Step::ResetHigh);
    emit(out, Step::DelayUs(RESET_SETTLE_US));
}

/// Appends a command with a single parameter byte.
fn write_command_with(out: &mut Vec<Step>, command: Instruction, param: u8)
    ensures
        trace(final(out)@) == trace(old(out)@) + command_script(command, Some(seq![param])),
{
    let mut params: Vec<u8> = Vec::with_capacity(1);
    params.push(param);
    write_command(out, command, Some(params.as_slice()));
}

/// Appends the script that sets one pixel.
pub(crate) fn put_pixel(out: &mut Vec<Step>, x: u16, y: u16, color: u16)
    ensures
        trace(final(out)@) == trace(old(out)@) + pixel_script(x, y, color),
{
    set_address_window(out, x, y, x, y);
    write_command(out, Instruction::RAMWR, None);
    write_word(out, color);
}

impl ST7789 {
    /// Creates a driver for a screen of `size_x` by `size_y` visible pixels.
    /// It starts in portrait orientation and writes every pixel word as a
    /// transaction of its own.
    pub fn new(size_x: u16, size_y: u16) -> (driver: Self)
        ensures
            driver@ == (DriverView {
                size_x,
                size_y,
                orientation: Orientation::Portrait,
                stream: PixelStream::Immediate,
            }),
    {
        Self { size_x, size_y, orientation: Orientation::Portrait, stream: PixelStream::Immediate }
    }

    /// The same driver with another way of cutting pixel words into
    /// transactions.
    pub fn with_stream(self, stream: PixelStream) -> (driver: Self)
        ensures
            driver@ == (DriverView { stream, ..self@ }),
    {
        Self { size_x: self.size_x, size_y: self.size_y, orientation: self.orientation, stream }
    }

    /// The orientation the controller was last put in.
    pub fn orientation(&self) -> (orientation: Orientation)
        ensures
            orientation == self@.orientation,
    {
        self.orientation
    }

    /// How pixel words are cut into transactions.
    pub fn stream(&self) -> (stream: PixelStream)
        ensures
            stream == self@.stream,
    {
        self.stream
    }

    /// Visible width and height in the current orientation.
    pub fn visible(&self) -> (size: (u16, u16))
        ensures
            size == visible_size(self@),
    {
        if self.orientation.swaps_axes() {
            (self.size_y, self.size_x)
        } else {
            (self.size_x, self.size_y)
        }
    }

    /// The script that initialises the display. The controller ends up in
    /// portrait addressing, and the driver records that.
    pub fn init(&mut self) -> (plan: Vec<Step>)
        ensures
            trace(plan@) == init_script(),
            final(self)@ == (DriverView { orientation: Orientation::Portrait, ..old(self)@ }),
    {
        let mut plan: Vec<Step> = Vec::new();
        reset_sequence(&mut plan);
        write_command(&mut plan, Instruction::SWRESET, None);
        emit(&mut plan, Step::DelayUs(SWRESET_SETTLE_US));
        write_command(&mut plan, Instruction::SLPOUT, None);
        emit(&mut plan, Step::DelayUs(COMMAND_SETTLE_US));
        write_command(&mut plan, Instruction::INVOFF, None);
        write_command_with(&mut plan, Instruction::MADCTL, Orientation::Portrait.control_byte());
        write_command_with(&mut plan, Instruction::COLMOD, COLOR_MODE_16BIT);
        write_command(&mut plan, Instruction::INVON, None);
        emit(&mut plan, Step::DelayUs(COMMAND_SETTLE_US));
        write_command(&mut plan, Instruction::NORON, None);
        emit(&mut plan, Step::DelayUs(COMMAND_SETTLE_US));
        write_command(&mut plan, Instruction::DISPON, None);
        emit(&mut plan, Step::DelayUs(COMMAND_SETTLE_US));
        self.orientation = Orientation::Portrait;
        plan
    }

    /// The script of a hard reset on the reset line.
    pub fn hard_reset(&self) -> (plan: Vec<Step>)
        ensures
            trace(plan@) == hard_reset_script(),
    {
        let mut plan: Vec<Step> = Vec::new();
        reset_sequence(&mut plan);
        plan
    }

    /// The script that puts the controller into `orientation`, which the
    /// driver records. Pixel memory is not touched.
    pub fn set_orientation(&mut self, orientation: &Orientation) -> (plan: Vec<Step>)
        ensures
            trace(plan@) == orientation_script(*orientation),
            final(self)@ == (DriverView { orientation: *orientation, ..old(self)@ }),
            visible_size(final(self)@) == (if swaps_axes_of(*orientation) {
                (old(self)@.size_y, old(self)@.size_x)
            } else {
                (old(self)@.size_x, old(self)@.size_y)
            }),
    {
        let mut plan: Vec<Step> = Vec::new();
        write_command_with(&mut plan, Instruction::MADCTL, orientation.control_byte());
        self.orientation = *orientation;
        plan
    }

    /// The script that sets the pixel at (`x`, `y`) to `color`.
    pub fn set_pixel(&self, x: u16, y: u16, color: u16) -> (plan: Vec<Step>)
        ensures
            trace(plan@) == pixel_script(x, y, color),
    {
        let mut plan: Vec<Step> = Vec::new();
        put_pixel(&mut plan, x, y, color);
        plan
    }

    /// The script that writes `colors` into the window from (`sx`, `sy`) to
    /// (`ex`, `ey`). Every word given is sent, however many the window holds.
    pub fn set_pixels(&self, sx: u16, sy: u16, ex: u16, ey: u16, colors: &[u16]) -> (plan: Vec<
        Step,
    >)
        requires
            sx <= ex,
            sy <= ey,
        ensures
            trace(plan@) == pixels_script(self@.stream, sx, sy, ex, ey, colors@),
    {
        let mut plan: Vec<Step> = Vec::new();
        set_address_window(&mut plan, sx, sy, ex, ey);
        write_command(&mut plan, Instruction::RAMWR, None);
        write_pixels(&mut plan, self.stream, colors);
        plan
    }
}

/// A window filled with as many words as it has pixels: column-address-set
/// with the two columns, row-address-set with the two rows, memory-write, and
/// then the words and nothing else, each high byte first, two bytes per pixel
/// of the window.
pub proof fn lemma_full_window(
    stream: PixelStream,
    sx: u16,
    sy: u16,
    ex: u16,
    ey: u16,
    colors: Seq<u16>,
)
    requires
        sx <= ex,
        sy <= ey,
        colors.len() == window_area(sx, sy, ex, ey),
    ensures
        pixels_script(stream, sx, sy, ex, ey, colors).subrange(0, 7) == seq![
            StepView::Command(0x2A),
            StepView::Data(word_bytes(sx)),
            StepView::Data(word_bytes(ex)),
            StepView::Command(0x2B),
            StepView::Data(word_bytes(sy)),
            StepView::Data(word_bytes(ey)),
            StepView::Command(0x2C),
        ],
        pixels_script(stream, sx, sy, ex, ey, colors).skip(7) == stream_script(stream, colors),
        payload(stream_script(stream, colors)) == words_bytes(colors),
        words_bytes(colors).len() == 2 * window_area(sx, sy, ex, ey),
{
    lemma_strategies_agree(colors, stream, stream);
}

/// Selecting an orientation is a single addressing-mode command whose one
/// parameter byte is 0x00 for portrait, 0x60 for landscape, 0xC0 for portrait
/// swapped and 0xA0 for landscape swapped; width and height of the visible
/// size trade places for the two landscape variants and for no other.
pub proof fn lemma_orientation_commands(state: DriverView, orientation: Orientation)
    ensures
        orientation_script(orientation) == seq![
            StepView::Command(0x36),
            StepView::Data(
                seq![
                    match orientation {
                        Orientation::Portrait => 0x00u8,
                        Orientation::Landscape => 0x60u8,
                        Orientation::PortraitSwapped => 0xC0u8,
                        Orientation::LandscapeSwapped => 0xA0u8,
                    },
                ],
            ),
        ],
        visible_size(DriverView { orientation, ..state }) == (match orientation {
            Orientation::Landscape | Orientation::LandscapeSwapped => (state.size_y, state.size_x),
            Orientation::Portrait | Orientation::PortraitSwapped => (state.size_x, state.size_y),
        }),
{
}

} // verus!
