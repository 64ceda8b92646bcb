//! Display orientation and the addressing-mode byte that selects it.

use vstd::prelude::*;
use crate::instruction::to_u8;

verus! {

/// Display orientation.
#[derive(Clone, Copy, Debug, PartialEq, Eq, Structural)]
pub enum Orientation {
    /// No inverting.
    Portrait,
    /// Invert column and page/column order.
    Landscape,
    /// Invert page and column order.
    PortraitSwapped,
    /// Invert page and page/column order.
    LandscapeSwapped,
}

/// The addressing-mode parameter byte that puts the controller into an
/// orientation.
pub open spec fn control_byte_of(orientation: Orientation) -> u8 {
    match orientation {
        Orientation::Portrait => 0x00,
        Orientation::Landscape => 0x60,
        Orientation::PortraitSwapped => 0xC0,
        Orientation::LandscapeSwapped => 0xA0,
    }
}

/// Whether an orientation exchanges the roles of the two screen axes.
pub open spec fn swaps_axes_of(orientation: Orientation) -> bool {
    orientation == Orientation::Landscape || orientation == Orientation::LandscapeSwapped
}

impl Orientation {
    /// The orientation's number, before it is narrowed to a byte.
    fn code(&self) -> (code: u64)
        ensures
            code == control_byte_of(*self),
    {
        match self {
            Orientation::Portrait => 0b0000_0000,
            Orientation::Landscape => 0b0110_0000,
            Orientation::PortraitSwapped => 0b1100_0000,
            Orientation::LandscapeSwapped => 0b1010_0000,
        }
    }

    /// The addressing-mode parameter byte for this orientation.
    pub fn control_byte(&self) -> (byte: u8)
        ensures
            byte == control_byte_of(*self),
    {
        to_u8(self.code()).unwrap_or(0)
    }

    /// Whether width and height trade places in this orientation.
    pub fn swaps_axes(&self) -> (swapped: bool)
        ensures
            swapped == swaps_axes_of(*self),
    {
        match self {
            Orientation::Portrait | Orientation::PortraitSwapped => false,
            Orientation::Landscape | Orientation::LandscapeSwapped => true,
        }
    }
}

} // verus!
