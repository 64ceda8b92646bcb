//! Driver core for ST7789 TFT display controllers.
//!
//! Every drawing request is turned into the exact sequence of bus steps the
//! controller expects. The crate computes those sequences and decides how a
//! transfer proceeds; performing a step on real hardware is left to the caller.

pub mod instruction;
pub mod orientation;
pub mod wire;
pub mod codec;
pub mod stream;
pub mod driver;
pub mod transfer;
pub mod graphics;

pub use crate::driver::ST7789;
pub use crate::orientation::Orientation;
pub use crate::transfer::Error;
