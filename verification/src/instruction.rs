//! The controller's command set.

use vstd::prelude::*;

verus! {

/// Commands understood by the controller.
#[derive(Clone, Copy, Debug, PartialEq, Eq, Structural)]
pub enum Instruction {
    NOP,
    SWRESET,
    SLPIN,
    SLPOUT,
    NORON,
    INVOFF,
    INVON,
    DISPOFF,
    DISPON,
    CASET,
    RASET,
    RAMWR,
    MADCTL,
    COLMOD,
}

/// The opcode byte of each command, as the datasheet gives it.
pub open spec fn opcode_of(instruction: Instruction) -> u8 {
    match instruction {
        Instruction::NOP => 0x00,
        Instruction::SWRESET => 0x01,
        Instruction::SLPIN => 0x10,
        Instruction::SLPOUT => 0x11,
        Instruction::NORON => 0x13,
        Instruction::INVOFF => 0x20,
        Instruction::INVON => 0x21,
        Instruction::DISPOFF => 0x28,
        Instruction::DISPON => 0x29,
        Instruction::CASET => 0x2A,
        Instruction::RASET => 0x2B,
        Instruction::RAMWR => 0x2C,
        Instruction::MADCTL => 0x36,
        Instruction::COLMOD => 0x3A,
    }
}

/// `num_traits::ToPrimitive::to_u8` on a `u64`: the value itself when it fits
/// in a byte, nothing otherwise.
#[verifier::external_body]
pub(crate) fn to_u8(value: u64) -> (byte: Option<u8>)
    ensures
        byte == (if value <= 255 { Some(value as u8) } else { None }),
{
    num_traits::ToPrimitive::to_u8(&value)
}

impl Instruction {
    /// The command's number, before it is narrowed to a byte.
    fn code(self) -> (code: u64)
        ensures
            code == opcode_of(self),
    {
        match self {
            Instruction::NOP => 0x00,
            Instruction::SWRESET => 0x01,
            Instruction::SLPIN => 0x10,
            Instruction::SLPOUT => 0x11,
            Instruction::NORON => 0x13,
            Instruction::INVOFF => 0x20,
            Instruction::INVON => 0x21,
            Instruction::DISPOFF => 0x28,
            Instruction::DISPON => 0x29,
            Instruction::CASET => 0x2A,
            Instruction::RASET => 0x2B,
            Instruction::RAMWR => 0x2C,
            Instruction::MADCTL => 0x36,
            Instruction::COLMOD => 0x3A,
        }
    }

    /// The opcode byte sent on the bus for this command.
    pub fn opcode(self) -> (byte: u8)
        ensures
            byte == opcode_of(self),
    {
        to_u8(self.code()).unwrap_or(0)
    }
}

} // verus!
