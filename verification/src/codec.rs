//! Command framing and the address window.

use vstd::prelude::*;
use vstd::slice::slice_to_vec;
use crate::instruction::{opcode_of, Instruction};
use crate::wire::{be_bytes, emit, trace, word_bytes, Step, StepView};

verus! {

/// A rectangular region of panel memory: from column `sx` to `ex` and from
/// row `sy` to `ey`, ends included.
#[derive(Clone, Copy, Debug, PartialEq, Eq, Structural)]
pub struct AddressWindow {
    pub sx: u16,
    pub sy: u16,
    pub ex: u16,
    pub ey: u16,
}

impl AddressWindow {
    /// A window runs from start to end on both axes.
    pub open spec fn well_formed(self) -> bool {
        self.sx <= self.ex && self.sy <= self.ey
    }

    /// Number of pixels in the window.
    pub open spec fn area(self) -> int {
        (self.ex - self.sx + 1) * (self.ey - self.sy + 1)
    }
}

/// The parameter bytes of a command, if it has any, as a sequence.
pub open spec fn params_view(params: Option<&[u8]>) -> Option<Seq<u8>> {
    match params {
        Some(bytes) => Some(bytes@),
        None => None,
    }
}

/// One command on the wire: the opcode in the command phase, then the
/// parameters, if any, as one transaction in the data phase.
pub open spec fn command_script(command: Instruction, params: Option<Seq<u8>>) -> Seq<StepView> {
    match params {
        Some(bytes) => seq![StepView::Command(opcode_of(command)), StepView::Data(bytes)],
        None => seq![StepView::Command(opcode_of(command))],
    }
}

/// Selecting the window from column `sx` to `ex` and row `sy` to `ey`:
/// column-address-set with the two columns, then row-address-set with the two
/// rows, every coordinate a big-endian word.
pub open spec fn window_script(sx: u16, sy: u16, ex: u16, ey: u16) -> Seq<StepView> {
    seq![
        StepView::Command(opcode_of(Instruction::CASET)),
        StepView::Data(word_bytes(sx)),
        StepView::Data(word_bytes(ex)),
        StepView::Command(opcode_of(Instruction::RASET)),
        StepView::Data(word_bytes(sy)),
        StepView::Data(word_bytes(ey)),
    ]
}

/// Appends a data transaction carrying `data`.
pub fn write_data(out: &mut Vec<Step>, data: &[u8])
    ensures
        trace(final(out)@) == trace(old(out)@).push(StepView::Data(data@)),
{
    emit(out, Step::Data(slice_to_vec(data)));
}

/// Appends a data transaction carrying one word, high byte first.
pub fn write_word(out: &mut Vec<Step>, value: u16)
    ensures
        trace(final(out)@) == trace(old(out)@).push(StepView::Data(word_bytes(value))),
{
    emit(out, Step::Data(be_bytes(value)));
}

/// Appends a command and, where given, its parameters.
pub fn write_command(out: &mut Vec<Step>, command: Instruction, params: Option<&[u8]>)
    ensures
        trace(final(out)@) == trace(old(out)@) + command_script(command, params_view(params)),
{
    emit(out, Step::Command(command.opcode()));
    if let Some(bytes) = params {
        write_data(out, bytes);
    }
}

/// Appends the two commands that select an address window.
pub fn set_address_window(out: &mut Vec<Step>, sx: u16, sy: u16, ex: u16, ey: u16)
    requires
        sx <= ex,
        sy <= ey,
    ensures
        trace(final(out)@) == trace(old(out)@) + window_script(sx, sy, ex, ey),
{
    write_command(out, Instruction::CASET, None);
    write_word(out, sx);
    write_word(out, ex);
    write_command(out, Instruction::RASET, None);
    write_word(out, sy);
    write_word(out, ey);
}

} // verus!
