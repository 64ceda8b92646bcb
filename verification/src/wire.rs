//! Bus steps, the scripts they form, and the byte order of words on the wire.

use vstd::prelude::*;
use vstd::slice::slice_to_vec;

verus! {

/// One action on the bus or on the lines beside it.
#[derive(Debug, PartialEq, Eq)]
pub enum Step {
    /// Control line at command level, then one opcode byte.
    Command(u8),
    /// Control line at data level, then these bytes as one transaction.
    Data(Vec<u8>),
    /// Drive the reset line high.
    ResetHigh,
    /// Drive the reset line low.
    ResetLow,
    /// Block for at least this many microseconds.
    DelayUs(u32),
}

/// What a `Step` means, with its bytes as a mathematical sequence.
pub enum StepView {
    Command(u8),
    Data(Seq<u8>),
    ResetHigh,
    ResetLow,
    DelayUs(u32),
}

impl View for Step {
    type V = StepView;

    open spec fn view(&self) -> StepView {
        match self {
            Step::Command(opcode) => StepView::Command(*opcode),
            Step::Data(bytes) => StepView::Data(bytes@),
            Step::ResetHigh => StepView::ResetHigh,
            Step::ResetLow => StepView::ResetLow,
            Step::DelayUs(micros) => StepView::DelayUs(*micros),
        }
    }
}

impl Clone for Step {
    fn clone(&self) -> (copy: Self)
        ensures
            copy@ == self@,
    {
        match self {
            Step::Command(opcode) => Step::Command(*opcode),
            Step::Data(bytes) => Step::Data(slice_to_vec(bytes.as_slice())),
            Step::ResetHigh => Step::ResetHigh,
            Step::ResetLow => Step::ResetLow,
            Step::DelayUs(micros) => Step::DelayUs(*micros),
        }
    }
}

/// The meaning of a list of steps, step by step.
pub open spec fn trace(steps: Seq<Step>) -> Seq<StepView> {
    Seq::new(steps.len(), |i: int| steps[i]@)
}

/// The more significant byte of a word.
pub open spec fn high_byte(word: u16) -> u8 {
    (word / 256) as u8
}

/// The less significant byte of a word.
pub open spec fn low_byte(word: u16) -> u8 {
    (word % 256) as u8
}

/// A word in wire order: high byte first.
pub open spec fn word_bytes(word: u16) -> Seq<u8> {
    seq![high_byte(word), low_byte(word)]
}

/// A run of words in wire order, two bytes per word.
pub open spec fn words_bytes(words: Seq<u16>) -> Seq<u8> {
    Seq::new(
        2 * words.len(),
        |i: int|
            if i % 2 == 0 {
                high_byte(words[i / 2])
            } else {
                low_byte(words[i / 2])
            },
    )
}

/// The data bytes one step puts on the bus.
pub open spec fn step_payload(step: StepView) -> Seq<u8> {
    match step {
        StepView::Data(bytes) => bytes,
        _ => Seq::empty(),
    }
}

/// All data bytes of a script in the order they reach the controller,
/// whatever the transaction boundaries.
pub open spec fn payload(script: Seq<StepView>) -> Seq<u8>
    decreases script.len(),
{
    if script.len() == 0 {
        Seq::empty()
    } else {
        payload(script.drop_last()) + step_payload(script.last())
    }
}

/// Appending a step to a list appends its meaning to the trace.
pub proof fn lemma_trace_push(steps: Seq<Step>, step: Step)
    ensures
        trace(steps.push(step)) == trace(steps).push(step@),
{
}

/// Appends one step to a script under construction.
pub fn emit(out: &mut Vec<Step>, step: Step)
    ensures
        final(out)@ == old(out)@.push(step),
        trace(final(out)@) == trace(old(out)@).push(step@),
{
    proof {
        lemma_trace_push(out@, step);
    }
    out.push(step);
}

/// The two bytes of a word, high byte first.
pub fn be_bytes(word: u16) -> (bytes: Vec<u8>)
    ensures
        bytes@ == word_bytes(word),
{
    let mut bytes: Vec<u8> = Vec::with_capacity(2);
    bytes.push((word / 256) as u8);
    bytes.push((word % 256) as u8);
    bytes
}

} // verus!
