//! Carrying a script out step by step, and stopping at the first failure.

use vstd::prelude::*;
use crate::wire::{emit, trace, Step, StepView};

verus! {

/// An error holding its source (pins or bus).
#[derive(Debug)]
pub enum Error<PinE> {
    /// The bus refused a command or data.
    DisplayError,
    /// The reset line could not be driven.
    Pin(PinE),
}

/// What came of performing one step on the hardware.
pub enum Outcome<PinE> {
    /// The step was carried out.
    Done,
    /// The bus, or the control line beside it, failed.
    BusFault,
    /// The reset line failed.
    PinFault(PinE),
}

/// Where a transfer stands: its script, how many steps were carried out, and
/// whether a failure has stopped it.
pub struct TransferView {
    pub script: Seq<StepView>,
    pub done: nat,
    pub halted: bool,
}

/// A script on its way to the controller.
pub struct Transfer {
    steps: Vec<Step>,
    cursor: usize,
    halted: bool,
}

/// Whether a transfer still has a step to hand out.
pub open spec fn pending(state: TransferView) -> bool {
    !state.halted && state.done < state.script.len()
}

/// The transfer after the step it handed out came back with `succeeded`.
pub open spec fn after_step(state: TransferView, succeeded: bool) -> TransferView {
    if succeeded {
        TransferView { done: state.done + 1, ..state }
    } else {
        TransferView { halted: true, ..state }
    }
}

/// How the transfer ends, if the outcome of the step it handed out ends it:
/// with success after the last step, with the matching error after a failure.
pub open spec fn verdict<PinE>(state: TransferView, outcome: Outcome<PinE>) -> Option<
    Result<(), Error<PinE>>,
> {
    match outcome {
        Outcome::Done => if state.done + 1 == state.script.len() {
            Some(Ok(()))
        } else {
            None
        },
        Outcome::BusFault => Some(Err(Error::DisplayError)),
        Outcome::PinFault(source) => Some(Err(Error::Pin(source))),
    }
}

impl View for Transfer {
    type V = TransferView;

    closed spec fn view(&self) -> TransferView {
        TransferView {
            script: trace(self.steps@),
            done: self.cursor as nat,
            halted: self.halted,
        }
    }
}

impl Transfer {
    #[verifier::type_invariant]
    spec fn well_formed(&self) -> bool {
        self.cursor <= self.steps.len()
    }

    /// Starts a transfer of `steps`, none carried out yet.
    pub fn new(steps: Vec<Step>) -> (transfer: Self)
        ensures
            transfer@ == (TransferView { script: trace(steps@), done: 0, halted: false }),
    {
        Transfer { steps, cursor: 0, halted: false }
    }

    /// The step to perform next; none once every step is done or one has
    /// failed.
    pub fn current(&self) -> (step: Option<&Step>)
        ensures
            self@.done <= self@.script.len(),
            step is Some <==> pending(self@),
            step is Some ==> step.unwrap()@ == self@.script[self@.done as int],
    {
        proof {
            use_type_invariant(self);
        }
        if !self.halted && self.cursor < self.steps.len() {
            Some(&self.steps[self.cursor])
        } else {
            None
        }
    }

    /// Takes in what came of the step handed out last. A step carried out
    /// moves the transfer on; a failure stops it for good. Returns how the
    /// transfer ended, if this ended it.
    pub fn advance<PinE>(&mut self, outcome: Outcome<PinE>) -> (end: Option<
        Result<(), Error<PinE>>,
    >)
        requires
            pending(old(self)@),
        ensures
            final(self)@ == after_step(old(self)@, outcome is Done),
            end == verdict(old(self)@, outcome),
    {
        proof {
            use_type_invariant(&*self);
        }
        match outcome {
            Outcome::Done => {
                self.cursor = self.cursor + 1;
                if self.cursor == self.steps.len() {
                    Some(Ok(()))
                } else {
                    None
                }
            },
            Outcome::BusFault => {
                self.halted = true;
                Some(Err(Error::DisplayError))
            },
            Outcome::PinFault(source) => {
                self.halted = true;
                Some(Err(Error::Pin(source)))
            },
        }
    }
}

/// Whether a step can fail at all: a pause cannot.
pub open spec fn can_fail(step: StepView) -> bool {
    !(step is DelayUs)
}

/// What a failing step reports: the reset line a pin fault, the bus a bus
/// fault.
pub open spec fn fault_of(step: StepView) -> Error<()> {
    match step {
        StepView::ResetHigh | StepView::ResetLow => Error::Pin(()),
        _ => Error::DisplayError,
    }
}

/// Whether a bus that breaks at step `fail_at` breaks while `script` runs.
pub open spec fn breaks(script: Seq<StepView>, fail_at: Option<usize>) -> bool {
    fail_at is Some && fail_at.unwrap() < script.len() && can_fail(
        script[fail_at.unwrap() as int],
    )
}

/// What a simulated bus answers to a step: done, unless the bus is broken
/// and the step can fail; then the fault of the line the step uses.
pub open spec fn simulated_outcome(step: StepView, broken: bool) -> Outcome<()> {
    if broken && can_fail(step) {
        match step {
            StepView::ResetHigh | StepView::ResetLow => Outcome::PinFault(()),
            _ => Outcome::BusFault,
        }
    } else {
        Outcome::Done
    }
}

/// The answer of a simulated bus to `step`.
pub fn simulate(step: &Step, broken: bool) -> (outcome: Outcome<()>)
    ensures
        outcome == simulated_outcome(step@, broken),
{
    if !broken {
        Outcome::Done
    } else {
        match step {
            Step::DelayUs(_) => Outcome::Done,
            Step::ResetHigh | Step::ResetLow => Outcome::PinFault(()),
            Step::Command(_) | Step::Data(_) => Outcome::BusFault,
        }
    }
}

/// Runs `plan` against a simulated bus that breaks at the step with index
/// `fail_at`, if any. Returns the steps the bus carried out and how the
/// transfer ended: every step and success on a bus that holds; the steps
/// before the broken one, that step's error, and nothing after it on a bus
/// that breaks.
pub fn rehearse(plan: Vec<Step>, fail_at: Option<usize>) -> (run: (Vec<Step>, Result<(), Error<()>>))
    ensures
        breaks(trace(plan@), fail_at) ==> {
            &&& trace(run.0@) == trace(plan@).take(fail_at.unwrap() as int)
            &&& run.1 == Err::<(), Error<()>>(fault_of(trace(plan@)[fail_at.unwrap() as int]))
        },
        !breaks(trace(plan@), fail_at) ==> {
            &&& trace(run.0@) == trace(plan@)
            &&& run.1 == Ok::<(), Error<()>>(())
        },
{
    let ghost script = trace(plan@);
    let mut transfer = Transfer::new(plan);
    let mut carried: Vec<Step> = Vec::new();
    let mut index: usize = 0;
    loop
        invariant
            script == trace(plan@),
            transfer@ == (TransferView { script, done: index as nat, halted: false }),
            index <= script.len(),
            trace(carried@) == script.take(index as int),
            fail_at is Some && fail_at.unwrap() < index ==> !can_fail(
                script[fail_at.unwrap() as int],
            ),
        decreases script.len() - index,
    {
        let step = match transfer.current() {
            Some(step) => step.clone(),
            None => {
                return (carried, Ok(()));
            },
        };
        let broken = match fail_at {
            Some(n) => n == index,
            None => false,
        };
        let outcome = simulate(&step, broken);
        let end = match outcome {
            Outcome::Done => {
                emit(&mut carried, step);
                transfer.advance(Outcome::Done)
            },
            Outcome::BusFault => transfer.advance(Outcome::BusFault),
            Outcome::PinFault(source) => transfer.advance(Outcome::PinFault(source)),
        };
        match end {
            Some(result) => {
                return (carried, result);
            },
            None => {
                index = index + 1;
            },
        }
    }
}

/// A failure is final: the transfer hands out no further step, and the
/// count of steps carried out stays where it was.
pub proof fn lemma_failure_is_final(state: TransferView)
    ensures
        !pending(after_step(state, false)),
        after_step(state, false).done == state.done,
        after_step(state, false).script == state.script,
{
}

} // verus!
