use st7789::driver::ST7789;
use st7789::transfer::{rehearse, simulate, Error, Outcome, Transfer};
use st7789::wire::Step;

#[test]
fn transfer_hands_out_steps_in_order() {
    let mut transfer = Transfer::new(vec![Step::Command(1), Step::DelayUs(5)]);
    assert_eq!(transfer.current(), Some(&Step::Command(1)));
    assert!(transfer.advance::<()>(Outcome::Done).is_none());
    assert_eq!(transfer.current(), Some(&Step::DelayUs(5)));
    assert!(matches!(transfer.advance::<()>(Outcome::Done), Some(Ok(()))));
    assert_eq!(transfer.current(), None);
}

#[test]
fn transfer_of_nothing_has_no_step() {
    let transfer = Transfer::new(Vec::new());
    assert_eq!(transfer.current(), None);
}

#[test]
fn bus_fault_stops_the_transfer_with_display_error() {
    let mut transfer = Transfer::new(vec![Step::Command(1), Step::Command(2)]);
    let end = transfer.advance::<u8>(Outcome::BusFault);
    assert!(matches!(end, Some(Err(Error::DisplayError))));
    assert_eq!(transfer.current(), None);
}

#[test]
fn pin_fault_stops_the_transfer_with_its_source() {
    let mut transfer = Transfer::new(vec![Step::ResetHigh, Step::ResetLow]);
    let end = transfer.advance(Outcome::PinFault(42u8));
    assert!(matches!(end, Some(Err(Error::Pin(42)))));
    assert_eq!(transfer.current(), None);
}

#[test]
fn simulated_bus_answers_by_step_kind() {
    assert!(matches!(simulate(&Step::Command(1), false), Outcome::Done));
    assert!(matches!(simulate(&Step::Command(1), true), Outcome::BusFault));
    assert!(matches!(simulate(&Step::Data(vec![1]), true), Outcome::BusFault));
    assert!(matches!(simulate(&Step::ResetHigh, true), Outcome::PinFault(())));
    assert!(matches!(simulate(&Step::ResetLow, true), Outcome::PinFault(())));
    assert!(matches!(simulate(&Step::DelayUs(1), true), Outcome::Done));
}

#[test]
fn rehearsal_on_a_sound_bus_carries_out_everything() {
    let plan = ST7789::new(240, 320).init();
    let expected = plan.clone();
    let (carried, result) = rehearse(plan, None);
    assert!(matches!(result, Ok(())));
    assert_eq!(carried, expected);
}

#[test]
fn init_stops_at_the_step_that_fails() {
    let full = ST7789::new(240, 320).init();
    for n in 0..full.len() {
        let (carried, result) = rehearse(full.clone(), Some(n));
        match &full[n] {
            Step::DelayUs(_) => {
                assert!(matches!(result, Ok(())));
                assert_eq!(carried, full);
            }
            Step::ResetHigh | Step::ResetLow => {
                assert!(matches!(result, Err(Error::Pin(()))));
                assert_eq!(carried, full[..n].to_vec());
            }
            Step::Command(_) | Step::Data(_) => {
                assert!(matches!(result, Err(Error::DisplayError)));
                assert_eq!(carried, full[..n].to_vec());
            }
        }
    }
}

#[test]
fn init_failing_at_software_reset_sends_nothing_after_it() {
    let full = ST7789::new(240, 320).init();
    let (carried, result) = rehearse(full, Some(6));
    assert!(matches!(result, Err(Error::DisplayError)));
    assert_eq!(
        carried,
        vec![
            Step::ResetHigh,
            Step::DelayUs(10),
            Step::ResetLow,
            Step::DelayUs(10),
            Step::ResetHigh,
            Step::DelayUs(10),
        ]
    );
}

#[test]
fn failure_beyond_the_plan_never_happens() {
    let plan = ST7789::new(240, 320).set_pixel(1, 1, 0);
    let expected = plan.clone();
    let (carried, result) = rehearse(plan, Some(8));
    assert!(matches!(result, Ok(())));
    assert_eq!(carried, expected);
}

#[test]
fn rehearsal_of_an_empty_plan_succeeds() {
    let (carried, result) = rehearse(Vec::new(), Some(0));
    assert!(matches!(result, Ok(())));
    assert!(carried.is_empty());
}

#[test]
fn error_formats_for_debugging() {
    assert_eq!(format!("{:?}", Error::<u8>::DisplayError), "DisplayError");
    assert_eq!(format!("{:?}", Error::Pin(3u8)), "Pin(3)");
}
