use oxi_harness::capture::{PanicEvent, Payload};
use oxi_harness::child::{ExitPlan, HostCommand};
use oxi_harness::outcome::{Location, Outcome, PanicRecord};
use oxi_harness::terminator::{
    plugin_body_with_terminator, AsyncWakeHandle, TerminationSlot, TestFailure, TestTerminator,
    Wake,
};

#[test]
fn slot_starts_empty() {
    let slot = TerminationSlot::new();
    assert_eq!(slot.get(), None);
}

#[test]
fn slot_is_written_once() {
    let mut slot = TerminationSlot::new();
    assert_eq!(slot.set(Outcome::LogicalFailure("first".to_owned())), Ok(()));
    assert_eq!(slot.get(), Some(&Outcome::LogicalFailure("first".to_owned())));
    assert_eq!(slot.set(Outcome::Success), Err(Outcome::Success));
    assert_eq!(slot.get(), Some(&Outcome::LogicalFailure("first".to_owned())));
    assert_eq!(
        slot.set(Outcome::LogicalFailure("third".to_owned())),
        Err(Outcome::LogicalFailure("third".to_owned()))
    );
    assert_eq!(slot.get(), Some(&Outcome::LogicalFailure("first".to_owned())));
}

#[test]
fn completion_plans_the_exit_on_what_the_slot_holds() {
    let mut slot = TerminationSlot::new();
    assert_eq!(slot.set(Outcome::Success), Ok(()));
    assert_eq!(slot.completion(), ExitPlan { report: None, command: HostCommand::QuitAll });
    let mut slot = TerminationSlot::new();
    assert_eq!(slot.set(Outcome::LogicalFailure("boom".to_owned())), Ok(()));
    assert_eq!(
        slot.completion(),
        ExitPlan { report: Some("error:boom".to_owned()), command: HostCommand::QuitWithError }
    );
}

#[test]
fn handle_fires_once() {
    let mut handle = AsyncWakeHandle::new();
    assert!(!handle.has_fired());
    assert_eq!(handle.send(), Wake::Scheduled);
    assert!(handle.has_fired());
    assert_eq!(handle.send(), Wake::Ignored);
    assert_eq!(handle.send(), Wake::Ignored);
    assert!(handle.has_fired());
}

#[test]
fn fresh_terminator_holds_nothing() {
    let terminator = TestTerminator::new();
    assert_eq!(terminator.slot().get(), None);
    assert!(!terminator.wake_handle().has_fired());
}

#[test]
fn terminate_stores_success_and_wakes() {
    let done = TestTerminator::new().terminate(Ok::<(), TestFailure<'_, String>>(()));
    assert_eq!(done.result, Ok(Wake::Scheduled));
    assert_eq!(done.state.slot().get(), Some(&Outcome::Success));
    assert!(done.state.wake_handle().has_fired());
}

#[test]
fn terminate_stores_an_error_as_text() {
    let done = TestTerminator::new().terminate(Err(TestFailure::Error("boom")));
    assert_eq!(done.result, Ok(Wake::Scheduled));
    assert_eq!(done.state.slot().get(), Some(&Outcome::LogicalFailure("boom".to_owned())));
    assert_eq!(
        done.state.slot().completion(),
        ExitPlan { report: Some("error:boom".to_owned()), command: HostCommand::QuitWithError }
    );
}

#[test]
fn terminate_stores_a_panic_as_it_is_captured() {
    let event = PanicEvent {
        payload: Payload { slice: Some("oops".to_owned()), owned: None, owned_ref: None },
        thread: None,
        location: Some(Location { file: "file.rs".to_owned(), line: 42, column: 7 }),
    };
    let done = TestTerminator::new().terminate(Err(TestFailure::<String>::Panic(&event)));
    assert_eq!(done.result, Ok(Wake::Scheduled));
    assert_eq!(
        done.state.slot().get(),
        Some(&Outcome::Panic(PanicRecord {
            message: "oops".to_owned(),
            thread: "<unnamed>".to_owned(),
            location: Some(Location { file: "file.rs".to_owned(), line: 42, column: 7 }),
        }))
    );
}

#[test]
fn terminating_twice_is_rejected() {
    let first = TestTerminator::new().terminate(Err(TestFailure::Error("first")));
    assert_eq!(first.result, Ok(Wake::Scheduled));
    let second = first.state.terminate(Err(TestFailure::Error("second")));
    assert_eq!(second.result, Err(Outcome::LogicalFailure("second".to_owned())));
    assert_eq!(second.state.slot().get(), Some(&Outcome::LogicalFailure("first".to_owned())));
    let third = second.state.finish(Outcome::Success);
    assert_eq!(third.result, Err(Outcome::Success));
    assert_eq!(third.state.slot().get(), Some(&Outcome::LogicalFailure("first".to_owned())));
}

#[test]
fn the_loop_is_woken_at_most_once() {
    let mut state = TestTerminator::new();
    let mut wakes = 0;
    for round in 0..5 {
        let done = state.finish(Outcome::LogicalFailure(format!("{round}")));
        if done.result == Ok(Wake::Scheduled) {
            wakes += 1;
        }
        state = done.state;
    }
    assert_eq!(wakes, 1);
    assert_eq!(state.slot().get(), Some(&Outcome::LogicalFailure("0".to_owned())));
}

#[test]
fn a_handle_that_has_fired_is_not_fired_again() {
    let mut handle = AsyncWakeHandle::new();
    assert_eq!(handle.send(), Wake::Scheduled);
    let done = TestTerminator::over(TerminationSlot::new(), handle).finish(Outcome::Success);
    assert_eq!(done.result, Ok(Wake::Ignored));
    assert_eq!(done.state.slot().get(), Some(&Outcome::Success));
}

#[test]
fn a_slot_that_is_taken_leaves_the_handle_alone() {
    let mut slot = TerminationSlot::new();
    assert_eq!(slot.set(Outcome::Success), Ok(()));
    let done = TestTerminator::over(slot, AsyncWakeHandle::new())
        .finish(Outcome::LogicalFailure("late".to_owned()));
    assert_eq!(done.result, Err(Outcome::LogicalFailure("late".to_owned())));
    assert!(!done.state.wake_handle().has_fired());
    assert_eq!(done.state.slot().get(), Some(&Outcome::Success));
}

#[test]
fn the_body_is_run_once_on_a_fresh_terminator() {
    let mut runs = 0;
    let mut handed = None;
    plugin_body_with_terminator(|terminator| {
        runs += 1;
        handed = Some(terminator);
    });
    assert_eq!(runs, 1);
    assert_eq!(handed, Some(TestTerminator::new()));
}

#[test]
fn a_body_may_end_itself_at_once() {
    let mut done = None;
    plugin_body_with_terminator(|terminator| {
        done = Some(terminator.terminate(Err(TestFailure::Error("boom"))));
    });
    let done = done.unwrap();
    assert_eq!(done.result, Ok(Wake::Scheduled));
    assert_eq!(done.state.slot().completion().report.as_deref(), Some("error:boom"));
}
