use oxi_harness::capture::{CaptureSlot, PanicEvent, Payload};
use oxi_harness::child::{classify, exit, plugin_body, ExitPlan, HostCommand, IntoResult};
use oxi_harness::outcome::{Location, Outcome, PanicRecord};

fn record() -> PanicRecord {
    PanicRecord {
        message: "oops".to_owned(),
        thread: "main".to_owned(),
        location: Some(Location { file: "file.rs".to_owned(), line: 42, column: 7 }),
    }
}

fn empty() -> CaptureSlot {
    CaptureSlot::new()
}

fn filled() -> CaptureSlot {
    let mut slot = CaptureSlot::new();
    slot.record(&PanicEvent {
        payload: Payload { slice: Some("oops".to_owned()), owned: None, owned_ref: None },
        thread: Some("main".to_owned()),
        location: Some(Location { file: "file.rs".to_owned(), line: 42, column: 7 }),
    });
    slot
}

#[test]
fn commands_are_those_of_the_editor() {
    assert_eq!(HostCommand::QuitAll.text(), "qall!");
    assert_eq!(HostCommand::QuitWithError.text(), "cquit 1");
}

#[test]
fn only_success_leaves_with_status_zero() {
    assert_eq!(HostCommand::QuitAll.status(), 0);
    assert_eq!(HostCommand::QuitWithError.status(), 1);
}

#[test]
fn unit_and_ok_are_success() {
    assert_eq!(().into_result(), Ok(()));
    assert_eq!(Ok::<(), String>(()).into_result(), Ok(()));
    assert_eq!(Err::<(), &str>("boom").into_result(), Err("boom"));
}

#[test]
fn success_exits_silently() {
    assert_eq!(exit(&Outcome::Success), ExitPlan { report: None, command: HostCommand::QuitAll });
}

#[test]
fn failure_exits_with_its_encoding() {
    assert_eq!(
        exit(&Outcome::LogicalFailure("boom".to_owned())),
        ExitPlan { report: Some("error:boom".to_owned()), command: HostCommand::QuitWithError }
    );
    assert_eq!(
        exit(&Outcome::Panic(record())),
        ExitPlan {
            report: Some("panic:oops\nthread:main\nfile:file.rs\nline:42\ncolumn:7".to_owned()),
            command: HostCommand::QuitWithError,
        }
    );
}

#[test]
fn classify_tells_return_from_panic() {
    assert_eq!(classify(Some(Ok(())), None), Outcome::Success);
    assert_eq!(classify(Some(Ok(())), Some(record())), Outcome::Success);
    assert_eq!(
        classify(Some(Err("boom".to_owned())), None),
        Outcome::LogicalFailure("boom".to_owned())
    );
    assert_eq!(classify(None, Some(record())), Outcome::Panic(record()));
}

#[test]
fn body_that_returns_nothing_ends_in_success() {
    let plan = plugin_body(Some(()), empty());
    assert_eq!(plan.report, None);
    assert_eq!(plan.command, HostCommand::QuitAll);
    assert_eq!(plan.command.status(), 0);
}

#[test]
fn body_that_returns_ok_ends_in_success() {
    let plan = plugin_body(Some(Ok::<(), std::fmt::Error>(())), filled());
    assert_eq!(plan, ExitPlan { report: None, command: HostCommand::QuitAll });
}

#[test]
fn body_that_returns_an_error_ends_in_a_logical_failure() {
    let plan = plugin_body(Some(Err::<(), &str>("boom")), empty());
    assert_eq!(plan.report.as_deref(), Some("error:boom"));
    assert_eq!(plan.command, HostCommand::QuitWithError);
    assert_ne!(plan.command.status(), 0);
}

#[test]
fn error_is_shown_as_it_shows_itself() {
    let error = "x".parse::<u32>().unwrap_err();
    let shown = error.to_string();
    let plan = plugin_body(Some(Err::<(), std::num::ParseIntError>(error)), empty());
    assert_eq!(plan.report, Some(format!("error:{shown}")));
}

#[test]
fn body_that_panicked_ends_in_the_captured_panic() {
    let plan = plugin_body(None::<()>, filled());
    assert_eq!(
        plan.report.as_deref(),
        Some("panic:oops\nthread:main\nfile:file.rs\nline:42\ncolumn:7")
    );
    assert_eq!(plan.command, HostCommand::QuitWithError);
}

struct Flag(bool);

impl IntoResult for Flag {
    type Error = String;

    fn into_result(self) -> Result<(), String> {
        if self.0 {
            Ok(())
        } else {
            Err("flag is down".to_owned())
        }
    }
}

#[test]
fn a_type_of_the_test_may_say_how_it_ended() {
    assert_eq!(plugin_body(Some(Flag(true)), empty()).command, HostCommand::QuitAll);
    assert_eq!(
        plugin_body(Some(Flag(false)), empty()).report.as_deref(),
        Some("error:flag is down")
    );
}
