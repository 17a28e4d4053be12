//! The side of the harness that runs inside the editor: what to make of the
//! way a test body ended, and how to end the editor's process over it.
//!
//! Nothing here touches the editor. The caller runs the test body, catches
//! what it throws, and carries out the [`ExitPlan`] that it is given.

use crate::capture::CaptureSlot;
use crate::outcome::{encoded, Outcome, OutcomeView, PanicRecord, PanicRecordView};
use vstd::prelude::*;
use vstd::string::to_string_from_display_ensures;

verus! {

/// What a test body may return: nothing, or a result whose error can be
/// shown. A test may return a type of its own that says how it ended.
pub trait IntoResult {
    type Error: core::fmt::Display;

    /// Turns the value into the result that it stands for.
    fn into_result(self) -> Result<(), Self::Error>;
}

impl IntoResult for () {
    type Error = core::convert::Infallible;

    fn into_result(self) -> (result: Result<(), Self::Error>)
        ensures
            result is Ok,
    {
        Ok(())
    }
}

impl<E: core::fmt::Display> IntoResult for Result<(), E> {
    type Error = E;

    fn into_result(self) -> (result: Result<(), Self::Error>)
        ensures
            result == self,
    {
        self
    }
}

/// Whether `outcome` is what a value returned by a test body amounts to:
/// success where the value stands for `Ok`, and a logical failure with the
/// error as it shows itself where it stands for an error.
pub open spec fn is_outcome_of_return<R: IntoResult>(returned: R, outcome: OutcomeView) -> bool {
    exists|result: Result<(), R::Error>| #[trigger]
        call_ensures(R::into_result, (returned,), result) && match result {
            Ok(()) => outcome == OutcomeView::Success,
            Err(error) => exists|message: String|
                {
                    &&& #[trigger] to_string_from_display_ensures(&error, message)
                    &&& outcome == OutcomeView::LogicalFailure(message@)
                },
        }
}

/// The command that ends the editor's process.
#[derive(Debug, Clone, Copy, PartialEq, Eq, Structural)]
pub enum HostCommand {
    /// Quit every window: the process leaves with status 0.
    QuitAll,
    /// Quit with an error: the process leaves with status 1.
    QuitWithError,
}

/// How the editor's process is to end: what to print on the error stream
/// first, if anything, and the command to give then.
#[derive(Debug, PartialEq, Eq)]
pub struct ExitPlan {
    pub report: Option<String>,
    pub command: HostCommand,
}

/// An [`ExitPlan`] as mathematics.
pub struct ExitPlanView {
    pub report: Option<Seq<char>>,
    pub command: HostCommand,
}

impl View for ExitPlan {
    type V = ExitPlanView;

    open spec fn view(&self) -> ExitPlanView {
        ExitPlanView { report: self.report.deep_view(), command: self.command }
    }
}

/// The text of a command, as the editor takes it.
pub open spec fn command_text(command: HostCommand) -> Seq<char> {
    match command {
        HostCommand::QuitAll => "qall!"@,
        HostCommand::QuitWithError => "cquit 1"@,
    }
}

/// The status with which the process leaves on a command.
pub open spec fn exit_status(command: HostCommand) -> int {
    match command {
        HostCommand::QuitAll => 0,
        HostCommand::QuitWithError => 1,
    }
}

/// How the process is to end on an outcome. Success prints nothing and
/// quits; every failure prints its encoding and quits with an error.
pub open spec fn exit_plan(outcome: OutcomeView) -> ExitPlanView {
    match outcome {
        OutcomeView::Success => ExitPlanView { report: None, command: HostCommand::QuitAll },
        _ => ExitPlanView {
            report: Some(encoded(outcome)),
            command: HostCommand::QuitWithError,
        },
    }
}

/// What to make of the way a test body ended. `returned` is what the body
/// returned, its error shown as text, or `None` where it panicked; `captured`
/// is the record that the panic hook kept.
pub open spec fn classified(
    returned: Option<Result<(), Seq<char>>>,
    captured: Option<PanicRecordView>,
) -> OutcomeView {
    match returned {
        Some(Ok(())) => OutcomeView::Success,
        Some(Err(message)) => OutcomeView::LogicalFailure(message),
        None => OutcomeView::Panic(captured->0),
    }
}

impl HostCommand {
    /// The text of the command, as the editor takes it.
    pub fn text(&self) -> (text: &'static str)
        ensures
            text@ == command_text(*self),
    {
        match self {
            HostCommand::QuitAll => "qall!",
            HostCommand::QuitWithError => "cquit 1",
        }
    }

    /// The status with which the process leaves on the command.
    pub fn status(&self) -> (status: i32)
        ensures
            status == exit_status(*self),
            status == 0 <==> *self == HostCommand::QuitAll,
    {
        match self {
            HostCommand::QuitAll => 0,
            HostCommand::QuitWithError => 1,
        }
    }
}

/// Plans the end of the process on an outcome.
pub fn exit(outcome: &Outcome) -> (plan: ExitPlan)
    ensures
        plan@ == exit_plan(outcome@),
{
    match outcome {
        Outcome::Success => ExitPlan { report: None, command: HostCommand::QuitAll },
        _ => ExitPlan { report: Some(outcome.encode()), command: HostCommand::QuitWithError },
    }
}

/// Says what to make of the way a test body ended.
///
/// A body that panicked leaves a record with the panic hook before the panic
/// reaches whoever catches it, so `captured` is there whenever `returned` is
/// not.
pub fn classify(returned: Option<Result<(), String>>, captured: Option<PanicRecord>) -> (outcome:
    Outcome)
    requires
        returned is None ==> captured is Some,
    ensures
        outcome@ == classified(
            match returned {
                Some(Ok(())) => Some(Ok(())),
                Some(Err(message)) => Some(Err(message@)),
                None => None,
            },
            match captured {
                Some(record) => Some(record@),
                None => None,
            },
        ),
{
    match returned {
        Some(Ok(())) => Outcome::Success,
        Some(Err(message)) => Outcome::LogicalFailure(message),
        None => match captured {
            Some(record) => Outcome::Panic(record),
            None => unreached(),
        },
    }
}

/// Plans the end of the process after a test body has run. `returned` is
/// what the body returned, or `None` where it panicked; `captured` is the
/// slot in which the panic hook kept its record.
///
/// A body that returned nothing or `Ok` ends the process in success. One
/// that returned an error ends it with a logical failure whose message is
/// the error as it shows itself. One that panicked ends it with the panic
/// that was captured; the hook runs before the panic reaches whoever catches
/// it, so the slot is filled by then.
pub fn plugin_body<R: IntoResult>(returned: Option<R>, captured: CaptureSlot) -> (plan: ExitPlan)
    requires
        returned is None ==> captured@ is Some,
    ensures
        match returned {
            Some(value) => exists|outcome: OutcomeView| #[trigger]
                is_outcome_of_return(value, outcome) && plan@ == exit_plan(outcome),
            None => plan@ == exit_plan(OutcomeView::Panic(captured@->0)),
        },
{
    let shown = match returned {
        Some(value) => {
            let result = value.into_result();
            match result {
                Ok(()) => {
                    assert(is_outcome_of_return(value, OutcomeView::Success));
                    Some(Ok(()))
                },
                Err(error) => {
                    let message = error.to_string();
                    assert(is_outcome_of_return(value, OutcomeView::LogicalFailure(message@)));
                    Some(Err(message))
                },
            }
        },
        None => None,
    };
    let outcome = classify(shown, captured.into_record());
    exit(&outcome)
}

} // verus!
