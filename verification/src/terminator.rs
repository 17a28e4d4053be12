//! Ending a test later: from a callback of the editor's event loop, after
//! the function that started the test has long returned.
//!
//! A test that wants this takes a [`TestTerminator`] and, when it is done,
//! calls [`TestTerminator::terminate`] on it. That stores the outcome in a
//! slot that is written once, and wakes the event loop, once; on waking, the
//! loop reads the slot and ends the process as [`exit`] plans it.
//!
//! This module holds the rules and no machinery. The slot and the wake
//! handle are plain state: `terminate` gives back the state it leaves and
//! says whether the loop is to be woken, and the caller, who owns the real
//! handle, does the waking.

use crate::capture::{captured, PanicEvent};
use crate::child::{exit, exit_plan, ExitPlan};
use crate::outcome::{Outcome, OutcomeView, PanicRecord};
use vstd::prelude::*;
use vstd::string::to_string_from_display_ensures;

verus! {

/// Why a test failed, as the test itself reports it.
pub enum TestFailure<'a, E> {
    /// The test came upon an error.
    Error(E),
    /// The test caught a panic, which a panic hook reported as this event.
    Panic(&'a PanicEvent),
}

/// Whether the loop is to be woken.
#[derive(Debug, Clone, Copy, PartialEq, Eq, Structural)]
pub enum Wake {
    /// The handle fires now: the loop is to run the completion, once.
    Scheduled,
    /// The handle had fired before: nothing more is to happen.
    Ignored,
}

/// A cell that is written at most once and holds the outcome of a test.
#[derive(Debug, PartialEq, Eq)]
pub struct TerminationSlot {
    value: Option<Outcome>,
}

/// The signal that wakes the event loop. It fires once; sending it again
/// changes nothing.
#[derive(Debug, PartialEq, Eq)]
pub struct AsyncWakeHandle {
    fired: bool,
}

/// The handle with which a test ends itself.
#[derive(Debug, PartialEq, Eq)]
pub struct TestTerminator {
    lock: TerminationSlot,
    handle: AsyncWakeHandle,
}

/// What [`TestTerminator::terminate`] did: the state it left, and either the
/// wake that followed the storing of the outcome, or the outcome back, where
/// the slot was taken and nothing was done.
#[derive(Debug, PartialEq, Eq)]
pub struct Terminated {
    pub state: TestTerminator,
    pub result: Result<Wake, Outcome>,
}

/// A [`TestTerminator`] as mathematics: what the slot holds and whether the
/// handle has fired.
pub struct TerminatorView {
    pub slot: Option<OutcomeView>,
    pub fired: bool,
}

/// A [`Terminated`] as mathematics.
pub struct TerminatedView {
    pub state: TerminatorView,
    pub result: Result<Wake, OutcomeView>,
}

impl View for TerminationSlot {
    type V = Option<OutcomeView>;

    closed spec fn view(&self) -> Option<OutcomeView> {
        match self.value {
            Some(outcome) => Some(outcome@),
            None => None,
        }
    }
}

impl View for AsyncWakeHandle {
    type V = bool;

    closed spec fn view(&self) -> bool {
        self.fired
    }
}

impl View for TestTerminator {
    type V = TerminatorView;

    closed spec fn view(&self) -> TerminatorView {
        TerminatorView { slot: self.lock@, fired: self.handle@ }
    }
}

impl View for Terminated {
    type V = TerminatedView;

    open spec fn view(&self) -> TerminatedView {
        TerminatedView {
            state: self.state@,
            result: match self.result {
                Ok(wake) => Ok(wake),
                Err(outcome) => Err(outcome@),
            },
        }
    }
}

/// The state in which a test receives its terminator: nothing stored,
/// nothing fired.
pub open spec fn fresh() -> TerminatorView {
    TerminatorView { slot: None, fired: false }
}

/// What sending a handle gives.
pub open spec fn wake_of(fired: bool) -> Wake {
    if fired {
        Wake::Ignored
    } else {
        Wake::Scheduled
    }
}

/// What ending a test with `outcome` does in state `state`. With the slot
/// empty, the outcome is stored and the handle is sent. With the slot taken,
/// nothing changes and the outcome comes back.
pub open spec fn finished(state: TerminatorView, outcome: OutcomeView) -> TerminatedView {
    match state.slot {
        None => TerminatedView {
            state: TerminatorView { slot: Some(outcome), fired: true },
            result: Ok(wake_of(state.fired)),
        },
        Some(_) => TerminatedView { state, result: Err(outcome) },
    }
}

/// Whether `outcome` is what a test's own report of its end amounts to:
/// success for `Ok`, a logical failure with the error as it shows itself,
/// or the panic as it is captured from the event.
pub open spec fn is_outcome_of<E: core::fmt::Display>(
    report: Result<(), TestFailure<'_, E>>,
    outcome: OutcomeView,
) -> bool {
    match report {
        Ok(()) => outcome == OutcomeView::Success,
        Err(TestFailure::Error(error)) => exists|message: String|
            {
                &&& #[trigger] to_string_from_display_ensures(&error, message)
                &&& outcome == OutcomeView::LogicalFailure(message@)
            },
        Err(TestFailure::Panic(event)) => outcome == OutcomeView::Panic(captured(event@)),
    }
}

/// The number of wakes scheduled when a test is ended with each of
/// `outcomes` in turn, from state `state` on.
pub open spec fn scheduled_wakes(state: TerminatorView, outcomes: Seq<OutcomeView>) -> nat
    decreases outcomes.len(),
{
    if outcomes.len() == 0 {
        0
    } else {
        let step = finished(state, outcomes[0]);
        let here: nat = if step.result == Ok::<Wake, OutcomeView>(Wake::Scheduled) {
            1
        } else {
            0
        };
        here + scheduled_wakes(step.state, outcomes.drop_first())
    }
}

/// The state left when a test is ended with each of `outcomes` in turn.
pub open spec fn state_after(state: TerminatorView, outcomes: Seq<OutcomeView>) -> TerminatorView
    decreases outcomes.len(),
{
    if outcomes.len() == 0 {
        state
    } else {
        state_after(finished(state, outcomes[0]).state, outcomes.drop_first())
    }
}

/// Single assignment. Once a test has been ended, ending it again is
/// refused: the outcome comes back, and neither the slot nor the handle
/// changes.
pub proof fn law_single_assignment(state: TerminatorView, first: OutcomeView, second: OutcomeView)
    ensures
        finished(finished(state, first).state, second).result == Err::<Wake, OutcomeView>(second),
        finished(finished(state, first).state, second).state == finished(state, first).state,
        state.slot is None ==> finished(state, first).state.slot == Some(first),
{
}

/// At most one wake. However often a test is ended, and from whatever
/// state, the loop is woken at most once; from the fresh state it is woken
/// exactly once if the test is ended at all, and the slot then holds the
/// first outcome.
pub proof fn law_at_most_one_wake(state: TerminatorView, outcomes: Seq<OutcomeView>)
    ensures
        scheduled_wakes(state, outcomes) <= 1,
        state.slot is Some || state.fired ==> scheduled_wakes(state, outcomes) == 0,
        state == fresh() && outcomes.len() > 0 ==> {
            &&& scheduled_wakes(state, outcomes) == 1
            &&& state_after(state, outcomes) == TerminatorView {
                slot: Some(outcomes[0]),
                fired: true,
            }
        },
    decreases outcomes.len(),
{
    if outcomes.len() > 0 {
        let step = finished(state, outcomes[0]);
        law_at_most_one_wake(step.state, outcomes.drop_first());
        lemma_settled(step.state, outcomes.drop_first());
    }
}

/// A state whose slot is taken is left as it is by every further ending.
proof fn lemma_settled(state: TerminatorView, outcomes: Seq<OutcomeView>)
    requires
        state.slot is Some,
    ensures
        state_after(state, outcomes) == state,
    decreases outcomes.len(),
{
    if outcomes.len() > 0 {
        lemma_settled(state, outcomes.drop_first());
    }
}

impl TerminationSlot {
    /// An empty slot.
    pub fn new() -> (slot: Self)
        ensures
            slot@ is None,
    {
        TerminationSlot { value: None }
    }

    /// Stores `outcome` if the slot is empty. Gives `outcome` back, and
    /// leaves the slot as it is, if it is not.
    pub fn set(&mut self, outcome: Outcome) -> (result: Result<(), Outcome>)
        ensures
            old(self)@ is None ==> result is Ok && final(self)@ == Some(outcome@),
            old(self)@ is Some ==> result == Err::<(), Outcome>(outcome) && *final(self) == *old(
                self,
            ),
    {
        if self.value.is_some() {
            Err(outcome)
        } else {
            self.value = Some(outcome);
            Ok(())
        }
    }

    /// What the slot holds.
    pub fn get(&self) -> (held: Option<&Outcome>)
        ensures
            match held {
                Some(outcome) => self@ == Some(outcome@),
                None => self@ is None,
            },
    {
        self.value.as_ref()
    }

    /// How the process is to end, read from the slot when the loop wakes.
    /// The loop wakes only after the slot has been written.
    pub fn completion(&self) -> (plan: ExitPlan)
        requires
            self@ is Some,
        ensures
            plan@ == exit_plan(self@->0),
    {
        match &self.value {
            Some(outcome) => exit(outcome),
            None => unreached(),
        }
    }
}

impl AsyncWakeHandle {
    /// A handle that has not fired.
    pub fn new() -> (handle: Self)
        ensures
            !handle@,
    {
        AsyncWakeHandle { fired: false }
    }

    /// Fires the handle. The first sending schedules the completion; every
    /// later one is ignored.
    pub fn send(&mut self) -> (wake: Wake)
        ensures
            final(self)@,
            wake == wake_of(old(self)@),
    {
        if self.fired {
            Wake::Ignored
        } else {
            self.fired = true;
            Wake::Scheduled
        }
    }

    /// Whether the handle has fired.
    pub fn has_fired(&self) -> (fired: bool)
        ensures
            fired == self@,
    {
        self.fired
    }
}

impl TestTerminator {
    /// A terminator over an empty slot and a handle that has not fired.
    pub fn new() -> (terminator: Self)
        ensures
            terminator@ == fresh(),
    {
        TestTerminator { lock: TerminationSlot::new(), handle: AsyncWakeHandle::new() }
    }

    /// A terminator over a given slot and handle.
    pub fn over(lock: TerminationSlot, handle: AsyncWakeHandle) -> (terminator: Self)
        ensures
            terminator@ == (TerminatorView { slot: lock@, fired: handle@ }),
    {
        TestTerminator { lock, handle }
    }

    /// The slot and the handle that the terminator is over.
    pub fn into_parts(self) -> (parts: (TerminationSlot, AsyncWakeHandle))
        ensures
            self@ == (TerminatorView { slot: parts.0@, fired: parts.1@ }),
    {
        (self.lock, self.handle)
    }

    /// The slot.
    pub fn slot(&self) -> (lock: &TerminationSlot)
        ensures
            lock@ == self@.slot,
    {
        &self.lock
    }

    /// The wake handle.
    pub fn wake_handle(&self) -> (handle: &AsyncWakeHandle)
        ensures
            handle@ == self@.fired,
    {
        &self.handle
    }

    /// Ends the test with `outcome`.
    pub fn finish(self, outcome: Outcome) -> (done: Terminated)
        ensures
            done@ == finished(self@, outcome@),
    {
        let mut lock = self.lock;
        let mut handle = self.handle;
        match lock.set(outcome) {
            Ok(()) => {
                let wake = handle.send();
                Terminated { state: TestTerminator { lock, handle }, result: Ok(wake) }
            },
            Err(outcome) => Terminated {
                state: TestTerminator { lock, handle },
                result: Err(outcome),
            },
        }
    }

    /// Ends the test with what it reports of itself: `Ok`, an error, which
    /// is shown as text, or a panic that it caught.
    pub fn terminate<E: core::fmt::Display>(self, res: Result<(), TestFailure<'_, E>>) -> (done:
        Terminated)
        ensures
            exists|outcome: OutcomeView| #[trigger]
                is_outcome_of(res, outcome) && done@ == finished(self@, outcome),
    {
        let outcome = match &res {
            Ok(()) => Outcome::Success,
            Err(TestFailure::Error(error)) => Outcome::LogicalFailure(error.to_string()),
            Err(TestFailure::Panic(event)) => Outcome::Panic(PanicRecord::capture(event)),
        };
        assert(is_outcome_of(res, outcome@));
        self.finish(outcome)
    }
}

/// Runs a test body that ends itself later, handing it a fresh terminator.
pub fn plugin_body_with_terminator<F>(test_body: F) where F: FnOnce(TestTerminator)
    requires
        forall|terminator: TestTerminator|
            terminator@ == fresh() ==> #[trigger] call_requires(test_body, (terminator,)),
    ensures
        exists|terminator: TestTerminator|
            terminator@ == fresh() && #[trigger] call_ensures(test_body, (terminator,), ()),
{
    let terminator = TestTerminator::new();
    let ghost handed = terminator;
    assert(call_requires(test_body, (handed,)));
    test_body(terminator);
    assert(call_ensures(test_body, (handed,), ()));
}

} // verus!
