//! From a panic as the runtime reports it to the record that is kept of it.
//!
//! The runtime hands a panic hook an opaque payload, the place of the panic
//! and nothing else; the name of the thread is asked for separately. The
//! caller of this module writes down what it found as a [`PanicEvent`], plain
//! data, and the rules of what becomes of it are here.

use crate::outcome::{Location, LocationView, PanicRecord, PanicRecordView};
use vstd::prelude::*;

verus! {

/// The ways in which the payload of a panic may be a text.
#[derive(Debug, Clone, Copy, PartialEq, Eq, Structural)]
pub enum Representation {
    /// A borrowed string slice, as `panic!("literal")` carries.
    Slice,
    /// An owned string, as `panic!("{}", value)` carries.
    Owned,
    /// A reference to an owned string.
    OwnedRef,
}

/// What each attempt to read the payload of a panic as a text gave. An
/// attempt that failed is `None`.
#[derive(Debug, PartialEq, Eq)]
pub struct Payload {
    pub slice: Option<String>,
    pub owned: Option<String>,
    pub owned_ref: Option<String>,
}

/// A panic as the runtime reports it: the payload, the name of the thread the
/// hook runs on, if it has one, and the place of the panic, if the runtime
/// gives one.
#[derive(Debug, PartialEq, Eq)]
pub struct PanicEvent {
    pub payload: Payload,
    pub thread: Option<String>,
    pub location: Option<Location>,
}

/// Where the panic hook keeps the record of the first panic, for whoever
/// catches the panic to find. A later panic leaves it as it is.
#[derive(Debug, PartialEq, Eq)]
pub struct CaptureSlot {
    record: Option<PanicRecord>,
}

/// A [`Payload`] as mathematics.
pub struct PayloadView {
    pub slice: Option<Seq<char>>,
    pub owned: Option<Seq<char>>,
    pub owned_ref: Option<Seq<char>>,
}

/// A [`PanicEvent`] as mathematics.
pub struct PanicEventView {
    pub payload: PayloadView,
    pub thread: Option<Seq<char>>,
    pub location: Option<LocationView>,
}

impl View for Payload {
    type V = PayloadView;

    open spec fn view(&self) -> PayloadView {
        PayloadView {
            slice: self.slice.deep_view(),
            owned: self.owned.deep_view(),
            owned_ref: self.owned_ref.deep_view(),
        }
    }
}

impl View for PanicEvent {
    type V = PanicEventView;

    open spec fn view(&self) -> PanicEventView {
        PanicEventView {
            payload: self.payload@,
            thread: self.thread.deep_view(),
            location: match self.location {
                Some(location) => Some(location@),
                None => None,
            },
        }
    }
}

impl View for CaptureSlot {
    type V = Option<PanicRecordView>;

    closed spec fn view(&self) -> Option<PanicRecordView> {
        match self.record {
            Some(record) => Some(record@),
            None => None,
        }
    }
}

/// What the slot holds after a panic: the record of that panic if it held
/// nothing, and what it held before if it held something.
pub open spec fn kept(held: Option<PanicRecordView>, event: PanicEventView) -> Option<
    PanicRecordView,
> {
    match held {
        Some(_) => held,
        None => Some(captured(event)),
    }
}

/// What the slot holds after each of `events` in turn.
pub open spec fn kept_after(held: Option<PanicRecordView>, events: Seq<PanicEventView>) -> Option<
    PanicRecordView,
>
    decreases events.len(),
{
    if events.len() == 0 {
        held
    } else {
        kept_after(kept(held, events[0]), events.drop_first())
    }
}

/// The first panic is the one that is kept: after any number of panics, an
/// empty slot holds the record of the first of them, and a slot that held a
/// record holds it still.
pub proof fn law_first_panic_is_kept(held: Option<PanicRecordView>, events: Seq<PanicEventView>)
    ensures
        held is Some ==> kept_after(held, events) == held,
        held is None && events.len() > 0 ==> kept_after(held, events) == Some(
            captured(events[0]),
        ),
        held is None && events.len() == 0 ==> kept_after(held, events) is None,
    decreases events.len(),
{
    if events.len() > 0 {
        law_first_panic_is_kept(kept(held, events[0]), events.drop_first());
    }
}

/// What reading the payload in one representation gives.
pub open spec fn probed(payload: PayloadView, representation: Representation) -> Option<
    Seq<char>,
> {
    match representation {
        Representation::Slice => payload.slice,
        Representation::Owned => payload.owned,
        Representation::OwnedRef => payload.owned_ref,
    }
}

/// The message of a payload: the first representation that can be read, a
/// string slice before an owned string before a reference to one; the empty
/// text where none can.
pub open spec fn payload_message(payload: PayloadView) -> Seq<char> {
    match payload.slice {
        Some(text) => text,
        None => match payload.owned {
            Some(text) => text,
            None => match payload.owned_ref {
                Some(text) => text,
                None => Seq::empty(),
            },
        },
    }
}

/// The name under which a thread without a name is recorded.
pub open spec fn unnamed_thread() -> Seq<char> {
    "<unnamed>"@
}

/// The name under which a thread is recorded: its own, unless it has none or
/// an empty one.
pub open spec fn recorded_thread(name: Option<Seq<char>>) -> Seq<char> {
    match name {
        Some(name) => if name.len() > 0 {
            name
        } else {
            unnamed_thread()
        },
        None => unnamed_thread(),
    }
}

/// The record that is kept of a panic.
pub open spec fn captured(event: PanicEventView) -> PanicRecordView {
    PanicRecordView {
        message: payload_message(event.payload),
        thread: recorded_thread(event.thread),
        location: event.location,
    }
}

/// The record under which a panic is shown by the process that asked for the
/// test. `carried` is the record that came from the process that ran it, where
/// the payload of the panic is such a record. The thread named is the one the
/// hook runs on, if it has a name that is not empty; else the one recorded.
pub open spec fn resurfaced(carried: Option<PanicRecordView>, event: PanicEventView)
    -> PanicRecordView {
    let base = match carried {
        Some(record) => record,
        None => captured(event),
    };
    match event.thread {
        Some(name) => if name.len() > 0 {
            PanicRecordView { thread: name, ..base }
        } else {
            base
        },
        None => base,
    }
}

/// Reads the payload in one representation.
pub fn downcast_display(value: &Payload, representation: Representation) -> (shown: Option<&String>)
    ensures
        shown.deep_view() == probed(value@, representation),
{
    match representation {
        Representation::Slice => value.slice.as_ref(),
        Representation::Owned => value.owned.as_ref(),
        Representation::OwnedRef => value.owned_ref.as_ref(),
    }
}

impl Payload {
    /// The message that the payload carries.
    pub fn message(&self) -> (text: String)
        ensures
            text@ == payload_message(self@),
    {
        match downcast_display(self, Representation::Slice) {
            Some(text) => text.clone(),
            None => match downcast_display(self, Representation::Owned) {
                Some(text) => text.clone(),
                None => match downcast_display(self, Representation::OwnedRef) {
                    Some(text) => text.clone(),
                    None => String::new(),
                },
            },
        }
    }
}

impl PanicRecord {
    /// The record that is kept of a panic.
    pub fn capture(event: &PanicEvent) -> (record: PanicRecord)
        ensures
            record@ == captured(event@),
    {
        let thread = match &event.thread {
            Some(name) => if !name.as_str().is_empty() {
                name.clone()
            } else {
                "<unnamed>".to_owned()
            },
            None => "<unnamed>".to_owned(),
        };
        let location = match &event.location {
            Some(location) => Some(location.clone()),
            None => None,
        };
        PanicRecord { message: event.payload.message(), thread, location }
    }

    /// The record under which a panic is shown by the process that asked for
    /// the test.
    pub fn resurface(carried: Option<PanicRecord>, event: &PanicEvent) -> (record: PanicRecord)
        ensures
            record@ == resurfaced(
                match carried {
                    Some(record) => Some(record@),
                    None => None,
                },
                event@,
            ),
    {
        let base = match carried {
            Some(record) => record,
            None => PanicRecord::capture(event),
        };
        match &event.thread {
            Some(name) => if !name.as_str().is_empty() {
                PanicRecord { message: base.message, thread: name.clone(), location: base.location }
            } else {
                base
            },
            None => base,
        }
    }
}

impl CaptureSlot {
    /// An empty slot.
    pub fn new() -> (slot: Self)
        ensures
            slot@ is None,
    {
        CaptureSlot { record: None }
    }

    /// Keeps the record of a panic, unless one is kept already.
    pub fn record(&mut self, event: &PanicEvent)
        ensures
            final(self)@ == kept(old(self)@, event@),
    {
        if self.record.is_none() {
            self.record = Some(PanicRecord::capture(event));
        }
    }

    /// The record that is kept.
    pub fn get(&self) -> (held: Option<&PanicRecord>)
        ensures
            match held {
                Some(record) => self@ == Some(record@),
                None => self@ is None,
            },
    {
        self.record.as_ref()
    }

    /// Gives up the record that is kept.
    pub fn into_record(self) -> (held: Option<PanicRecord>)
        ensures
            match held {
                Some(record) => self@ == Some(record@),
                None => self@ is None,
            },
    {
        self.record
    }
}

} // verus!
