//! A harness that runs a test inside an editor's process and brings its
//! outcome back to the process that asked for it.
//!
//! The editor is started on a compiled test ([`parent`]); inside it the test
//! body runs, at once ([`child`]) or until it ends itself from a callback
//! ([`terminator`]); how it ended ([`outcome`], [`capture`]) is printed on the
//! error stream in a small text format, whose laws are in [`wire_laws`]; and
//! the process that asked reads it back and passes it on ([`parent`]).
//!
//! Nothing in this library starts a process, installs a hook or talks to
//! the editor: it says what is to be done and what things mean, and is told
//! what happened.

pub mod capture;
pub mod child;
pub mod decimal;
pub mod metadata;
pub mod outcome;
pub mod parent;
pub mod terminator;
pub mod text;
pub mod wire_laws;

pub use capture::{downcast_display, CaptureSlot, PanicEvent, Payload, Representation};
pub use child::{exit, plugin_body, ExitPlan, HostCommand, IntoResult};
pub use metadata::target_dir;
pub use outcome::{DecodeError, Location, Outcome, PanicRecord};
pub use parent::{run_nvim_command, test_body, Invocation, ProcessOutput, Report, Verdict};
pub use terminator::{
    plugin_body_with_terminator, AsyncWakeHandle, Terminated, TerminationSlot, TestFailure,
    TestTerminator, Wake,
};
