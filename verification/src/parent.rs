//! The side of the harness that asks for a test: how the editor is to be
//! started on a compiled test, and what to make of what its process left
//! behind.
//!
//! The caller starts the process and waits for it; the rules of what is
//! started and of how the result reads are here.

use crate::child::{exit_plan, exit_status};
use crate::decimal::{format_i32, signed_decimal};
use crate::outcome::{decoded, encoded, Outcome, OutcomeView, PanicRecord, PanicRecordView};
use crate::text::is_blank;
use crate::wire_laws::{law_round_trip_padded, lemma_tags, survives};
use std::borrow::Cow;
use vstd::prelude::*;
use vstd::utf8::{decode_utf8, valid_utf8};

verus! {

/// What a process left behind: its exit code, unless a signal ended it, and
/// all that it wrote to its output and error streams.
#[derive(Debug, PartialEq, Eq)]
pub struct ProcessOutput {
    pub code: Option<i32>,
    pub stdout: Vec<u8>,
    pub stderr: Vec<u8>,
}

/// How a test ended, as the process that asked for it sees it.
#[derive(Debug, PartialEq, Eq)]
pub enum Verdict {
    /// The test passed.
    Passed,
    /// The test failed, for the reason given; to be returned as an error.
    Failed(String),
    /// The test panicked; the panic is to be raised again with this record.
    Panicked(PanicRecord),
}

/// What is to be done about a finished run: what to print on the output
/// stream, if anything, and the verdict.
#[derive(Debug, PartialEq, Eq)]
pub struct Report {
    pub echo: Option<String>,
    pub verdict: Verdict,
}

/// The program to start and the arguments to give it.
#[derive(Debug, PartialEq, Eq)]
pub struct Invocation {
    pub program: String,
    pub args: Vec<String>,
}

/// A [`Verdict`] as mathematics.
pub enum VerdictView {
    Passed,
    Failed(Seq<char>),
    Panicked(PanicRecordView),
}

/// A [`Report`] as mathematics.
pub struct ReportView {
    pub echo: Option<Seq<char>>,
    pub verdict: VerdictView,
}

/// An [`Invocation`] as mathematics.
pub struct InvocationView {
    pub program: Seq<char>,
    pub args: Seq<Seq<char>>,
}

impl View for Verdict {
    type V = VerdictView;

    open spec fn view(&self) -> VerdictView {
        match self {
            Verdict::Passed => VerdictView::Passed,
            Verdict::Failed(reason) => VerdictView::Failed(reason@),
            Verdict::Panicked(record) => VerdictView::Panicked(record@),
        }
    }
}

impl View for Report {
    type V = ReportView;

    open spec fn view(&self) -> ReportView {
        ReportView { echo: self.echo.deep_view(), verdict: self.verdict@ }
    }
}

impl View for Invocation {
    type V = InvocationView;

    open spec fn view(&self) -> InvocationView {
        InvocationView { program: self.program@, args: self.args.deep_view() }
    }
}

/// The text that `String::from_utf8_lossy` makes of `bytes`.
pub uninterp spec fn lossy_text(bytes: Seq<u8>) -> Seq<char>;

/// `String::from_utf8_lossy` is a function of the bytes alone, and on bytes
/// that are valid UTF-8 it gives the text that they encode. What it makes of
/// other bytes (it replaces each ill-formed run by U+FFFD) is not stated
/// here.
pub assume_specification[ std::string::String::from_utf8_lossy ](v: &[u8]) -> (text:
    std::borrow::Cow<'_, str>)
    ensures
        text@ == lossy_text(v@),
        valid_utf8(v@) ==> text@ == decode_utf8(v@),
;

/// What is printed on the output stream after a run: what the process wrote
/// there, as it wrote it, unless that is nothing.
pub open spec fn echoed(stdout: Seq<char>) -> Option<Seq<char>> {
    if stdout.len() > 0 {
        Some(stdout)
    } else {
        None
    }
}

/// What is said of a process that failed without a word.
pub open spec fn silent_failure(code: Option<i32>) -> Seq<char> {
    match code {
        Some(code) => "Neovim exited with non-zero exit code: "@ + signed_decimal(code as int),
        None => "Neovim segfaulted"@,
    }
}

/// The verdict on a run. Exit code 0 is a pass, whatever was written. Any
/// other end with an empty error stream is a failure described by the exit
/// code, or as a crash where a signal left none. Otherwise the error stream
/// decides: a logical failure fails with its message, a panic is a panic,
/// and a text that is neither fails with that text as it stands.
pub open spec fn verdict(code: Option<i32>, stderr: Seq<char>) -> VerdictView {
    if code == Some(0i32) {
        VerdictView::Passed
    } else if stderr.len() == 0 {
        VerdictView::Failed(silent_failure(code))
    } else {
        match decoded(stderr) {
            Ok(OutcomeView::Panic(record)) => VerdictView::Panicked(record),
            Ok(OutcomeView::LogicalFailure(message)) => VerdictView::Failed(message),
            _ => VerdictView::Failed(stderr),
        }
    }
}

/// What is to be done about a run that ended with `code` and wrote `stdout`
/// and `stderr`.
pub open spec fn reported(code: Option<i32>, stdout: Seq<char>, stderr: Seq<char>) -> ReportView {
    ReportView { echo: echoed(stdout), verdict: verdict(code, stderr) }
}

/// The name of the file that holds a compiled library, with the affixes that
/// the platform gives to dynamic libraries.
pub open spec fn library_file_name(prefix: Seq<char>, crate_name: Seq<char>, suffix: Seq<char>)
    -> Seq<char> {
    prefix + crate_name + suffix
}

/// The command that makes the editor load a compiled test and run it.
pub open spec fn load_command(library_path: Seq<char>, plugin_name: Seq<char>) -> Seq<char> {
    "lua local f = package.loadlib([["@ + library_path + "]], 'luaopen_"@ + plugin_name
        + "'); f()"@
}

/// What is said where the compiled test is not there.
pub open spec fn missing_library(library_path: Seq<char>) -> Seq<char> {
    "Compiled library not found in '"@ + library_path
        + "'. Please run `cargo build` before running the tests."@
}

/// The arguments with which the editor is started: no user configuration,
/// no screen, no shared data file, no swap files; then the setup command, if
/// there is one, and the command that loads the test. Where there is no
/// setup command, two empty arguments stand in its place.
pub open spec fn editor_arguments(
    library_path: Seq<char>,
    plugin_name: Seq<char>,
    extra_cmd: Option<Seq<char>>,
) -> Seq<Seq<char>> {
    let setup = match extra_cmd {
        Some(command) => seq!["-c"@, command],
        None => seq![Seq::<char>::empty(), Seq::<char>::empty()],
    };
    seq!["-u"@, "NONE"@, "--headless"@, "-i"@, "NONE"@, "-c"@, "set noswapfile"@] + setup + seq![
        "-c"@,
        load_command(library_path, plugin_name),
    ]
}

/// The name of the file that holds the compiled library of `crate_name`.
pub fn library_name(prefix: &str, crate_name: &str, suffix: &str) -> (name: String)
    ensures
        name@ == library_file_name(prefix@, crate_name@, suffix@),
{
    let mut name = prefix.to_owned();
    name.append(crate_name);
    name.append(suffix);
    name
}

/// Says how the editor is to be started on the compiled test at
/// `library_path`, whose entry point is named after `plugin_name`.
/// `library_exists` says whether there is a file at that path: where there
/// is none, nothing is to be started, and the error says what to do.
pub fn run_nvim_command(
    library_path: &str,
    library_exists: bool,
    plugin_name: &str,
    extra_cmd: Option<&str>,
) -> (command: Result<Invocation, String>)
    ensures
        library_exists ==> command is Ok && command->Ok_0@ == (InvocationView {
            program: "nvim"@,
            args: editor_arguments(library_path@, plugin_name@, extra_cmd.deep_view()),
        }),
        !library_exists ==> command is Err && command->Err_0@ == missing_library(library_path@),
{
    if !library_exists {
        let mut message = "Compiled library not found in '".to_owned();
        message.append(library_path);
        message.append("'. Please run `cargo build` before running the tests.");
        return Err(message);
    }
    let mut load_library = "lua local f = package.loadlib([[".to_owned();
    load_library.append(library_path);
    load_library.append("]], 'luaopen_");
    load_library.append(plugin_name);
    load_library.append("'); f()");
    let mut args: Vec<String> = Vec::new();
    args.push("-u".to_owned());
    args.push("NONE".to_owned());
    args.push("--headless".to_owned());
    args.push("-i".to_owned());
    args.push("NONE".to_owned());
    args.push("-c".to_owned());
    args.push("set noswapfile".to_owned());
    match extra_cmd {
        Some(command) => {
            args.push("-c".to_owned());
            args.push(command.to_owned());
        },
        None => {
            args.push(String::new());
            args.push(String::new());
        },
    }
    args.push("-c".to_owned());
    args.push(load_library);
    assert(args.deep_view() =~= editor_arguments(
        library_path@,
        plugin_name@,
        extra_cmd.deep_view(),
    ));
    Ok(Invocation { program: "nvim".to_owned(), args })
}

/// Judges a run from its exit code and the texts of its two streams.
pub fn judge(code: Option<i32>, stdout: &str, stderr: &str) -> (report: Report)
    ensures
        report@ == reported(code, stdout@, stderr@),
{
    let echo = if stdout.is_empty() {
        None
    } else {
        Some(stdout.to_owned())
    };
    let passed = match code {
        Some(code) => code == 0,
        None => false,
    };
    let verdict = if passed {
        Verdict::Passed
    } else if stderr.is_empty() {
        match code {
            Some(code) => {
                let mut reason = "Neovim exited with non-zero exit code: ".to_owned();
                let number = format_i32(code);
                reason.append(number.as_str());
                Verdict::Failed(reason)
            },
            None => Verdict::Failed("Neovim segfaulted".to_owned()),
        }
    } else {
        match Outcome::decode(stderr) {
            Ok(Outcome::Panic(record)) => Verdict::Panicked(record),
            Ok(Outcome::LogicalFailure(message)) => Verdict::Failed(message),
            _ => Verdict::Failed(stderr.to_owned()),
        }
    };
    Report { echo, verdict }
}

/// Judges a run from what its process left behind. The two streams are read
/// as text, with whatever is not valid UTF-8 replaced.
pub fn test_body(output: &ProcessOutput) -> (report: Report)
    ensures
        report@ == reported(output.code, lossy_text(output.stdout@), lossy_text(output.stderr@)),
{
    let stdout = String::from_utf8_lossy(output.stdout.as_slice());
    let stderr = String::from_utf8_lossy(output.stderr.as_slice());
    judge(output.code, text_of(&stdout), text_of(&stderr))
}

/// The text that a borrowed-or-owned string holds.
fn text_of<'a>(text: &'a Cow<'_, str>) -> (slice: &'a str)
    ensures
        slice@ == text@,
{
    match text {
        Cow::Borrowed(borrowed) => borrowed,
        Cow::Owned(owned) => owned.as_str(),
    }
}

/// Success is carried. A test that ended in success leaves the process
/// silent and with a status on which the run is a pass, whatever else the
/// editor wrote.
pub proof fn law_success_is_carried(stderr: Seq<char>)
    ensures
        exit_plan(OutcomeView::Success).report is None,
        verdict(Some(exit_status(exit_plan(OutcomeView::Success).command) as i32), stderr)
            == VerdictView::Passed,
{
}

/// Failure is carried. What the process that ran a test prints of a failure
/// that survives the wire, with the white space that printing may add
/// behind it, is judged by the process that asked for the test as that same
/// failure: a logical failure as an error with its message, a panic as a
/// panic with its record. The exit code does not matter, as long as it is
/// not 0, which the planned one is not.
pub proof fn law_failure_is_carried(outcome: OutcomeView, code: Option<i32>, padding: Seq<char>)
    requires
        survives(outcome),
        is_blank(padding),
        code != Some(0i32),
    ensures
        exit_plan(outcome).report == Some(encoded(outcome)),
        exit_status(exit_plan(outcome).command) != 0,
        verdict(code, encoded(outcome) + padding) == match outcome {
            OutcomeView::LogicalFailure(message) => VerdictView::Failed(message),
            OutcomeView::Panic(record) => VerdictView::Panicked(record),
            OutcomeView::Success => VerdictView::Passed,
        },
{
    lemma_tags();
    law_round_trip_padded(outcome, padding);
    assert(encoded(outcome).len() > 0);
}

} // verus!
