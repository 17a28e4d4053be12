//! How a test run ended, and the text in which that crosses from the process
//! that ran the test to the process that asked for it.
//!
//! The text is line oriented and carries no escaping:
//!
//! ```text
//! success          (nothing at all)
//! logical failure  error:<message>
//! panic            panic:<message>
//!                  thread:<thread>
//!                  file:<file>
//!                  line:<line>
//!                  column:<column>
//! ```
//!
//! The last three lines are written only for a panic whose location is known.
//! Reading looks for `error:` first, anywhere in the text, and only then for
//! the fields of a panic, each tag in turn. A field that holds one of the
//! tags that are looked for after it is therefore read back wrongly; the laws
//! of this format, in `wire_laws`, say exactly which outcomes survive the
//! journey.

use crate::decimal::{decimal, format_u32, parse_u32, parse_u32_range};
use crate::text::{chars_of, find_from, split_once, trim, trim_range};
use vstd::prelude::*;

verus! {

/// The place in the source at which a panic was raised.
#[derive(Debug, PartialEq, Eq)]
pub struct Location {
    pub file: String,
    pub line: u32,
    pub column: u32,
}

/// What is known of a panic: its message, the thread it was raised on, and
/// the place in the source, where the runtime gave one.
#[derive(Debug, PartialEq, Eq)]
pub struct PanicRecord {
    pub message: String,
    pub thread: String,
    pub location: Option<Location>,
}

/// How a test run ended.
#[derive(Debug, PartialEq, Eq)]
pub enum Outcome {
    /// The test body returned without complaint.
    Success,
    /// The test body returned a failure, here rendered as text.
    LogicalFailure(String),
    /// The test body panicked.
    Panic(PanicRecord),
}

/// Why a text is not the encoding of a failed outcome.
#[derive(Debug, Clone, Copy, PartialEq, Eq, Structural)]
pub enum DecodeError {
    /// The text holds neither `error:` nor `panic:`.
    MissingPanic,
    /// Nothing after `panic:` reads `thread:`.
    MissingThread,
    /// Nothing after `thread:` reads `file:`.
    MissingFile,
    /// Nothing after `file:` reads `line:`.
    MissingLine,
    /// Nothing after `line:` reads `column:`.
    MissingColumn,
    /// What stands between `line:` and `column:` is not a line number.
    InvalidLine,
    /// What stands after `column:` is not a column number.
    InvalidColumn,
}

/// A [`Location`] as mathematics.
pub struct LocationView {
    pub file: Seq<char>,
    pub line: u32,
    pub column: u32,
}

/// A [`PanicRecord`] as mathematics.
pub struct PanicRecordView {
    pub message: Seq<char>,
    pub thread: Seq<char>,
    pub location: Option<LocationView>,
}

/// An [`Outcome`] as mathematics.
pub enum OutcomeView {
    Success,
    LogicalFailure(Seq<char>),
    Panic(PanicRecordView),
}

impl View for Location {
    type V = LocationView;

    open spec fn view(&self) -> LocationView {
        LocationView { file: self.file@, line: self.line, column: self.column }
    }
}

impl View for PanicRecord {
    type V = PanicRecordView;

    open spec fn view(&self) -> PanicRecordView {
        PanicRecordView {
            message: self.message@,
            thread: self.thread@,
            location: match self.location {
                Some(location) => Some(location@),
                None => None,
            },
        }
    }
}

impl View for Outcome {
    type V = OutcomeView;

    open spec fn view(&self) -> OutcomeView {
        match self {
            Outcome::Success => OutcomeView::Success,
            Outcome::LogicalFailure(message) => OutcomeView::LogicalFailure(message@),
            Outcome::Panic(record) => OutcomeView::Panic(record@),
        }
    }
}

impl Clone for Location {
    fn clone(&self) -> (copy: Self)
        ensures
            copy == *self,
    {
        Location { file: self.file.clone(), line: self.line, column: self.column }
    }
}

impl Clone for PanicRecord {
    fn clone(&self) -> (copy: Self)
        ensures
            copy == *self,
    {
        let location = match &self.location {
            Some(location) => Some(location.clone()),
            None => None,
        };
        PanicRecord { message: self.message.clone(), thread: self.thread.clone(), location }
    }
}

impl Clone for Outcome {
    fn clone(&self) -> (copy: Self)
        ensures
            copy == *self,
    {
        match self {
            Outcome::Success => Outcome::Success,
            Outcome::LogicalFailure(message) => Outcome::LogicalFailure(message.clone()),
            Outcome::Panic(record) => Outcome::Panic(record.clone()),
        }
    }
}

/// The tag that opens an encoded logical failure.
pub open spec fn error_tag() -> Seq<char> {
    "error:"@
}

/// The tag that opens an encoded panic.
pub open spec fn panic_tag() -> Seq<char> {
    "panic:"@
}

/// The tag before the name of the panicking thread.
pub open spec fn thread_tag() -> Seq<char> {
    "thread:"@
}

/// The tag before the source file of a panic.
pub open spec fn file_tag() -> Seq<char> {
    "file:"@
}

/// The tag before the line of a panic.
pub open spec fn line_tag() -> Seq<char> {
    "line:"@
}

/// The tag before the column of a panic.
pub open spec fn column_tag() -> Seq<char> {
    "column:"@
}

/// The lines that give a location.
pub open spec fn encoded_location(location: LocationView) -> Seq<char> {
    seq!['\n'] + file_tag() + location.file + seq!['\n'] + line_tag() + decimal(
        location.line as nat,
    ) + seq!['\n'] + column_tag() + decimal(location.column as nat)
}

/// The text that stands for a panic.
pub open spec fn encoded_record(record: PanicRecordView) -> Seq<char> {
    let head = panic_tag() + record.message + seq!['\n'] + thread_tag() + record.thread;
    match record.location {
        Some(location) => head + encoded_location(location),
        None => head,
    }
}

/// The text that stands for an outcome: nothing for success, one line for a
/// logical failure, two to five lines for a panic.
pub open spec fn encoded(outcome: OutcomeView) -> Seq<char> {
    match outcome {
        OutcomeView::Success => Seq::empty(),
        OutcomeView::LogicalFailure(message) => error_tag() + message,
        OutcomeView::Panic(record) => encoded_record(record),
    }
}

/// The panic that a text stands for. The tags are looked for one after the
/// other, each in what follows the one before; what stands between two tags
/// is the field, without the white space around it.
pub open spec fn decoded_record(text: Seq<char>) -> Result<PanicRecordView, DecodeError> {
    match split_once(text, panic_tag()) {
        None => Err(DecodeError::MissingPanic),
        Some((_, after_panic)) => match split_once(after_panic, thread_tag()) {
            None => Err(DecodeError::MissingThread),
            Some((message, after_thread)) => match split_once(after_thread, file_tag()) {
                None => Err(DecodeError::MissingFile),
                Some((thread, after_file)) => match split_once(after_file, line_tag()) {
                    None => Err(DecodeError::MissingLine),
                    Some((file, after_line)) => match split_once(after_line, column_tag()) {
                        None => Err(DecodeError::MissingColumn),
                        Some((line, column)) => match parse_u32(trim(line)) {
                            None => Err(DecodeError::InvalidLine),
                            Some(line) => match parse_u32(trim(column)) {
                                None => Err(DecodeError::InvalidColumn),
                                Some(column) => Ok(
                                    PanicRecordView {
                                        message: trim(message),
                                        thread: trim(thread),
                                        location: Some(
                                            LocationView { file: trim(file), line, column },
                                        ),
                                    },
                                ),
                            },
                        },
                    },
                },
            },
        },
    }
}

/// The outcome that a text stands for. A text that holds `error:` anywhere is
/// a logical failure, whose message is all that follows the first `error:`,
/// trimmed; any other text is read as a panic.
pub open spec fn decoded(text: Seq<char>) -> Result<OutcomeView, DecodeError> {
    match split_once(text, error_tag()) {
        Some((_, message)) => Ok(OutcomeView::LogicalFailure(trim(message))),
        None => match decoded_record(text) {
            Ok(record) => Ok(OutcomeView::Panic(record)),
            Err(error) => Err(error),
        },
    }
}

/// The lines in which a panic is shown to a reader: the thread, the place if
/// it is known, and the message on a line of its own.
pub open spec fn displayed(record: PanicRecordView) -> Seq<char> {
    let head = "thread '"@ + record.thread + "' panicked"@;
    let place = match record.location {
        Some(location) => " at "@ + location.file + ":"@ + decimal(location.line as nat) + ":"@
            + decimal(location.column as nat),
        None => Seq::empty(),
    };
    head + place + ":\n"@ + record.message
}

/// What a decoded record is as mathematics.
pub open spec fn record_result_view(result: Result<PanicRecord, DecodeError>) -> Result<
    PanicRecordView,
    DecodeError,
> {
    match result {
        Ok(record) => Ok(record@),
        Err(error) => Err(error),
    }
}

/// What a decoded outcome is as mathematics.
pub open spec fn outcome_result_view(result: Result<Outcome, DecodeError>) -> Result<
    OutcomeView,
    DecodeError,
> {
    match result {
        Ok(outcome) => Ok(outcome@),
        Err(error) => Err(error),
    }
}

/// Cuts `chars[start..]` at the first occurrence of `tag`. Gives the index at
/// which the tag stands and the index after it.
fn cut_from(chars: &Vec<char>, start: usize, tag: &str) -> (cut: Option<(usize, usize)>)
    requires
        start <= chars.len(),
    ensures
        match cut {
            Some((at, next)) => {
                &&& start <= at <= next <= chars.len()
                &&& split_once(chars@.skip(start as int), tag@) == Some(
                    (chars@.subrange(start as int, at as int), chars@.skip(next as int)),
                )
            },
            None => split_once(chars@.skip(start as int), tag@) is None,
        },
{
    let pattern = chars_of(tag);
    match find_from(chars, start, &pattern) {
        Some(at) => {
            let next = at + pattern.len();
            proof {
                let rest = chars@.skip(start as int);
                assert(rest.take(at - start) =~= chars@.subrange(start as int, at as int));
                assert(rest.skip(at - start + pattern@.len()) =~= chars@.skip(next as int));
            }
            Some((at, next))
        },
        None => None,
    }
}

/// The text of `chars[from..to]` without the white space around it.
fn trimmed_text(text: &str, chars: &Vec<char>, from: usize, to: usize) -> (field: String)
    requires
        chars@ == text@,
        from <= to <= chars.len(),
    ensures
        field@ == trim(text@.subrange(from as int, to as int)),
{
    let (a, b) = trim_range(chars, from, to);
    text.substring_char(a, b).to_owned()
}

impl Location {
    /// Writes the lines that give this location.
    fn encode_onto(&self, text: &mut String)
        ensures
            final(text)@ == old(text)@ + encoded_location(self@),
    {
        let line = format_u32(self.line);
        let column = format_u32(self.column);
        proof {
            reveal_strlit("\n");
            assert("\n"@ =~= seq!['\n']);
        }
        text.append("\n");
        text.append("file:");
        text.append(self.file.as_str());
        text.append("\n");
        text.append("line:");
        text.append(line.as_str());
        text.append("\n");
        text.append("column:");
        text.append(column.as_str());
        assert(text@ =~= old(text)@ + encoded_location(self@));
    }
}

impl PanicRecord {
    /// Writes the record as it travels between the two processes.
    pub fn encode(&self) -> (text: String)
        ensures
            text@ == encoded_record(self@),
    {
        proof {
            reveal_strlit("\n");
            assert("\n"@ =~= seq!['\n']);
        }
        let mut text = "panic:".to_owned();
        text.append(self.message.as_str());
        text.append("\n");
        text.append("thread:");
        text.append(self.thread.as_str());
        match &self.location {
            Some(location) => {
                location.encode_onto(&mut text);
            },
            None => {},
        }
        assert(text@ =~= encoded_record(self@));
        text
    }

    /// Reads a record from the text that `encode` writes. Succeeds exactly on
    /// the texts in which all five tags are found in order and the line and
    /// the column are numbers; otherwise says which of these failed first.
    pub fn decode(text: &str) -> (result: Result<PanicRecord, DecodeError>)
        ensures
            record_result_view(result) == decoded_record(text@),
    {
        let chars = chars_of(text);
        let end = chars.len();
        proof {
            assert(chars@.skip(0) =~= text@);
        }
        let (_, message_from) = match cut_from(&chars, 0, "panic:") {
            Some(cut) => cut,
            None => {
                return Err(DecodeError::MissingPanic);
            },
        };
        let (message_to, thread_from) = match cut_from(&chars, message_from, "thread:") {
            Some(cut) => cut,
            None => {
                return Err(DecodeError::MissingThread);
            },
        };
        let (thread_to, file_from) = match cut_from(&chars, thread_from, "file:") {
            Some(cut) => cut,
            None => {
                return Err(DecodeError::MissingFile);
            },
        };
        let (file_to, line_from) = match cut_from(&chars, file_from, "line:") {
            Some(cut) => cut,
            None => {
                return Err(DecodeError::MissingLine);
            },
        };
        let (line_to, column_from) = match cut_from(&chars, line_from, "column:") {
            Some(cut) => cut,
            None => {
                return Err(DecodeError::MissingColumn);
            },
        };
        proof {
            assert(chars@.skip(column_from as int) =~= chars@.subrange(
                column_from as int,
                end as int,
            ));
        }
        let (a, b) = trim_range(&chars, line_from, line_to);
        let line = match parse_u32_range(&chars, a, b) {
            Some(line) => line,
            None => {
                return Err(DecodeError::InvalidLine);
            },
        };
        let (a, b) = trim_range(&chars, column_from, end);
        let column = match parse_u32_range(&chars, a, b) {
            Some(column) => column,
            None => {
                return Err(DecodeError::InvalidColumn);
            },
        };
        let message = trimmed_text(text, &chars, message_from, message_to);
        let thread = trimmed_text(text, &chars, thread_from, thread_to);
        let file = trimmed_text(text, &chars, file_from, file_to);
        Ok(PanicRecord { message, thread, location: Some(Location { file, line, column }) })
    }

    /// Writes the record as it is shown to a reader.
    pub fn to_string(&self) -> (text: String)
        ensures
            text@ == displayed(self@),
    {
        let mut text = "thread '".to_owned();
        text.append(self.thread.as_str());
        text.append("' panicked");
        match &self.location {
            Some(location) => {
                let line = format_u32(location.line);
                let column = format_u32(location.column);
                text.append(" at ");
                text.append(location.file.as_str());
                text.append(":");
                text.append(line.as_str());
                text.append(":");
                text.append(column.as_str());
            },
            None => {},
        }
        text.append(":\n");
        text.append(self.message.as_str());
        assert(text@ =~= displayed(self@));
        text
    }
}

impl Outcome {
    /// Writes the outcome as it travels between the two processes. The same
    /// outcome always gives the same text.
    pub fn encode(&self) -> (text: String)
        ensures
            text@ == encoded(self@),
    {
        match self {
            Outcome::Success => String::new(),
            Outcome::LogicalFailure(message) => {
                let mut text = "error:".to_owned();
                text.append(message.as_str());
                text
            },
            Outcome::Panic(record) => record.encode(),
        }
    }

    /// Reads an outcome from the text that `encode` writes. A text that holds
    /// `error:` is a logical failure, whatever else it holds; any other text
    /// is read as a panic, and refused where it is none.
    pub fn decode(text: &str) -> (result: Result<Outcome, DecodeError>)
        ensures
            outcome_result_view(result) == decoded(text@),
    {
        let chars = chars_of(text);
        proof {
            assert(chars@.skip(0) =~= text@);
        }
        match cut_from(&chars, 0, "error:") {
            Some((_, from)) => {
                proof {
                    assert(chars@.skip(from as int) =~= text@.subrange(
                        from as int,
                        chars.len() as int,
                    ));
                }
                Ok(Outcome::LogicalFailure(trimmed_text(text, &chars, from, chars.len())))
            },
            None => match PanicRecord::decode(text) {
                Ok(record) => Ok(Outcome::Panic(record)),
                Err(error) => Err(error),
            },
        }
    }
}

} // verus!
