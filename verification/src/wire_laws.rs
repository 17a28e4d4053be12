//! What holds of the wire format of an outcome, whatever the outcome.

use crate::decimal::{
    all_digits, decimal, is_digit, lemma_decimal, lemma_parse_decimal, parse_u32,
};
use crate::outcome::{
    column_tag, decoded, decoded_record, encoded, encoded_record, error_tag, file_tag, line_tag,
    panic_tag, thread_tag, DecodeError, LocationView, Outcome, OutcomeView, PanicRecordView,
};
use crate::text::{
    contains, is_blank, is_trimmed, is_whitespace, lemma_absent_across,
    lemma_absent_before_blank, lemma_first_index_is_first, lemma_split_after_field,
    lemma_split_at_start, lemma_trim_field, lemma_trim_is_trimmed, lemma_trim_of_trimmed,
    lemma_trim_padded, occurs_at, split_once, trim,
};
use vstd::prelude::*;
use vstd::utf8::encode_utf8;

verus! {

/// Whether `field` holds none of the tags that reading an outcome looks for
/// behind a field: `thread:`, `file:`, `line:`, `column:` and `error:`.
pub open spec fn is_plain(field: Seq<char>) -> bool {
    &&& !contains(field, thread_tag())
    &&& !contains(field, file_tag())
    &&& !contains(field, line_tag())
    &&& !contains(field, column_tag())
    &&& !contains(field, error_tag())
}

/// Whether a field is read back as it was written: it holds none of the
/// tags, and no white space surrounds it.
pub open spec fn is_faithful(field: Seq<char>) -> bool {
    is_plain(field) && is_trimmed(field)
}

/// The outcomes that the wire format carries unchanged: a logical failure
/// whose message is faithful, and a panic whose location is known and whose
/// message, thread and file are faithful.
pub open spec fn survives(outcome: OutcomeView) -> bool {
    match outcome {
        OutcomeView::Success => false,
        OutcomeView::LogicalFailure(message) => is_faithful(message),
        OutcomeView::Panic(record) => {
            &&& is_faithful(record.message)
            &&& is_faithful(record.thread)
            &&& record.location matches Some(location)
            &&& is_faithful(location.file)
        },
    }
}

/// The six tags, character by character.
pub proof fn lemma_tags()
    ensures
        error_tag() == seq!['e', 'r', 'r', 'o', 'r', ':'],
        panic_tag() == seq!['p', 'a', 'n', 'i', 'c', ':'],
        thread_tag() == seq!['t', 'h', 'r', 'e', 'a', 'd', ':'],
        file_tag() == seq!['f', 'i', 'l', 'e', ':'],
        line_tag() == seq!['l', 'i', 'n', 'e', ':'],
        column_tag() == seq!['c', 'o', 'l', 'u', 'm', 'n', ':'],
{
    reveal_strlit("error:");
    reveal_strlit("panic:");
    reveal_strlit("thread:");
    reveal_strlit("file:");
    reveal_strlit("line:");
    reveal_strlit("column:");
    assert(error_tag() =~= seq!['e', 'r', 'r', 'o', 'r', ':']);
    assert(panic_tag() =~= seq!['p', 'a', 'n', 'i', 'c', ':']);
    assert(thread_tag() =~= seq!['t', 'h', 'r', 'e', 'a', 'd', ':']);
    assert(file_tag() =~= seq!['f', 'i', 'l', 'e', ':']);
    assert(line_tag() =~= seq!['l', 'i', 'n', 'e', ':']);
    assert(column_tag() =~= seq!['c', 'o', 'l', 'u', 'm', 'n', ':']);
}

/// A pattern that holds something other than a digit stands in no run of
/// digits.
proof fn lemma_absent_in_digits(digits: Seq<char>, pattern: Seq<char>, k: int)
    requires
        all_digits(digits),
        0 <= k < pattern.len(),
        !is_digit(pattern[k]),
    ensures
        !contains(digits, pattern),
{
    assert forall|at: int| !occurs_at(digits, pattern, at) by {
        if occurs_at(digits, pattern, at) {
            let window = digits.subrange(at, at + pattern.len());
            assert(window[k] == digits[at + k]);
        }
    }
}

/// `error:` does not stand in a field with a tag before it, where it does
/// not stand in the field: it ends in its only colon, as the tag does, and
/// the letter before the colon differs.
proof fn lemma_no_error_behind_tag(tag: Seq<char>, field: Seq<char>)
    requires
        !contains(field, error_tag()),
        tag == panic_tag() || tag == thread_tag() || tag == file_tag() || tag == line_tag() || tag
            == column_tag(),
    ensures
        !contains(tag + field, error_tag()),
{
    lemma_tags();
    let pattern = error_tag();
    let s = tag + field;
    assert forall|at: int| !occurs_at(s, pattern, at) by {
        if occurs_at(s, pattern, at) {
            let window = s.subrange(at, at + 6);
            if at >= tag.len() {
                let shifted = at - tag.len();
                assert(field.subrange(shifted, shifted + 6) =~= window);
                assert(occurs_at(field, pattern, shifted));
            } else {
                // The last colon of the tag lies in the window or behind its end.
                let colon = tag.len() - 1;
                assert(s[colon] == ':');
                assert(window[5] == s[at + 5]);
                assert(window[4] == s[at + 4]);
                if at + 5 > colon {
                    assert(window[colon - at] == s[colon]);
                } else if at + 5 == colon {
                    assert(s[at + 4] == tag[colon - 1]);
                } else {
                    assert(s[at + 5] == tag[at + 5]);
                }
            }
        }
    }
}

/// A number in decimal notation is trimmed, holds none of the tags that are
/// looked for behind it, and is trimmed back to itself where a line break
/// follows it.
proof fn lemma_decimal_is_faithful_digits(n: u32)
    ensures
        is_trimmed(decimal(n as nat)),
        !contains(decimal(n as nat), column_tag()),
        !contains(decimal(n as nat), error_tag()),
        trim(decimal(n as nat).push('\n')) == decimal(n as nat),
        trim(decimal(n as nat)) == decimal(n as nat),
{
    lemma_tags();
    lemma_decimal(n as nat);
    let digits = decimal(n as nat);
    assert(is_digit(digits[0]));
    assert(is_digit(digits.last()));
    lemma_absent_in_digits(digits, column_tag(), 0);
    lemma_absent_in_digits(digits, error_tag(), 0);
    lemma_trim_field(digits, '\n');
    lemma_trim_of_trimmed(digits);
}

/// The encoding of a panic whose fields do not hold `error:` does not hold
/// it either.
proof fn lemma_no_error_in_record(record: PanicRecordView)
    requires
        !contains(record.message, error_tag()),
        !contains(record.thread, error_tag()),
        record.location matches Some(location) ==> !contains(location.file, error_tag()),
    ensures
        !contains(encoded_record(record), error_tag()),
{
    lemma_tags();
    let pattern = error_tag();
    let first = panic_tag() + record.message;
    let second = thread_tag() + record.thread;
    lemma_no_error_behind_tag(panic_tag(), record.message);
    lemma_no_error_behind_tag(thread_tag(), record.thread);
    match record.location {
        Some(location) => {
            let line = decimal(location.line as nat);
            let column = decimal(location.column as nat);
            let third = file_tag() + location.file;
            let fourth = line_tag() + line;
            let fifth = column_tag() + column;
            lemma_decimal_is_faithful_digits(location.line);
            lemma_decimal_is_faithful_digits(location.column);
            lemma_no_error_behind_tag(file_tag(), location.file);
            lemma_no_error_behind_tag(line_tag(), line);
            lemma_no_error_behind_tag(column_tag(), column);
            lemma_absent_across(fourth, '\n', fifth, pattern);
            let tail4 = fourth.push('\n') + fifth;
            lemma_absent_across(third, '\n', tail4, pattern);
            let tail3 = third.push('\n') + tail4;
            lemma_absent_across(second, '\n', tail3, pattern);
            let tail2 = second.push('\n') + tail3;
            lemma_absent_across(first, '\n', tail2, pattern);
            assert(encoded_record(record) =~= first.push('\n') + tail2);
        },
        None => {
            lemma_absent_across(first, '\n', second, pattern);
            assert(encoded_record(record) =~= first.push('\n') + second);
        },
    }
}

/// Round trip. An outcome that survives is read back from its encoding as
/// itself.
///
/// The outcomes left out are those on which this fails: success, which is
/// written as no text at all; a panic without a location, which is written
/// without the tags that reading insists on; and a field with white space
/// around it, which reading trims, or with a tag inside it.
pub proof fn law_round_trip(outcome: OutcomeView)
    requires
        survives(outcome),
    ensures
        decoded(encoded(outcome)) == Ok::<OutcomeView, DecodeError>(outcome),
{
    let none = Seq::<char>::empty();
    law_round_trip_padded(outcome, none);
    assert(encoded(outcome) + none =~= encoded(outcome));
}

/// Round trip of what is printed. An outcome that survives is read back as
/// itself from its encoding with white space behind it, such as the line
/// break that printing adds.
pub proof fn law_round_trip_padded(outcome: OutcomeView, padding: Seq<char>)
    requires
        survives(outcome),
        is_blank(padding),
    ensures
        decoded(encoded(outcome) + padding) == Ok::<OutcomeView, DecodeError>(outcome),
{
    match outcome {
        OutcomeView::Success => {},
        OutcomeView::LogicalFailure(message) => {
            assert(encoded(outcome) + padding =~= error_tag() + (message + padding));
            lemma_split_at_start(error_tag(), message + padding);
            lemma_trim_padded(message, padding);
        },
        OutcomeView::Panic(record) => {
            lemma_round_trip_record(record, padding);
            lemma_no_error_in_record(record);
            lemma_tag_is_one_word(error_tag());
            lemma_absent_before_blank(encoded_record(record), padding, error_tag());
            assert(split_once(encoded_record(record) + padding, error_tag()) is None);
        },
    }
}

/// What a text stands for, given where each tag cuts it.
proof fn lemma_decoded_from_cuts(
    text: Seq<char>,
    before: Seq<char>,
    after_panic: Seq<char>,
    message: Seq<char>,
    after_thread: Seq<char>,
    thread: Seq<char>,
    after_file: Seq<char>,
    file: Seq<char>,
    after_line: Seq<char>,
    line: Seq<char>,
    column: Seq<char>,
)
    requires
        split_once(text, panic_tag()) == Some((before, after_panic)),
        split_once(after_panic, thread_tag()) == Some((message, after_thread)),
        split_once(after_thread, file_tag()) == Some((thread, after_file)),
        split_once(after_file, line_tag()) == Some((file, after_line)),
        split_once(after_line, column_tag()) == Some((line, column)),
        parse_u32(trim(line)) is Some,
        parse_u32(trim(column)) is Some,
    ensures
        decoded_record(text) == Ok::<PanicRecordView, DecodeError>(
            PanicRecordView {
                message: trim(message),
                thread: trim(thread),
                location: Some(
                    LocationView {
                        file: trim(file),
                        line: parse_u32(trim(line))->0,
                        column: parse_u32(trim(column))->0,
                    },
                ),
            },
        ),
{
}

/// The encoding of a panic with a location, and whatever follows it, as
/// fields and tags in turn.
proof fn lemma_record_shape(record: PanicRecordView, padding: Seq<char>)
    requires
        record.location is Some,
    ensures
        encoded_record(record) + padding == panic_tag() + (record.message.push('\n') + thread_tag()
            + (record.thread.push('\n') + file_tag() + (record.location->0.file.push('\n')
            + line_tag() + (decimal(record.location->0.line as nat).push('\n') + column_tag() + (
        decimal(record.location->0.column as nat) + padding))))),
{
    let location = record.location->0;
    let line = decimal(location.line as nat);
    let column = decimal(location.column as nat);
    let after_line = line.push('\n') + column_tag() + (column + padding);
    let after_file = location.file.push('\n') + line_tag() + after_line;
    let after_thread = record.thread.push('\n') + file_tag() + after_file;
    let after_panic = record.message.push('\n') + thread_tag() + after_thread;
    assert(encoded_record(record) + padding =~= panic_tag() + after_panic);
}

/// A tag holds no line break.
proof fn lemma_tag_is_one_line(tag: Seq<char>)
    requires
        tag == thread_tag() || tag == file_tag() || tag == line_tag() || tag == column_tag()
            || tag == error_tag(),
    ensures
        tag.len() > 0,
        forall|k: int| 0 <= k < tag.len() ==> tag[k] != '\n',
{
    lemma_tags();
}

/// A tag holds no white space.
proof fn lemma_tag_is_one_word(tag: Seq<char>)
    requires
        tag == thread_tag() || tag == file_tag() || tag == line_tag() || tag == column_tag()
            || tag == error_tag(),
    ensures
        tag.len() > 0,
        forall|k: int| 0 <= k < tag.len() ==> !is_whitespace(tag[k]),
{
    lemma_tags();
}

/// Round trip of a panic alone, whatever `error:` may do to it: a panic whose
/// location is known is read back as itself where its message does not hold
/// `thread:`, its thread not `file:`, its file not `line:`, and all three
/// are trimmed.
pub proof fn lemma_round_trip_record(record: PanicRecordView, padding: Seq<char>)
    requires
        is_trimmed(record.message),
        is_trimmed(record.thread),
        !contains(record.message, thread_tag()),
        !contains(record.thread, file_tag()),
        record.location matches Some(location) && is_trimmed(location.file) && !contains(
            location.file,
            line_tag(),
        ),
        is_blank(padding),
    ensures
        decoded_record(encoded_record(record) + padding) == Ok::<PanicRecordView, DecodeError>(
            record,
        ),
{
    let location = record.location->0;
    let line = decimal(location.line as nat);
    let column = decimal(location.column as nat);
    let after_column = column + padding;
    let after_line = line.push('\n') + column_tag() + after_column;
    let after_file = location.file.push('\n') + line_tag() + after_line;
    let after_thread = record.thread.push('\n') + file_tag() + after_file;
    let after_panic = record.message.push('\n') + thread_tag() + after_thread;
    let text = encoded_record(record) + padding;
    let none = Seq::<char>::empty();
    assert(split_once(text, panic_tag()) == Some((none, after_panic))) by {
        lemma_record_shape(record, padding);
        lemma_split_at_start(panic_tag(), after_panic);
    }
    assert(split_once(after_panic, thread_tag()) == Some(
        (record.message.push('\n'), after_thread),
    )) by {
        lemma_tag_is_one_line(thread_tag());
        lemma_split_after_field(record.message, '\n', thread_tag(), after_thread);
    }
    assert(split_once(after_thread, file_tag()) == Some((record.thread.push('\n'), after_file)))
        by {
        lemma_tag_is_one_line(file_tag());
        lemma_split_after_field(record.thread, '\n', file_tag(), after_file);
    }
    assert(split_once(after_file, line_tag()) == Some((location.file.push('\n'), after_line)))
        by {
        lemma_tag_is_one_line(line_tag());
        lemma_split_after_field(location.file, '\n', line_tag(), after_line);
    }
    assert(split_once(after_line, column_tag()) == Some((line.push('\n'), after_column))) by {
        lemma_tag_is_one_line(column_tag());
        lemma_decimal_is_faithful_digits(location.line);
        lemma_split_after_field(line, '\n', column_tag(), after_column);
    }
    assert(trim(record.message.push('\n')) == record.message) by {
        lemma_trim_field(record.message, '\n');
    }
    assert(trim(record.thread.push('\n')) == record.thread) by {
        lemma_trim_field(record.thread, '\n');
    }
    assert(trim(location.file.push('\n')) == location.file) by {
        lemma_trim_field(location.file, '\n');
    }
    assert(parse_u32(trim(line.push('\n'))) == Some(location.line)) by {
        lemma_decimal_is_faithful_digits(location.line);
        lemma_parse_decimal(location.line);
    }
    assert(parse_u32(trim(after_column)) == Some(location.column)) by {
        lemma_decimal_is_faithful_digits(location.column);
        lemma_trim_padded(column, padding);
        lemma_parse_decimal(location.column);
    }
    lemma_decoded_from_cuts(
        text,
        none,
        after_panic,
        record.message.push('\n'),
        after_thread,
        record.thread.push('\n'),
        after_file,
        location.file.push('\n'),
        after_line,
        line.push('\n'),
        after_column,
    );
}

/// What is read is trimmed: no field of a decoded outcome begins or ends
/// with white space.
pub proof fn law_decoded_fields_are_trimmed(text: Seq<char>)
    ensures
        match decoded(text) {
            Ok(OutcomeView::LogicalFailure(message)) => is_trimmed(message),
            Ok(OutcomeView::Panic(record)) => {
                &&& is_trimmed(record.message)
                &&& is_trimmed(record.thread)
                &&& record.location matches Some(location) && is_trimmed(location.file)
            },
            Ok(OutcomeView::Success) => false,
            Err(_) => true,
        },
{
    assert forall|s: Seq<char>| is_trimmed(#[trigger] trim(s)) by {
        lemma_trim_is_trimmed(s);
    }
}

/// Determinism. The text of an outcome depends on nothing but the outcome:
/// two outcomes that are the same as mathematics have the same text, down
/// to the bytes that encode it.
pub proof fn law_encoding_is_determined(one: Outcome, other: Outcome)
    requires
        one@ == other@,
    ensures
        encoded(one@) == encoded(other@),
        encode_utf8(encoded(one@)) == encode_utf8(encoded(other@)),
{
}

/// Priority. A text that begins with `error:` is a logical failure whose
/// message is the rest of it, trimmed, whatever the rest holds: `panic:` and
/// the tags of a panic's fields change nothing.
pub proof fn law_error_takes_priority(rest: Seq<char>)
    ensures
        decoded(error_tag() + rest) == Ok::<OutcomeView, DecodeError>(
            OutcomeView::LogicalFailure(trim(rest)),
        ),
{
    lemma_split_at_start(error_tag(), rest);
}

/// Priority, wherever `error:` stands. A text that holds `error:` is never
/// read as a panic and never refused.
pub proof fn law_error_anywhere(text: Seq<char>)
    requires
        contains(text, error_tag()),
    ensures
        decoded(text) matches Ok(OutcomeView::LogicalFailure(_)),
{
    lemma_first_index_is_first(text, error_tag());
}

/// Success leaves no text, and no text stands for an outcome: what is read
/// from an empty error stream is a refusal.
pub proof fn law_success_is_silent()
    ensures
        encoded(OutcomeView::Success).len() == 0,
        decoded(encoded(OutcomeView::Success)) == Err::<OutcomeView, DecodeError>(
            DecodeError::MissingPanic,
        ),
{
    lemma_tags();
    let text = encoded(OutcomeView::Success);
    assert forall|at: int| !occurs_at(text, error_tag(), at) by {}
    assert forall|at: int| !occurs_at(text, panic_tag(), at) by {}
}

/// A panic without a location is refused when read back: its encoding ends
/// before the tag `file:` that reading asks for.
pub proof fn law_location_is_needed(record: PanicRecordView)
    requires
        record.location is None,
        is_plain(record.message),
        is_plain(record.thread),
    ensures
        decoded(encoded(OutcomeView::Panic(record))) == Err::<OutcomeView, DecodeError>(
            DecodeError::MissingFile,
        ),
{
    lemma_tags();
    let text = encoded_record(record);
    lemma_no_error_in_record(record);
    assert(split_once(text, error_tag()) is None);
    let after_panic = record.message.push('\n') + thread_tag() + record.thread;
    assert(text =~= panic_tag() + after_panic);
    lemma_split_at_start(panic_tag(), after_panic);
    lemma_split_after_field(record.message, '\n', thread_tag(), record.thread);
}

} // verus!
