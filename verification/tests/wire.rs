use oxi_harness::outcome::{DecodeError, Location, Outcome, PanicRecord};

fn record(message: &str, thread: &str, file: &str, line: u32, column: u32) -> PanicRecord {
    PanicRecord {
        message: message.to_owned(),
        thread: thread.to_owned(),
        location: Some(Location { file: file.to_owned(), line, column }),
    }
}

#[test]
fn success_is_written_as_nothing() {
    assert_eq!(Outcome::Success.encode(), "");
}

#[test]
fn logical_failure_is_written_after_its_tag() {
    assert_eq!(Outcome::LogicalFailure("boom".to_owned()).encode(), "error:boom");
    assert_eq!(Outcome::LogicalFailure(String::new()).encode(), "error:");
}

#[test]
fn panic_is_written_field_by_field() {
    let outcome = Outcome::Panic(record("oops", "main", "file.rs", 42, 7));
    assert_eq!(outcome.encode(), "panic:oops\nthread:main\nfile:file.rs\nline:42\ncolumn:7");
}

#[test]
fn panic_without_location_is_written_in_two_lines() {
    let outcome = Outcome::Panic(PanicRecord {
        message: "oops".to_owned(),
        thread: "main".to_owned(),
        location: None,
    });
    assert_eq!(outcome.encode(), "panic:oops\nthread:main");
}

#[test]
fn record_encodes_as_the_outcome_that_holds_it() {
    let plain = record("m", "t", "f", 0, 4294967295);
    assert_eq!(plain.encode(), "panic:m\nthread:t\nfile:f\nline:0\ncolumn:4294967295");
    assert_eq!(Outcome::Panic(plain.clone()).encode(), plain.encode());
}

#[test]
fn logical_failure_round_trip() {
    for message in ["boom", "", "two words", "caf\u{e9} \u{4e16}\u{754c}", "panic:inside", "a: b"] {
        let outcome = Outcome::LogicalFailure(message.to_owned());
        assert_eq!(Outcome::decode(&outcome.encode()), Ok(outcome));
    }
}

#[test]
fn panic_round_trip() {
    let records = [
        record("oops", "main", "file.rs", 42, 7),
        record("", "", "", 0, 0),
        record("panic:again", "<unnamed>", "src/a b.rs", 4294967295, 1),
        record("multi\nline\nmessage", "worker 1", "C:\\x\\y.rs", 10, 100),
        record("\u{e9}t\u{e9}", "\u{4e16}", "\u{754c}.rs", 1, 2),
    ];
    for record in records {
        let outcome = Outcome::Panic(record);
        assert_eq!(Outcome::decode(&outcome.encode()), Ok(outcome));
    }
}

#[test]
fn round_trip_survives_the_line_break_of_printing() {
    let failure = Outcome::LogicalFailure("boom".to_owned());
    assert_eq!(Outcome::decode(&format!("{}\n", failure.encode())), Ok(failure));
    let panic = Outcome::Panic(record("oops", "main", "file.rs", 42, 7));
    assert_eq!(Outcome::decode(&format!("{}\r\n \t", panic.encode())), Ok(panic));
}

#[test]
fn encoding_is_deterministic() {
    let outcome = Outcome::Panic(record("oops", "main", "file.rs", 42, 7));
    let copy = outcome.clone();
    assert_eq!(outcome, copy);
    assert_eq!(outcome.encode().as_bytes(), outcome.encode().as_bytes());
    assert_eq!(outcome.encode().as_bytes(), copy.encode().as_bytes());
}

#[test]
fn error_takes_priority_over_panic() {
    let text = "error:it said panic:oops\nthread:main\nfile:f.rs\nline:1\ncolumn:2";
    assert_eq!(
        Outcome::decode(text),
        Ok(Outcome::LogicalFailure(
            "it said panic:oops\nthread:main\nfile:f.rs\nline:1\ncolumn:2".to_owned()
        ))
    );
}

#[test]
fn error_takes_priority_wherever_it_stands() {
    let text = "panic:oops error: late\nthread:main\nfile:f.rs\nline:1\ncolumn:2";
    assert_eq!(
        Outcome::decode(text),
        Ok(Outcome::LogicalFailure("late\nthread:main\nfile:f.rs\nline:1\ncolumn:2".to_owned()))
    );
    assert_eq!(
        Outcome::decode("noise before error: first error: second "),
        Ok(Outcome::LogicalFailure("first error: second".to_owned()))
    );
}

#[test]
fn what_stands_before_the_first_tag_is_dropped() {
    assert_eq!(
        Outcome::decode("warning\npanic:oops\nthread:main\nfile:f.rs\nline:1\ncolumn:2"),
        Ok(Outcome::Panic(record("oops", "main", "f.rs", 1, 2)))
    );
}

#[test]
fn fields_are_trimmed() {
    let text = "panic: oops \n thread:\tmain \nfile: \u{a0}f.rs\u{3000}\nline: 42 \ncolumn: 7 \n";
    assert_eq!(Outcome::decode(text), Ok(Outcome::Panic(record("oops", "main", "f.rs", 42, 7))));
    assert_eq!(
        Outcome::decode("error: \u{2003} padded \u{85}\n"),
        Ok(Outcome::LogicalFailure("padded".to_owned()))
    );
}

#[test]
fn numbers_may_carry_a_plus_sign_and_leading_zeros() {
    let text = "panic:m\nthread:t\nfile:f\nline:+42\ncolumn:007";
    assert_eq!(PanicRecord::decode(text), Ok(record("m", "t", "f", 42, 7)));
    let text = "panic:m\nthread:t\nfile:f\nline:00000000000000000000001\ncolumn:4294967295";
    assert_eq!(PanicRecord::decode(text), Ok(record("m", "t", "f", 1, 4294967295)));
}

#[test]
fn empty_text_is_refused() {
    assert_eq!(Outcome::decode(""), Err(DecodeError::MissingPanic));
    assert_eq!(PanicRecord::decode(""), Err(DecodeError::MissingPanic));
}

#[test]
fn success_does_not_come_back() {
    assert_eq!(
        Outcome::decode(&Outcome::Success.encode()),
        Err(DecodeError::MissingPanic)
    );
}

#[test]
fn panic_without_location_does_not_come_back() {
    let outcome = Outcome::Panic(PanicRecord {
        message: "oops".to_owned(),
        thread: "main".to_owned(),
        location: None,
    });
    assert_eq!(Outcome::decode(&outcome.encode()), Err(DecodeError::MissingFile));
}

#[test]
fn each_missing_tag_is_named() {
    assert_eq!(Outcome::decode("hello"), Err(DecodeError::MissingPanic));
    assert_eq!(Outcome::decode("thread:main"), Err(DecodeError::MissingPanic));
    assert_eq!(Outcome::decode("panic:m"), Err(DecodeError::MissingThread));
    assert_eq!(Outcome::decode("thread:t panic:m"), Err(DecodeError::MissingThread));
    assert_eq!(Outcome::decode("panic:m\nthread:t"), Err(DecodeError::MissingFile));
    assert_eq!(Outcome::decode("panic:m\nthread:t\nfile:f"), Err(DecodeError::MissingLine));
    assert_eq!(
        Outcome::decode("panic:m\nthread:t\nfile:f\nline:1"),
        Err(DecodeError::MissingColumn)
    );
    assert_eq!(
        Outcome::decode("panic:m\nthread:t\nline:1\nfile:f\ncolumn:2"),
        Err(DecodeError::MissingLine)
    );
}

#[test]
fn a_line_that_is_no_number_is_refused() {
    for line in ["", " ", "abc", "-1", "1.5", "4294967296", "99999999999999999999", "+", "1 2", "\u{661}"] {
        let text = format!("panic:m\nthread:t\nfile:f\nline:{line}\ncolumn:2");
        assert_eq!(Outcome::decode(&text), Err(DecodeError::InvalidLine), "{line:?}");
    }
}

#[test]
fn a_column_that_is_no_number_is_refused() {
    for column in ["", "x", "-0", "4294967296", "7 trailing", "++7", "0x10"] {
        let text = format!("panic:m\nthread:t\nfile:f\nline:1\ncolumn:{column}");
        assert_eq!(Outcome::decode(&text), Err(DecodeError::InvalidColumn), "{column:?}");
    }
}

#[test]
fn a_bad_line_is_reported_before_a_bad_column() {
    assert_eq!(
        Outcome::decode("panic:m\nthread:t\nfile:f\nline:x\ncolumn:y"),
        Err(DecodeError::InvalidLine)
    );
}

#[test]
fn a_tag_inside_a_field_corrupts_it() {
    let outcome = Outcome::Panic(record("a thread: b", "main", "f.rs", 1, 2));
    let read = Outcome::decode(&outcome.encode());
    assert_ne!(read, Ok(outcome));
    assert_eq!(read, Ok(Outcome::Panic(record("a", "b\nthread:main", "f.rs", 1, 2))));

    let outcome = Outcome::Panic(record("said error: no", "main", "f.rs", 1, 2));
    assert_eq!(
        Outcome::decode(&outcome.encode()),
        Ok(Outcome::LogicalFailure("no\nthread:main\nfile:f.rs\nline:1\ncolumn:2".to_owned()))
    );
}

#[test]
fn white_space_around_a_field_is_lost() {
    let outcome = Outcome::LogicalFailure(" boom ".to_owned());
    assert_eq!(
        Outcome::decode(&outcome.encode()),
        Ok(Outcome::LogicalFailure("boom".to_owned()))
    );
}

#[test]
fn record_is_shown_with_its_place() {
    assert_eq!(
        record("oops", "main", "file.rs", 42, 7).to_string(),
        "thread 'main' panicked at file.rs:42:7:\noops"
    );
}

#[test]
fn record_is_shown_without_a_place() {
    let record = PanicRecord {
        message: "oops".to_owned(),
        thread: "<unnamed>".to_owned(),
        location: None,
    };
    assert_eq!(record.to_string(), "thread '<unnamed>' panicked:\noops");
}

#[test]
fn clones_are_equal() {
    let outcome = Outcome::Panic(record("oops", "main", "file.rs", 42, 7));
    assert_eq!(outcome.clone(), outcome);
    let failure = Outcome::LogicalFailure("boom".to_owned());
    assert_eq!(failure.clone(), failure);
    assert_eq!(Outcome::Success.clone(), Outcome::Success);
}
