use crilog::{CriLog, ParsingError, StreamType, Timestamp};

fn parse(line: &str) -> Result<CriLog, ParsingError> {
    CriLog::from_str(line)
}

#[test]
fn stdout() {
    let log_str = "2016-10-06T00:17:09.669794202Z stdout P log content 1";
    let crilog = CriLog::from_str(log_str).expect("failed to parse");
    assert!(crilog.is_stdout());
    assert_eq!(crilog.tag(), "P");
    assert_eq!(crilog.log(), "log content 1");
}

#[test]
fn stderr() {
    let log_str = "2016-10-06T00:17:09.669794203Z stderr F log content 2";
    let crilog = CriLog::from_str(log_str).expect("failed to parse");
    assert!(crilog.is_stderr());
    assert_eq!(crilog.tag(), "F");
    assert_eq!(crilog.log(), "log content 2");
}

#[test]
fn through_from_str_trait() {
    let crilog: CriLog = "2016-10-06T00:17:09.669794203Z stderr F x".parse().expect("parses");
    assert!(crilog.is_stderr());
    assert_eq!(crilog.log(), "x");
}

#[test]
fn timestamp_fields_in_utc() {
    let crilog = parse("2016-10-06T00:17:09.669794202Z stdout P msg").unwrap();
    let expected = Timestamp {
        year: 2016,
        month: 10,
        day: 6,
        hour: 0,
        minute: 17,
        second: 9,
        nanosecond: 669794202,
        offset_seconds: 0,
    };
    assert_eq!(*crilog.timestamp(), expected);
}

#[test]
fn timestamp_offset_preserved() {
    let crilog = parse("2021-03-04T05:06:07+02:30 stdout F hello").unwrap();
    let expected = Timestamp {
        year: 2021,
        month: 3,
        day: 4,
        hour: 5,
        minute: 6,
        second: 7,
        nanosecond: 0,
        offset_seconds: 9000,
    };
    assert_eq!(*crilog.timestamp(), expected);
}

#[test]
fn negative_offset_preserved() {
    let crilog = parse("1999-12-31T23:59:59.5-08:00 stderr F x").unwrap();
    assert_eq!(crilog.timestamp().offset_seconds, -28800);
    assert_eq!(crilog.timestamp().nanosecond, 500000000);
    assert_eq!(crilog.timestamp().hour, 23);
}

#[test]
fn empty_line_missing_timestamp() {
    assert_eq!(parse("").err(), Some(ParsingError::MissingTimestamp));
}

#[test]
fn blank_line_missing_timestamp() {
    assert_eq!(parse("   ").err(), Some(ParsingError::MissingTimestamp));
    assert_eq!(parse("\t \n").err(), Some(ParsingError::MissingTimestamp));
}

#[test]
fn bad_timestamp_reported() {
    assert_eq!(
        parse("not-a-timestamp stdout P msg").err(),
        Some(ParsingError::TimestampFormat("not-a-timestamp".to_string()))
    );
}

#[test]
fn timestamp_without_offset_rejected() {
    assert_eq!(
        parse("2016-10-06T00:17:09 stdout P msg").err(),
        Some(ParsingError::TimestampFormat("2016-10-06T00:17:09".to_string()))
    );
}

#[test]
fn invalid_date_rejected() {
    assert_eq!(
        parse("2016-02-30T00:00:00Z stdout P msg").err(),
        Some(ParsingError::TimestampFormat("2016-02-30T00:00:00Z".to_string()))
    );
}

#[test]
fn timestamp_error_comes_first() {
    assert_eq!(
        parse("bad unknown").err(),
        Some(ParsingError::TimestampFormat("bad".to_string()))
    );
}

#[test]
fn missing_stream_type() {
    assert_eq!(
        parse("2016-10-06T00:17:09.669794202Z").err(),
        Some(ParsingError::MissingStreamType)
    );
}

#[test]
fn unknown_stream_type() {
    assert_eq!(
        parse("2016-10-06T00:17:09.669794202Z unknown P msg").err(),
        Some(ParsingError::InvalidStreamType("unknown".to_string()))
    );
}

#[test]
fn stream_type_is_case_sensitive() {
    assert_eq!(
        parse("2016-10-06T00:17:09.669794202Z STDOUT P msg").err(),
        Some(ParsingError::InvalidStreamType("STDOUT".to_string()))
    );
}

#[test]
fn stream_error_comes_before_missing_tag() {
    assert_eq!(
        parse("2016-10-06T00:17:09.669794202Z stdin").err(),
        Some(ParsingError::InvalidStreamType("stdin".to_string()))
    );
}

#[test]
fn missing_log_tag() {
    assert_eq!(
        parse("2016-10-06T00:17:09.669794202Z stdout").err(),
        Some(ParsingError::MissingLogTag)
    );
}

#[test]
fn empty_message() {
    let crilog = parse("2016-10-06T00:17:09.669794202Z stdout P").unwrap();
    assert!(crilog.is_stdout());
    assert_eq!(crilog.tag(), "P");
    assert_eq!(crilog.log(), "");
}

#[test]
fn irregular_spacing_collapsed() {
    let crilog = parse("2016-10-06T00:17:09.669794202Z  stdout   P   a    b").unwrap();
    assert_eq!(crilog.tag(), "P");
    assert_eq!(crilog.log(), "a b");
}

#[test]
fn tabs_and_unicode_spaces_separate() {
    let crilog =
        parse("\t2016-10-06T00:17:09.669794202Z\tstderr\u{3000}F a\u{a0}b\u{2003}c  \n").unwrap();
    assert!(crilog.is_stderr());
    assert_eq!(crilog.tag(), "F");
    assert_eq!(crilog.log(), "a b c");
}

#[test]
fn tag_is_opaque() {
    let crilog = parse("2016-10-06T00:17:09.669794202Z stdout partial-ü msg").unwrap();
    assert_eq!(crilog.tag(), "partial-ü");
    assert_eq!(crilog.log(), "msg");
}

#[test]
fn stdout_and_stderr_exclusive() {
    for line in [
        "2016-10-06T00:17:09.669794202Z stdout P a",
        "2016-10-06T00:17:09.669794202Z stderr P a",
    ] {
        let crilog = parse(line).unwrap();
        assert!(crilog.is_stdout() != crilog.is_stderr());
    }
}

#[test]
fn stream_token_round_trip() {
    for t in [StreamType::StdOut, StreamType::StdErr] {
        assert_eq!(StreamType::from_str(t.as_str()).ok(), Some(t));
    }
    assert_eq!(StreamType::StdOut.as_str(), "stdout");
    assert_eq!(StreamType::StdErr.as_str(), "stderr");
}

#[test]
fn stream_from_str_rejects() {
    assert!(StreamType::from_str("Stdout").is_err());
    assert!(StreamType::from_str("").is_err());
    assert!(StreamType::from_str("stdoutx").is_err());
}

#[test]
fn from_words_uses_given_stamp() {
    let ws: Vec<String> = ["x", "stdout", "F", "one", "two"].iter().map(|s| s.to_string()).collect();
    let stamp = Timestamp {
        year: 2000,
        month: 1,
        day: 2,
        hour: 3,
        minute: 4,
        second: 5,
        nanosecond: 6,
        offset_seconds: -60,
    };
    let crilog = CriLog::from_words(&ws, Some(stamp)).unwrap();
    assert_eq!(*crilog.timestamp(), stamp);
    assert!(crilog.is_stdout());
    assert_eq!(crilog.tag(), "F");
    assert_eq!(crilog.log(), "one two");
    assert_eq!(
        CriLog::from_words(&ws, None).err(),
        Some(ParsingError::TimestampFormat("x".to_string()))
    );
    assert_eq!(CriLog::from_words(&Vec::new(), None).err(), Some(ParsingError::MissingTimestamp));
}
