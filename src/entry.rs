//! One parsed log line and the errors that parsing reports.
use crate::stream::{lemma_stream_token_round_trip, stream_of, stream_token, StreamType};
use crate::text::{
    is_white_space, join_from, join_words, lemma_words_blank, lemma_words_concat, lemma_words_single,
    split_whitespace, strings_view, words,
};
use crate::timestamp::{parse_rfc3339, rfc3339_value, Timestamp};
use vstd::prelude::*;

verus! {

/// Why a line is no CRI log entry. Only the first problem, reading left to
/// right, is reported.
#[derive(Debug, Clone, PartialEq, Eq)]
pub enum ParsingError {
    MissingTimestamp,
    TimestampFormat(String),
    MissingStreamType,
    InvalidStreamType(String),
    MissingLogTag,
}

/// A single log entry in CRI log format, such as
/// `2016-10-06T00:17:09.669794202Z stdout P log content 1`.
pub struct CriLog {
    timestamp: Timestamp,
    stream_type: StreamType,
    tag: String,
    log: String,
}

/// What a `CriLog` holds.
pub struct CriLogView {
    pub timestamp: Timestamp,
    pub stream_type: StreamType,
    pub tag: Seq<char>,
    pub log: Seq<char>,
}

impl View for CriLog {
    type V = CriLogView;

    closed spec fn view(&self) -> CriLogView {
        CriLogView {
            timestamp: self.timestamp,
            stream_type: self.stream_type,
            tag: self.tag@,
            log: self.log@,
        }
    }
}

/// `r` is the outcome of reading the words `ws` of a line, where `stamp` is
/// what the first word reads as a timestamp. Fields are checked left to
/// right and the first failure is reported.
pub open spec fn parsed_from(
    ws: Seq<Seq<char>>,
    stamp: Option<Timestamp>,
    r: Result<CriLog, ParsingError>,
) -> bool {
    if ws.len() == 0 {
        r == Err::<CriLog, ParsingError>(ParsingError::MissingTimestamp)
    } else if stamp is None {
        r is Err && r->Err_0 is TimestampFormat && r->Err_0->TimestampFormat_0@ == ws[0]
    } else if ws.len() == 1 {
        r == Err::<CriLog, ParsingError>(ParsingError::MissingStreamType)
    } else if stream_of(ws[1]) is None {
        r is Err && r->Err_0 is InvalidStreamType && r->Err_0->InvalidStreamType_0@ == ws[1]
    } else if ws.len() == 2 {
        r == Err::<CriLog, ParsingError>(ParsingError::MissingLogTag)
    } else {
        &&& r is Ok
        &&& r->Ok_0@.timestamp == stamp->0
        &&& r->Ok_0@.stream_type == stream_of(ws[1])->0
        &&& r->Ok_0@.tag == ws[2]
        &&& r->Ok_0@.log == join_words(ws.skip(3))
    }
}

/// What the first of the words `ws` reads as a timestamp.
pub open spec fn first_stamp(ws: Seq<Seq<char>>) -> Option<Timestamp> {
    if ws.len() > 0 {
        rfc3339_value(ws[0])
    } else {
        None
    }
}

impl CriLog {
    /// Builds an entry from the words of a line, where `stamp` is what the
    /// first word reads as a timestamp.
    pub fn from_words(
        ws: &Vec<String>,
        stamp: Option<Timestamp>,
    ) -> (r: Result<CriLog, ParsingError>)
        ensures
            parsed_from(strings_view(ws@), stamp, r),
    {
        let ghost v = strings_view(ws@);
        if ws.len() == 0 {
            return Err(ParsingError::MissingTimestamp);
        }
        let timestamp = match stamp {
            Some(t) => t,
            None => {
                return Err(ParsingError::TimestampFormat(ws[0].clone()));
            },
        };
        if ws.len() == 1 {
            return Err(ParsingError::MissingStreamType);
        }
        assert(v[1] == ws@[1]@);
        let stream_type = match StreamType::from_str(ws[1].as_str()) {
            Ok(t) => t,
            Err(_) => {
                return Err(ParsingError::InvalidStreamType(ws[1].clone()));
            },
        };
        if ws.len() == 2 {
            return Err(ParsingError::MissingLogTag);
        }
        let tag = ws[2].clone();
        let log = join_from(ws, 3);
        Ok(CriLog { timestamp, stream_type, tag, log })
    }

    /// Parses one line: `<timestamp> <stream> <tag> <message...>`, fields
    /// apart by runs of whitespace. The message is the remaining words
    /// joined by single spaces.
    pub fn from_str(input: &str) -> (r: Result<CriLog, ParsingError>)
        ensures
            parsed_from(words(input@), first_stamp(words(input@)), r),
    {
        let ws = split_whitespace(input);
        if ws.len() == 0 {
            return Err(ParsingError::MissingTimestamp);
        }
        let stamp = match parse_rfc3339(ws[0].as_str()) {
            Ok(t) => Some(t),
            Err(_) => None,
        };
        CriLog::from_words(&ws, stamp)
    }

    /// The time of the entry.
    pub fn timestamp(&self) -> (r: &Timestamp)
        ensures
            *r == self@.timestamp,
    {
        &self.timestamp
    }

    /// Whether the entry was written to standard error.
    pub fn is_stderr(&self) -> (r: bool)
        ensures
            r == (self@.stream_type == StreamType::StdErr),
    {
        self.stream_type == StreamType::StdErr
    }

    /// Whether the entry was written to standard output.
    pub fn is_stdout(&self) -> (r: bool)
        ensures
            r == (self@.stream_type == StreamType::StdOut),
    {
        self.stream_type == StreamType::StdOut
    }

    /// The tag of the entry, such as `F` for a full line or `P` for a part.
    pub fn tag(&self) -> (r: &str)
        ensures
            r@ == self@.tag,
    {
        self.tag.as_str()
    }

    /// The message of the entry.
    pub fn log(&self) -> (r: &str)
        ensures
            r@ == self@.log,
    {
        self.log.as_str()
    }
}

impl std::str::FromStr for CriLog {
    type Err = ParsingError;

    fn from_str(input: &str) -> Result<CriLog, ParsingError> {
        CriLog::from_str(input)
    }
}

/// Whether `s` is non-empty and holds no whitespace.
pub open spec fn is_token(s: Seq<char>) -> bool {
    s.len() > 0 && forall|i: int| 0 <= i < s.len() ==> !is_white_space(#[trigger] s[i])
}

/// Whether `s` is non-empty and holds only whitespace.
pub open spec fn is_separator(s: Seq<char>) -> bool {
    s.len() > 0 && forall|i: int| 0 <= i < s.len() ==> is_white_space(#[trigger] s[i])
}

/// A line `<timestamp> <stream> <tag> <message>` whose timestamp is valid
/// RFC 3339 and whose stream is `stdout` or `stderr` parses, whatever the
/// whitespace between its fields: the entry holds the timestamp's value,
/// the named stream, the tag as written, and the words of the message
/// joined by single spaces.
pub proof fn lemma_well_formed_line_parses(
    stamp: Seq<char>,
    sep1: Seq<char>,
    stream: Seq<char>,
    sep2: Seq<char>,
    tag: Seq<char>,
    message: Seq<char>,
)
    requires
        is_token(stamp),
        is_token(stream),
        is_token(tag),
        is_separator(sep1),
        is_separator(sep2),
        message.len() == 0 || is_white_space(message[0]),
        rfc3339_value(stamp) is Some,
        stream_of(stream) is Some,
    ensures
        ({
            let line = stamp + sep1 + stream + sep2 + tag + message;
            &&& words(line) == seq![stamp, stream, tag] + words(message)
            &&& forall|r: Result<CriLog, ParsingError>| #[trigger]
                parsed_from(words(line), first_stamp(words(line)), r) ==> {
                    &&& r is Ok
                    &&& r->Ok_0@.timestamp == rfc3339_value(stamp)->0
                    &&& r->Ok_0@.stream_type == stream_of(stream)->0
                    &&& r->Ok_0@.tag == tag
                    &&& r->Ok_0@.log == join_words(words(message))
                }
        }),
{
    let line = stamp + sep1 + stream + sep2 + tag + message;
    lemma_words_single(stamp);
    lemma_words_single(stream);
    lemma_words_single(tag);
    lemma_words_blank(sep1);
    lemma_words_blank(sep2);
    lemma_words_concat(stamp, sep1);
    lemma_words_concat(stamp + sep1, stream);
    lemma_words_concat(stamp + sep1 + stream, sep2);
    lemma_words_concat(stamp + sep1 + stream + sep2, tag);
    lemma_words_concat(stamp + sep1 + stream + sep2 + tag, message);
    assert(words(line) =~= seq![stamp, stream, tag] + words(message));
    assert(words(line).skip(3) =~= words(message));
}

/// Of a parsed entry exactly one of `is_stdout` and `is_stderr` holds, and
/// the token of its stream reads back as that same stream.
pub proof fn lemma_entry_stream(e: CriLog)
    ensures
        (e@.stream_type == StreamType::StdOut) != (e@.stream_type == StreamType::StdErr),
        stream_of(stream_token(e@.stream_type)) == Some(e@.stream_type),
{
    lemma_stream_token_round_trip(e@.stream_type);
}

} // verus!
