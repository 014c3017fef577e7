//! The stream a log line was written to.
use vstd::prelude::*;

verus! {

/// Which standard stream of the process produced a log line.
#[derive(Debug, Clone, Copy, PartialEq, Eq, Structural)]
pub enum StreamType {
    StdOut,
    StdErr,
}

/// A stream token other than `stdout` or `stderr`.
#[derive(Debug, Clone, PartialEq, Eq)]
pub struct InvalidStreamType(String);

impl View for InvalidStreamType {
    type V = Seq<char>;

    closed spec fn view(&self) -> Seq<char> {
        self.0@
    }
}

/// The token that names `t` in a log line.
pub open spec fn stream_token(t: StreamType) -> Seq<char> {
    match t {
        StreamType::StdOut => seq!['s', 't', 'd', 'o', 'u', 't'],
        StreamType::StdErr => seq!['s', 't', 'd', 'e', 'r', 'r'],
    }
}

/// The stream that token `w` names, matched case-sensitively.
pub open spec fn stream_of(w: Seq<char>) -> Option<StreamType> {
    if w == stream_token(StreamType::StdOut) {
        Some(StreamType::StdOut)
    } else if w == stream_token(StreamType::StdErr) {
        Some(StreamType::StdErr)
    } else {
        None
    }
}

/// Whether `s` and `w` hold the same characters.
fn same_chars(s: &str, w: &str) -> (r: bool)
    ensures
        r == (s@ == w@),
{
    let n = s.unicode_len();
    if n != w.unicode_len() {
        return false;
    }
    let mut i: usize = 0;
    while i < n
        invariant
            n == s@.len() == w@.len(),
            i <= n,
            forall|j: int| 0 <= j < i ==> s@[j] == w@[j],
        decreases n - i,
    {
        if s.get_char(i) != w.get_char(i) {
            return false;
        }
        i = i + 1;
    }
    proof {
        assert(s@ =~= w@);
    }
    true
}

impl StreamType {
    /// Reads a stream token: `stdout` or `stderr`, nothing else.
    pub fn from_str(input: &str) -> (r: Result<StreamType, InvalidStreamType>)
        ensures
            match stream_of(input@) {
                Some(t) => r == Ok::<StreamType, InvalidStreamType>(t),
                None => r is Err && r->Err_0@ == input@,
            },
    {
        let out = "stdout";
        let err = "stderr";
        proof {
            reveal_strlit("stdout");
            reveal_strlit("stderr");
            assert(out@ =~= stream_token(StreamType::StdOut));
            assert(err@ =~= stream_token(StreamType::StdErr));
        }
        if same_chars(input, err) {
            Ok(StreamType::StdErr)
        } else if same_chars(input, out) {
            Ok(StreamType::StdOut)
        } else {
            Err(InvalidStreamType(input.to_owned()))
        }
    }

    /// The token that names this stream in a log line.
    pub fn as_str(&self) -> (r: &'static str)
        ensures
            r@ == stream_token(*self),
    {
        proof {
            reveal_strlit("stdout");
            reveal_strlit("stderr");
        }
        match self {
            StreamType::StdOut => {
                let r = "stdout";
                assert(r@ =~= stream_token(*self));
                r
            },
            StreamType::StdErr => {
                let r = "stderr";
                assert(r@ =~= stream_token(*self));
                r
            },
        }
    }
}

impl std::str::FromStr for StreamType {
    type Err = InvalidStreamType;

    fn from_str(input: &str) -> Result<StreamType, InvalidStreamType> {
        StreamType::from_str(input)
    }
}

/// The token of a stream reads back as that same stream.
pub proof fn lemma_stream_token_round_trip(t: StreamType)
    ensures
        stream_of(stream_token(t)) == Some(t),
{
    assert(stream_token(StreamType::StdOut) != stream_token(StreamType::StdErr)) by {
        assert(stream_token(StreamType::StdOut)[3] != stream_token(StreamType::StdErr)[3]);
    }
}

} // verus!
