//! A small closed tag that classifies a message as a request, a response, or
//! an error indicator, with conversion to and from its canonical textual form.

use vstd::prelude::*;

verus! {

/// The error returned when a textual tag is not one of the three canonical
/// literals. It carries the offending input for caller diagnostics.
#[derive(Debug)]
pub enum MsgTypeError {
    InvalidType(String),
}

/// The three-way classification tag of a message. `Request` asks for an
/// operation or value, `Response` carries the result of a prior request, and
/// `Error` reports that executing a request failed.
#[derive(Clone, Copy, Debug, PartialEq, Eq, Structural)]
pub enum MessageType {
    /// The message requests an operation to be executed or a value to be returned.
    Request,
    /// The message returns the result of an operation or the value requested.
    Response,
    /// The message indicates that an error occurred while executing a request.
    Error,
}

/// What parsing a textual tag means: exactly the three canonical lowercase
/// literals are accepted, each mapping to its variant; everything else is
/// rejected.
pub open spec fn parse_spec(s: Seq<char>) -> Option<MessageType> {
    if s == "request"@ {
        Some(MessageType::Request)
    } else if s == "response"@ {
        Some(MessageType::Response)
    } else if s == "error"@ {
        Some(MessageType::Error)
    } else {
        None
    }
}

impl MessageType {
    /// The canonical lowercase literal of each variant.
    pub open spec fn canonical(self) -> Seq<char> {
        match self {
            MessageType::Request => "request"@,
            MessageType::Response => "response"@,
            MessageType::Error => "error"@,
        }
    }

    /// Create this enum based on the string provided. Exactly the canonical
    /// literals are accepted; any other input is returned inside
    /// `MsgTypeError::InvalidType` unchanged.
    pub fn from_str(string: &str) -> (res: Result<Self, MsgTypeError>)
        ensures
            match res {
                Ok(t) => parse_spec(string@) == Some(t),
                Err(e) => parse_spec(string@) is None && (match e {
                    MsgTypeError::InvalidType(s) => s@ == string@,
                }),
            },
    {
        if str_eq(string, "request") {
            Ok(Self::Request)
        } else if str_eq(string, "response") {
            Ok(Self::Response)
        } else if str_eq(string, "error") {
            Ok(Self::Error)
        } else {
            Err(MsgTypeError::InvalidType(string.to_owned()))
        }
    }

    /// Return the canonical literal: a string from which `from_str` recreates
    /// the same variant.
    pub fn to_string(&self) -> (res: String)
        ensures
            res@ == self.canonical(),
    {
        match self {
            MessageType::Request => "request".to_owned(),
            MessageType::Response => "response".to_owned(),
            MessageType::Error => "error".to_owned(),
        }
    }
}

/// Character-by-character string comparison, so that callers learn whether the
/// two views are equal.
fn str_eq(a: &str, b: &str) -> (r: bool)
    ensures
        r == (a@ == b@),
{
    let a_len = a.unicode_len();
    let b_len = b.unicode_len();
    if a_len != b_len {
        return false;
    }
    let mut i: usize = 0;
    while i < a_len
        invariant
            0 <= i <= a_len,
            a_len == a@.len(),
            a_len == b@.len(),
            forall|j: int| 0 <= j < i ==> a@[j] == b@[j],
        decreases a_len - i,
    {
        if a.get_char(i) != b.get_char(i) {
            return false;
        }
        i += 1;
    }
    proof {
        assert(a@ =~= b@);
    }
    true
}

/// Parsing any canonical literal yields the matching variant.
pub proof fn lemma_parse_canonical_literals()
    ensures
        parse_spec("request"@) == Some(MessageType::Request),
        parse_spec("response"@) == Some(MessageType::Response),
        parse_spec("error"@) == Some(MessageType::Error),
{
    reveal_strlit("request");
    reveal_strlit("response");
    reveal_strlit("error");
    // The three literals have pairwise distinct lengths, so each one reaches
    // its own branch of `parse_spec`.
    assert("request"@.len() == 7);
    assert("response"@.len() == 8);
    assert("error"@.len() == 5);
}

/// Round-trip law: rendering any variant and parsing the result gives the
/// variant back.
pub proof fn lemma_parse_render_round_trip(v: MessageType)
    ensures
        parse_spec(v.canonical()) == Some(v),
{
    lemma_parse_canonical_literals();
}

} // verus!
