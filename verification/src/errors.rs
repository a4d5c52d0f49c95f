//! Error taxonomy and the best-effort classifier for service failures.
//!
//! Remote failures reach the library as error text.  The classifier
//! inspects that text for the status markers the service embeds
//! (404, 409, 412) and maps them to a small taxonomy; anything else
//! becomes a generic HTTP error.  The inspection is substring search,
//! specified exactly.

use vstd::prelude::*;

verus! {

/// The taxonomy of failures a caller can observe.
#[derive(Clone, Copy, PartialEq, Eq, Structural, Debug)]
pub enum ErrorKind {
    /// The account client could not be constructed (bad or missing credential).
    Construction,
    /// A partition-key scalar had an unsupported shape.
    TypeError,
    /// A required value was missing or malformed (undiscoverable partition
    /// key, query without a partition key, empty partition-key path list).
    ValueError,
    /// The service reported status 404.
    NotFound,
    /// The service reported status 409.
    AlreadyExists,
    /// The service reported status 412.
    PreconditionFailed,
    /// Any other remote failure.
    Http,
    /// The operation family is not supported by this client.
    NotImplemented,
}

/// An error surfaced to the caller: its kind, the status code when one
/// was recognized, and the original message for display.
#[derive(Debug)]
pub struct CosmosError {
    pub kind: ErrorKind,
    pub status: Option<u16>,
    pub message: String,
}

/// `pat` occurs in `text` starting at position `i`.
pub open spec fn occurs_at(text: Seq<char>, pat: Seq<char>, i: int) -> bool {
    0 <= i && i + pat.len() <= text.len() && text.subrange(i, i + pat.len()) == pat
}

/// `pat` occurs somewhere in `text`.
pub open spec fn contains_seq(text: Seq<char>, pat: Seq<char>) -> bool {
    exists|i: int| occurs_at(text, pat, i)
}

/// Substring search: does `text` contain `pat`?
pub fn str_contains(text: &str, pat: &str) -> (r: bool)
    ensures
        r == contains_seq(text@, pat@),
{
    let tlen: usize = text.unicode_len();
    let plen: usize = pat.unicode_len();
    if plen > tlen {
        proof {
            assert forall|i: int| !occurs_at(text@, pat@, i) by {}
        }
        return false;
    }
    let mut i: usize = 0;
    loop
        invariant
            plen <= tlen,
            i <= tlen - plen + 1,
            tlen == text@.len(),
            plen == pat@.len(),
            forall|k: int| 0 <= k < i ==> !occurs_at(text@, pat@, k),
        decreases tlen - plen + 1 - i,
    {
        if i > tlen - plen {
            proof {
                assert forall|k: int| !occurs_at(text@, pat@, k) by {}
            }
            return false;
        }
        let mut j: usize = 0;
        let mut mismatch: bool = false;
        while j < plen
            invariant
                i + plen <= tlen,
                j <= plen,
                tlen == text@.len(),
                plen == pat@.len(),
                !mismatch ==> forall|m: int| 0 <= m < j ==> text@[i + m] == pat@[m],
                mismatch ==> exists|m: int| 0 <= m < plen && text@[i + m] != pat@[m],
            decreases plen - j,
        {
            if text.get_char(i + j) != pat.get_char(j) {
                mismatch = true;
                j = plen;
            } else {
                j = j + 1;
            }
        }
        if !mismatch {
            proof {
                assert(text@.subrange(i as int, i + pat@.len()) =~= pat@);
                assert(occurs_at(text@, pat@, i as int));
            }
            return true;
        }
        proof {
            if occurs_at(text@, pat@, i as int) {
                let m = choose|m: int| 0 <= m < plen && text@[i + m] != pat@[m];
                assert(text@.subrange(i as int, i + pat@.len())[m] == text@[i + m]);
            }
        }
        i = i + 1;
    }
}

/// The status code a message reveals, if any: the markers the service
/// embeds for 409, 404 and 412, checked in that fixed order.
pub open spec fn spec_status_of_message(m: Seq<char>) -> Option<u16> {
    if contains_seq(m, "StatusCode: 409"@) || contains_seq(m, "\"code\":\"Conflict\""@) {
        Some(409u16)
    } else if contains_seq(m, "StatusCode: 404"@) || contains_seq(m, "\"code\":\"NotFound\""@) {
        Some(404u16)
    } else if contains_seq(m, "StatusCode: 412"@) || contains_seq(m, "\"code\":\"PreconditionFailed\""@) {
        Some(412u16)
    } else {
        None
    }
}

/// The error kind a recognized status maps to; anything unrecognized is
/// a generic HTTP error.
pub open spec fn spec_kind_of_status(s: Option<u16>) -> ErrorKind {
    match s {
        Some(c) => if c == 404 {
            ErrorKind::NotFound
        } else if c == 409 {
            ErrorKind::AlreadyExists
        } else if c == 412 {
            ErrorKind::PreconditionFailed
        } else {
            ErrorKind::Http
        },
        None => ErrorKind::Http,
    }
}

/// Extract an HTTP status code from error text, best effort.
pub fn extract_status_code(error_msg: &str) -> (r: Option<u16>)
    ensures
        r == spec_status_of_message(error_msg@),
{
    if str_contains(error_msg, "StatusCode: 409") || str_contains(error_msg, "\"code\":\"Conflict\"") {
        return Some(409);
    }
    if str_contains(error_msg, "StatusCode: 404") || str_contains(error_msg, "\"code\":\"NotFound\"") {
        return Some(404);
    }
    if str_contains(error_msg, "StatusCode: 412") || str_contains(error_msg, "\"code\":\"PreconditionFailed\"") {
        return Some(412);
    }
    None
}

/// Classify a remote failure from its message text alone: the kind
/// follows the recognized status marker, the status is carried when
/// known, and the message is kept verbatim for display.
pub fn classify_message(message: String) -> (e: CosmosError)
    ensures
        e.kind == spec_kind_of_status(spec_status_of_message(message@)),
        e.status == spec_status_of_message(message@),
        e.message == message,
{
    let status = extract_status_code(message.as_str());
    let kind = match status {
        Some(c) => {
            if c == 404 {
                ErrorKind::NotFound
            } else if c == 409 {
                ErrorKind::AlreadyExists
            } else if c == 412 {
                ErrorKind::PreconditionFailed
            } else {
                ErrorKind::Http
            }
        },
        None => ErrorKind::Http,
    };
    CosmosError { kind, status, message }
}

impl CosmosError {
    /// An error of the given kind with no recognized status.
    pub fn new(kind: ErrorKind, message: String) -> (e: CosmosError)
        ensures
            e.kind == kind,
            e.status.is_none(),
            e.message == message,
    {
        CosmosError { kind, status: None, message }
    }
}

} // verus!
