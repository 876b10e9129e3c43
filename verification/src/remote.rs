//! What came back from the two remote endpoints, and how it is judged.
//!
//! The caller performs the request and reports it as a [`Reply`]: either
//! nothing arrived, or a response arrived with a status code and a body that
//! did or did not decode into the expected shape. Judging the reply is done
//! here, so that every caller treats the same replies as failures.

use vstd::prelude::*;

verus! {

/// The body of the status endpoint: `{"status": <bool>}`.
pub struct StatusResponse {
    /// `true` for online, `false` for offline.
    pub status: bool,
}

/// The body of the identifier endpoint: `{"uid": <string>}`.
pub struct UidResponse {
    /// The freshly generated identifier.
    pub uid: String,
}

/// Why a request produced no usable value.
#[derive(Clone, Copy, PartialEq, Eq, Debug, Structural)]
pub enum FetchError {
    /// No successful response: the connection failed, timed out, or the
    /// service answered with a status code outside 200..=299.
    Transport,
    /// A successful response whose body did not have the expected shape.
    Decode,
}

/// One request as the caller observed it.
pub enum Reply<T> {
    /// No response arrived.
    Unreachable,
    /// A response arrived. `body` is the decoded payload, or `None` where the
    /// body was malformed or of another shape.
    Answered { code: u16, body: Option<T> },
}

/// Whether an HTTP status code reports success.
pub open spec fn is_success_code(code: u16) -> bool {
    200 <= code && code <= 299
}

/// The line that is logged when the status endpoint fails with `e`.
pub open spec fn status_failure_text(e: FetchError) -> Seq<char> {
    match e {
        FetchError::Transport => "Failed to fetch status"@,
        FetchError::Decode => "Failed to parse status response"@,
    }
}

/// The line that is logged when the identifier endpoint fails with `e`.
pub open spec fn uid_failure_text(e: FetchError) -> Seq<char> {
    match e {
        FetchError::Transport => "Failed to fetch UID"@,
        FetchError::Decode => "Failed to parse UID response"@,
    }
}

impl<T> Reply<T> {
    /// The payload of a reply that counts as a success, or the reason why it
    /// does not. The status code is judged before the body: a response
    /// outside 200..=299 fails whatever it carries.
    pub open spec fn outcome(self) -> Result<T, FetchError> {
        match self {
            Reply::Unreachable => Err(FetchError::Transport),
            Reply::Answered { code, body } => if !is_success_code(code) {
                Err(FetchError::Transport)
            } else {
                match body {
                    Some(payload) => Ok(payload),
                    None => Err(FetchError::Decode),
                }
            },
        }
    }

    /// Judges a reply.
    pub fn into_result(self) -> (r: Result<T, FetchError>)
        ensures
            r == self.outcome(),
    {
        match self {
            Reply::Unreachable => Err(FetchError::Transport),
            Reply::Answered { code, body } => {
                if code < 200 || code > 299 {
                    Err(FetchError::Transport)
                } else {
                    match body {
                        Some(payload) => Ok(payload),
                        None => Err(FetchError::Decode),
                    }
                }
            },
        }
    }
}

/// The liveness flag that a reply of the status endpoint reports, or the
/// line to log where the reply is a failure.
pub fn check_status(reply: Reply<StatusResponse>) -> (r: Result<bool, String>)
    ensures
        (match reply.outcome() {
            Ok(body) => r == Ok::<bool, String>(body.status),
            Err(e) => r matches Err(line) && line@ == status_failure_text(e),
        }),
{
    match reply.into_result() {
        Ok(body) => Ok(body.status),
        Err(FetchError::Transport) => Err("Failed to fetch status".to_owned()),
        Err(FetchError::Decode) => Err("Failed to parse status response".to_owned()),
    }
}

/// The identifier that a reply of the identifier endpoint carries, or the
/// line to log where the reply is a failure.
pub fn fetch_uid(reply: Reply<UidResponse>) -> (r: Result<String, String>)
    ensures
        (match reply.outcome() {
            Ok(body) => r matches Ok(uid) && uid@ == body.uid@,
            Err(e) => r matches Err(line) && line@ == uid_failure_text(e),
        }),
{
    match reply.into_result() {
        Ok(body) => Ok(body.uid),
        Err(FetchError::Transport) => Err("Failed to fetch UID".to_owned()),
        Err(FetchError::Decode) => Err("Failed to parse UID response".to_owned()),
    }
}

} // verus!
