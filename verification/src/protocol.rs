//! The protocol adapter: validates the two fields of a request, and maps
//! the pipeline's outcome to the closed response type. A request whose
//! fields cannot be read, and any environment fault, become a plugin-panic
//! response; content-level failures stay ordinary error responses.

use vstd::prelude::*;
use crate::pipeline::{Fault, FormatResult};

verus! {

/// The response to one request: the three pipeline outcomes, or a
/// plugin-panic that tells the caller the request itself could not be
/// processed.
pub enum Response {
    Success { formatted_content: String },
    Ignored,
    Error { error: String },
    Panic { message: String },
}

pub open spec fn target_panic_prefix() -> Seq<char> {
    "Failed to get target: "@
}

pub open spec fn content_panic_prefix() -> Seq<char> {
    "Failed to get target-content: "@
}

/// Validates the two extracted request fields. A failure to read the
/// target identity, or the target content, is a plugin panic carrying the
/// extraction error behind the matching prefix; the pipeline is never
/// entered for such a request.
pub fn read_request(target: Result<String, String>, target_content: Result<String, String>) -> (r:
    Result<(String, String), Response>)
    ensures
        target matches Err(e) ==> (r matches Err(Response::Panic { message }) && message@
            == target_panic_prefix() + e@),
        target matches Ok(_) ==> (target_content matches Err(e) ==> (r matches Err(
            Response::Panic { message },
        ) && message@ == content_panic_prefix() + e@)),
        target matches Ok(t) ==> (target_content matches Ok(c) ==> (r matches Ok(pair) && pair.0
            == t && pair.1 == c)),
{
    let t = match target {
        Ok(t) => t,
        Err(e) => {
            let message = String::from_str("Failed to get target: ").concat(e.as_str());
            return Err(Response::Panic { message });
        },
    };
    let c = match target_content {
        Ok(c) => c,
        Err(e) => {
            let message = String::from_str("Failed to get target-content: ").concat(e.as_str());
            return Err(Response::Panic { message });
        },
    };
    Ok((t, c))
}

/// Maps the pipeline's outcome to a response: each of the three pipeline
/// outcomes keeps its content, and a fault becomes a plugin panic carrying
/// the fault's message.
pub fn response_for(outcome: Result<FormatResult, Fault>) -> (r: Response)
    ensures
        outcome matches Ok(FormatResult::Success { formatted_content }) ==> (r
            matches Response::Success { formatted_content: f } && f == formatted_content),
        outcome matches Ok(FormatResult::Ignored) ==> r is Ignored,
        outcome matches Ok(FormatResult::Error { error }) ==> (r matches Response::Error {
            error: e,
        } && e == error),
        outcome matches Err(f) ==> (r matches Response::Panic { message } && message@
            == f.spec_message()),
{
    match outcome {
        Ok(FormatResult::Success { formatted_content }) => Response::Success { formatted_content },
        Ok(FormatResult::Ignored) => Response::Ignored,
        Ok(FormatResult::Error { error }) => Response::Error { error },
        Err(f) => Response::Panic { message: f.message() },
    }
}

impl Response {
    /// The value of the response's status field: the protocol names the
    /// three pipeline outcomes `success`, `ignored` and `error`; a plugin
    /// panic has no status field.
    pub fn format_status(&self) -> (s: Option<&'static str>)
        ensures
            self is Success ==> (s matches Some(v) && v@ == "success"@),
            self is Ignored ==> (s matches Some(v) && v@ == "ignored"@),
            self is Error ==> (s matches Some(v) && v@ == "error"@),
            self is Panic ==> s is None,
    {
        match self {
            Response::Success { .. } => Some("success"),
            Response::Ignored => Some("ignored"),
            Response::Error { .. } => Some("error"),
            Response::Panic { .. } => None,
        }
    }
}

} // verus!
