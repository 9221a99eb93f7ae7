use ::redis::{ErrorKind, RedisError};
use vstd::prelude::*;

use crate::dialogue::{internal_error, Failure, Status};

verus! {

/// What is wrong with a value that the cache holds.
#[derive(Debug, Clone, Copy, PartialEq, Eq, Structural)]
pub enum FaultKind {
    /// It is of another type than expected.
    TypeError,
    /// It is not the JSON that was expected.
    Serialize,
}

/// The error about a value that the cache holds.
#[derive(Debug, PartialEq, Eq)]
pub struct Fault {
    pub kind: FaultKind,
    pub text: String,
}

/// The mathematical content of a [`Fault`].
pub struct FaultView {
    pub kind: FaultKind,
    pub text: Seq<char>,
}

impl DeepView for Fault {
    type V = FaultView;

    open spec fn deep_view(&self) -> FaultView {
        FaultView { kind: self.kind, text: self.text@ }
    }
}

/// `RedisError::from` on a kind and a description, the `RedisError::kind` of
/// the error, and what its `Display` writes: the kind is the one that was
/// given, the text is the description. A kind that [`FaultKind`] does not have
/// would be `None`.
#[verifier::external_body]
fn describe(kind: FaultKind, description: &'static str) -> (told: (Option<FaultKind>, String))
    ensures
        told.0 == Some(kind),
        told.1@ == description@,
{
    let kind = match kind {
        FaultKind::TypeError => ErrorKind::TypeError,
        FaultKind::Serialize => ErrorKind::Serialize,
    };
    let err = RedisError::from((kind, description));
    let kind = match err.kind() {
        ErrorKind::TypeError => Some(FaultKind::TypeError),
        ErrorKind::Serialize => Some(FaultKind::Serialize),
        _ => None,
    };
    (kind, err.to_string())
}

/// A fault with a description.
pub(crate) fn described_fault(kind: FaultKind, description: &'static str) -> (fault: Fault)
    ensures
        fault.deep_view() == (FaultView { kind, text: description@ }),
{
    let told = describe(kind, description);
    Fault { kind: told.0.unwrap(), text: told.1 }
}

/// The text of a fault with a detail.
pub open spec fn detailed(description: Seq<char>, detail: Seq<char>) -> Seq<char> {
    description + ": "@ + detail
}

/// `RedisError::from` on a kind, a description and a detail, the
/// `RedisError::kind` of the error, and what its `Display` writes: the kind is
/// the one that was given, the text is the description, a colon and a space,
/// and the detail. A kind that [`FaultKind`] does not have would be `None`.
#[verifier::external_body]
fn describe_in_detail(kind: FaultKind, description: &'static str, detail: String) -> (told: (
    Option<FaultKind>,
    String,
))
    ensures
        told.0 == Some(kind),
        told.1@ == detailed(description@, detail@),
{
    let kind = match kind {
        FaultKind::TypeError => ErrorKind::TypeError,
        FaultKind::Serialize => ErrorKind::Serialize,
    };
    let err = RedisError::from((kind, description, detail));
    let kind = match err.kind() {
        ErrorKind::TypeError => Some(FaultKind::TypeError),
        ErrorKind::Serialize => Some(FaultKind::Serialize),
        _ => None,
    };
    (kind, err.to_string())
}

/// A fault with a description and a detail.
pub(crate) fn detailed_fault(kind: FaultKind, description: &'static str, detail: String) -> (fault:
    Fault)
    ensures
        fault.deep_view() == (FaultView { kind, text: detailed(description@, detail@) }),
{
    let told = describe_in_detail(kind, description, detail);
    Fault { kind: told.0.unwrap(), text: told.1 }
}

/// The answer to a request for which no connection to the cache is to be had.
pub fn redis_unavailable(err: &str) -> (failure: Failure)
    ensures
        failure.deep_view() == internal_error("failed to obtain redis connection: "@ + err@),
        failure.status is InternalServerError,
        failure.message@ == "failed to obtain redis connection: "@ + err@,
{
    Failure {
        status: Status::InternalServerError,
        message: "failed to obtain redis connection: ".to_string().concat(err),
    }
}

} // verus!
