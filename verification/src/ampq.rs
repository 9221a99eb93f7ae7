use vstd::prelude::*;

use crate::dialogue::{internal_error, Failure, Status};

verus! {

/// The answer to a request for which no connection to the message broker is
/// to be had.
pub fn rabbitmq_unavailable(err: &str) -> (failure: Failure)
    ensures
        failure.deep_view() == internal_error("failed to obtain rabbitmq connection: "@ + err@),
        failure.status is InternalServerError,
        failure.message@ == "failed to obtain rabbitmq connection: "@ + err@,
{
    Failure {
        status: Status::InternalServerError,
        message: "failed to obtain rabbitmq connection: ".to_string().concat(err),
    }
}

} // verus!
