//! The uniform response envelope: a finished execution is wrapped with an
//! OK status, any failure with an error status and a message carrying the
//! root cause.

use vstd::prelude::*;

use crate::model::{error_message, ExecuteSqlResponse, SqlError};

verus! {

/// The status of a successful request.
pub const STATUS_OK: u16 = 200;

/// The status of a failed dispatch, connection or execution.
pub const STATUS_INTERNAL_SERVER_ERROR: u16 = 500;

/// The status of a payload the decoder could not read.
pub const STATUS_BAD_REQUEST: u16 = 400;

/// What goes back over the wire: either the execution's result under an
/// OK status, or an error message under an error status.
pub enum Reply {
    Success { status: u16, result: ExecuteSqlResponse },
    Failure { status: u16, message: String },
}

/// Wraps the outcome of a dispatched request. Success keeps the result
/// untouched under the OK status; every dispatch, connect or execute
/// failure becomes an error envelope whose message names the cause.
pub fn respond(outcome: Result<ExecuteSqlResponse, SqlError>) -> (r: Reply)
    ensures
        outcome matches Ok(resp) ==> r == (Reply::Success { status: STATUS_OK, result: resp }),
        outcome matches Err(e) ==> (r matches Reply::Failure { status, message } && status
            == STATUS_INTERNAL_SERVER_ERROR && message@ == error_message(e)),
{
    match outcome {
        Ok(result) => Reply::Success { status: STATUS_OK, result },
        Err(e) => Reply::Failure { status: STATUS_INTERNAL_SERVER_ERROR, message: e.message() },
    }
}

/// Wraps a payload the decoder could not read: a client error, raised
/// before any dispatch, so no connection is ever attempted for it.
pub fn decode_failure(detail: String) -> (r: Reply)
    ensures
        r == (Reply::Failure { status: STATUS_BAD_REQUEST, message: detail }),
{
    Reply::Failure { status: STATUS_BAD_REQUEST, message: detail }
}

} // verus!
