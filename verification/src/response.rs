//! What reaches the client.
//!
//! A request that went well is answered with a short message.  One that
//! failed is answered with an opaque server error, whatever the failure was:
//! its detail goes to the operator's log and never to the client.

use vstd::prelude::*;
use vstd::string::StringExecFns;
use crate::connpool::INTERNAL_SERVER_ERROR;
use crate::errors::{PoolError, TxnError};

verus! {

/// The status of a request that went well.
pub const OK: u16 = 200;

/// The status of a request for something that is not there.
pub const NOT_FOUND: u16 = 404;

/// A response that is one string.
#[derive(Clone, Debug, PartialEq, Eq)]
pub struct MessageResponse {
    pub msg: String,
}

impl MessageResponse {
    /// The message that says all went well.
    pub fn ok() -> (r: MessageResponse)
        ensures
            r.msg@ == "ok"@,
    {
        MessageResponse { msg: "ok".to_owned() }
    }
}

/// What the client is told when the server failed.
pub fn handle_500() -> (r: MessageResponse)
    ensures
        r.msg@ == "internal server error"@,
{
    MessageResponse { msg: "internal server error".to_owned() }
}

/// What the client is told when there is nothing at the path it asked for.
pub fn handle_404() -> (r: MessageResponse)
    ensures
        r.msg@ == "not found"@,
{
    MessageResponse { msg: "not found".to_owned() }
}

impl TxnError {
    /// The error in words, for the operator.
    pub open spec fn text(self) -> Seq<char> {
        match self {
            TxnError::Database { message, .. } => message@,
            TxnError::Driver { message } => message@,
            TxnError::UnitOfWork { message } => message@,
            TxnError::Provider(PoolError::Unconfigured) => "no connection pool is configured"@,
            TxnError::Provider(PoolError::Exhausted) => "timed out waiting for a connection"@,
        }
    }

    /// Puts the error in words.
    pub fn message(&self) -> (s: String)
        ensures
            s@ == self.text(),
    {
        match self {
            TxnError::Database { message, .. } => message.clone(),
            TxnError::Driver { message } => message.clone(),
            TxnError::UnitOfWork { message } => message.clone(),
            TxnError::Provider(PoolError::Unconfigured) => "no connection pool is configured".to_owned(),
            TxnError::Provider(PoolError::Exhausted) => "timed out waiting for a connection".to_owned(),
        }
    }

    /// Answers a request that failed with this error: the status for the
    /// client, which is the same for every error, and the line for the log,
    /// which holds the detail.
    pub fn respond_to(&self) -> (r: (u16, String))
        ensures
            r.0 == INTERNAL_SERVER_ERROR,
            r.1@ == "error handling request: "@ + self.text(),
    {
        let text = self.message();
        let line = String::from_str("error handling request: ").concat(text.as_str());
        (INTERNAL_SERVER_ERROR, line)
    }
}

/// What the client sees of an outcome: its status and the message that goes
/// with it.
pub open spec fn shown<T>(outcome: Result<T, TxnError>) -> (u16, Seq<char>) {
    match outcome {
        Ok(_) => (OK, "ok"@),
        Err(_) => (INTERNAL_SERVER_ERROR, "internal server error"@),
    }
}

/// Answers the client: success with the message that says so, any failure
/// with the one opaque server error.
pub fn answer<T>(outcome: &Result<T, TxnError>) -> (r: (u16, MessageResponse))
    ensures
        r.0 == shown(*outcome).0,
        r.1.msg@ == shown(*outcome).1,
{
    match outcome {
        Ok(_) => (OK, MessageResponse::ok()),
        Err(e) => {
            let (status, _) = e.respond_to();
            (status, handle_500())
        },
    }
}

/// Nothing of an error reaches the client: two failures are answered alike,
/// whatever they are.
pub proof fn lemma_failures_look_alike<T>(a: TxnError, b: TxnError)
    ensures
        shown(Err::<T, TxnError>(a)) == shown(Err::<T, TxnError>(b)),
{
}

} // verus!
