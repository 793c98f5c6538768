//! The connection provider, at its boundary.
//!
//! The provider hands the caller one live connection for the length of one
//! operation, or fails in one of two ways that the caller has to tell apart:
//! no pool was ever set up, which is a mistake of deployment, or the pool has
//! no connection to spare, which passes.  What the pool does to find a
//! connection is not decided here; what its findings mean is.

use vstd::prelude::*;
use crate::errors::{PoolError, TxnError};

verus! {

/// The status of a request that failed for a fault of the server.
pub const INTERNAL_SERVER_ERROR: u16 = 500;

/// The status of a request that the server has no capacity for right now.
pub const SERVICE_UNAVAILABLE: u16 = 503;

/// What became of the search for a connection.
#[derive(Debug, PartialEq, Eq)]
pub enum Checkout<H> {
    /// No pool is managed.
    NoPool,
    /// The pool gave no connection before its timeout ran out.
    TimedOut,
    /// The pool gave this connection.
    Connection(H),
}

impl<H> Checkout<H> {
    /// What the search means to the caller.
    pub open spec fn outcome(self) -> Result<H, PoolError> {
        match self {
            Checkout::NoPool => Err(PoolError::Unconfigured),
            Checkout::TimedOut => Err(PoolError::Exhausted),
            Checkout::Connection(handle) => Ok(handle),
        }
    }
}

impl PoolError {
    /// The status that answers a request for which no connection could be
    /// had: a server fault when there is no pool, a lack of capacity when the
    /// pool is exhausted.
    pub open spec fn status_code(self) -> u16 {
        match self {
            PoolError::Unconfigured => INTERNAL_SERVER_ERROR,
            PoolError::Exhausted => SERVICE_UNAVAILABLE,
        }
    }

    /// The status for this failure.
    pub fn status(&self) -> (code: u16)
        ensures
            code == self.status_code(),
    {
        match self {
            PoolError::Unconfigured => INTERNAL_SERVER_ERROR,
            PoolError::Exhausted => SERVICE_UNAVAILABLE,
        }
    }
}

/// Turns the provider's findings into a connection or the reason why there is
/// none.
pub fn acquire<H>(found: Checkout<H>) -> (r: Result<H, PoolError>)
    ensures
        r == found.outcome(),
{
    match found {
        Checkout::NoPool => Err(PoolError::Unconfigured),
        Checkout::TimedOut => Err(PoolError::Exhausted),
        Checkout::Connection(handle) => Ok(handle),
    }
}

impl From<PoolError> for TxnError {
    fn from(e: PoolError) -> (r: TxnError) {
        TxnError::Provider(e)
    }
}

impl vstd::std_specs::convert::FromSpecImpl<PoolError> for TxnError {
    open spec fn obeys_from_spec() -> bool {
        true
    }

    open spec fn from_spec(e: PoolError) -> TxnError {
        TxnError::Provider(e)
    }
}

/// The two failures of the provider can be told apart, by their kind and by
/// the status they are answered with.
pub proof fn lemma_pool_failures_differ()
    ensures
        PoolError::Unconfigured != PoolError::Exhausted,
        PoolError::Unconfigured.status_code() != PoolError::Exhausted.status_code(),
        Checkout::<()>::NoPool.outcome() != Checkout::<()>::TimedOut.outcome(),
{
}

} // verus!
