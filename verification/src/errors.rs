//! The error taxonomy: a tagged union of everything a unit of work, the
//! database or the connection provider can fail with, and the rule that tells
//! the one retryable failure from all the others.

use vstd::prelude::*;

verus! {

/// The discriminant by which the database driver tells its failures apart.
#[derive(Clone, Copy, Debug, PartialEq, Eq, Hash, Structural)]
pub enum DbErrorKind {
    /// A unique constraint was violated.
    UniqueViolation,
    /// A foreign key constraint was violated.
    ForeignKeyViolation,
    /// The statement could not be sent to the server.
    UnableToSendCommand,
    /// A serializable transaction could not be placed in a valid serial
    /// order and has to start over.
    SerializationFailure,
    /// The transaction was read only.
    ReadOnlyTransaction,
    /// A restrict constraint was violated.
    RestrictViolation,
    /// A not-null constraint was violated.
    NotNullViolation,
    /// A check constraint was violated.
    CheckViolation,
    /// An exclusion constraint was violated.
    ExclusionViolation,
    /// The connection to the server was closed.
    ClosedConnection,
    /// A failure the driver has no discriminant for.
    Unknown,
}

/// Why the connection provider handed out no connection.
#[derive(Clone, Copy, Debug, PartialEq, Eq, Hash, Structural)]
pub enum PoolError {
    /// No pool has been set up: a deployment error.
    Unconfigured,
    /// The pool is set up, but no connection came free in time.
    Exhausted,
}

/// Everything that can go wrong between a request and its answer.
#[derive(Clone, Debug, PartialEq, Eq)]
pub enum TxnError {
    /// The database refused a statement and said of what kind the failure is.
    Database { kind: DbErrorKind, message: String },
    /// The database layer failed without a discriminant: the query could not
    /// be built, a value could not be converted, the transaction manager
    /// broke.
    Driver { message: String },
    /// The unit of work failed for a reason of its own.
    UnitOfWork { message: String },
    /// No connection could be had.
    Provider(PoolError),
}

/// The five kinds an [`TxnError`] falls into.
#[derive(Clone, Copy, Debug, PartialEq, Eq, Hash, Structural)]
pub enum Classification {
    /// The database asks for the transaction to be run again from scratch.
    RetryableSerialization,
    /// Any other failure of the database layer.
    DatabaseTerminal,
    /// A failure the unit of work produced itself.
    UnitOfWorkTerminal,
    /// There is no pool to take a connection from.
    ProviderUnconfigured,
    /// The pool had no connection to give.
    ProviderExhausted,
}

/// Which discriminant the database uses to ask for a retry.
///
/// The code is a property of the database and its driver, so it is kept as a
/// value that can be changed, not wired into the classification.
#[derive(Clone, Copy, Debug, PartialEq, Eq, Structural)]
pub struct RetryPolicy {
    pub retry_on: DbErrorKind,
}

impl TxnError {
    /// Whether the error comes from the database layer.
    pub open spec fn from_database_layer(self) -> bool {
        self is Database || self is Driver
    }
}

impl RetryPolicy {
    /// The error is a retry signal: it carries a discriminant of the database,
    /// and that discriminant is the reserved one.  The message plays no part.
    pub open spec fn retries(self, e: TxnError) -> bool {
        e matches TxnError::Database { kind, .. } && kind == self.retry_on
    }

    /// The kind of `e` under this policy.
    pub open spec fn kind_of(self, e: TxnError) -> Classification {
        match e {
            TxnError::Database { kind, .. } => if kind == self.retry_on {
                Classification::RetryableSerialization
            } else {
                Classification::DatabaseTerminal
            },
            TxnError::Driver { .. } => Classification::DatabaseTerminal,
            TxnError::UnitOfWork { .. } => Classification::UnitOfWorkTerminal,
            TxnError::Provider(PoolError::Unconfigured) => Classification::ProviderUnconfigured,
            TxnError::Provider(PoolError::Exhausted) => Classification::ProviderExhausted,
        }
    }

    /// A policy that retries on `retry_on`.
    pub fn new(retry_on: DbErrorKind) -> (policy: RetryPolicy)
        ensures
            policy.retry_on == retry_on,
    {
        RetryPolicy { retry_on }
    }

    /// Tells whether `e` asks for the transaction to be run again.
    pub fn is_retry_signal(&self, e: &TxnError) -> (b: bool)
        ensures
            b == self.retries(*e),
    {
        match e {
            TxnError::Database { kind, .. } => *kind == self.retry_on,
            _ => false,
        }
    }

    /// Classifies `e`.
    pub fn classify(&self, e: &TxnError) -> (c: Classification)
        ensures
            c == self.kind_of(*e),
    {
        match e {
            TxnError::Database { kind, .. } => {
                if *kind == self.retry_on {
                    Classification::RetryableSerialization
                } else {
                    Classification::DatabaseTerminal
                }
            },
            TxnError::Driver { .. } => Classification::DatabaseTerminal,
            TxnError::UnitOfWork { .. } => Classification::UnitOfWorkTerminal,
            TxnError::Provider(PoolError::Unconfigured) => Classification::ProviderUnconfigured,
            TxnError::Provider(PoolError::Exhausted) => Classification::ProviderExhausted,
        }
    }
}

impl Default for RetryPolicy {
    /// Retries on a serialization failure.
    fn default() -> (policy: RetryPolicy)
        ensures
            policy.retry_on == DbErrorKind::SerializationFailure,
    {
        RetryPolicy { retry_on: DbErrorKind::SerializationFailure }
    }
}

/// An error is a retry signal exactly if it comes from the database layer
/// with the reserved discriminant; whatever else it is, and whatever its
/// message says, it is terminal.
pub proof fn lemma_classification_exact(policy: RetryPolicy, e: TxnError)
    ensures
        policy.retries(e) <==> policy.kind_of(e) == Classification::RetryableSerialization,
        policy.retries(e) <==> (e is Database && e->kind == policy.retry_on),
        policy.retries(e) ==> e.from_database_layer(),
        e is UnitOfWork || e is Driver || e is Provider ==> !policy.retries(e),
{
}

} // verus!
