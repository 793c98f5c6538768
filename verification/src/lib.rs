//! Retryable transactions against a database that runs at serializable
//! isolation and may ask a client to start a transaction over.
//!
//! The crate holds the decisions of such a client and proves them: how an
//! error is classified ([`errors`]), how a unit of work is driven through an
//! outer scope and one inner attempt after another until it commits or fails
//! for good ([`sql`]), what a connection provider's answer means to the caller
//! ([`connpool`]), what reaches the client at the edge ([`response`]), and how
//! a request's identifier is read ([`uuid_wrapper`]).  Talking to the database
//! itself is left to the caller, who performs each action the executor asks
//! for and hands back the reply.

pub mod connpool;
pub mod errors;
pub mod isolation;
pub mod response;
pub mod sql;
pub mod trace;
pub mod uuid_wrapper;
