//! The connection provider at its boundary.

use cockroach_txn::connpool::{acquire, Checkout, INTERNAL_SERVER_ERROR, SERVICE_UNAVAILABLE};
use cockroach_txn::errors::{Classification, PoolError, RetryPolicy, TxnError};

#[test]
fn exhaustion_is_told_from_a_missing_pool() {
    let exhausted = acquire::<u8>(Checkout::TimedOut);
    let unconfigured = acquire::<u8>(Checkout::NoPool);
    assert_eq!(exhausted, Err(PoolError::Exhausted));
    assert_eq!(unconfigured, Err(PoolError::Unconfigured));
    assert_ne!(exhausted, unconfigured);
    assert_eq!(PoolError::Exhausted.status(), 503);
    assert_eq!(PoolError::Unconfigured.status(), 500);
}

#[test]
fn a_connection_is_handed_on() {
    assert_eq!(acquire(Checkout::Connection("handle")), Ok("handle"));
    assert_eq!(acquire(Checkout::Connection(17u64)), Ok(17));
}

#[test]
fn the_statuses_have_their_numbers() {
    assert_eq!(INTERNAL_SERVER_ERROR, 500);
    assert_eq!(SERVICE_UNAVAILABLE, 503);
}

#[test]
fn a_pool_error_becomes_a_provider_error() {
    assert_eq!(TxnError::from(PoolError::Exhausted), TxnError::Provider(PoolError::Exhausted));
    assert_eq!(TxnError::from(PoolError::Unconfigured), TxnError::Provider(PoolError::Unconfigured));
    let e: TxnError = PoolError::Exhausted.into();
    assert_eq!(RetryPolicy::default().classify(&e), Classification::ProviderExhausted);
}
