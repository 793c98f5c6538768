//! What reaches the client, and what reaches the log.

use cockroach_txn::errors::{DbErrorKind, PoolError, TxnError};
use cockroach_txn::response::{answer, handle_404, handle_500, MessageResponse, NOT_FOUND, OK};

#[test]
fn the_messages() {
    assert_eq!(MessageResponse::ok().msg, "ok");
    assert_eq!(handle_500().msg, "internal server error");
    assert_eq!(handle_404().msg, "not found");
    assert_eq!(OK, 200);
    assert_eq!(NOT_FOUND, 404);
}

#[test]
fn an_error_in_words() {
    let e = TxnError::Database { kind: DbErrorKind::UniqueViolation, message: String::from("duplicate key") };
    assert_eq!(e.message(), "duplicate key");
    assert_eq!(TxnError::Driver { message: String::from("Record not found") }.message(), "Record not found");
    assert_eq!(TxnError::UnitOfWork { message: String::from("title too long") }.message(), "title too long");
    assert_eq!(TxnError::Provider(PoolError::Unconfigured).message(), "no connection pool is configured");
    assert_eq!(TxnError::Provider(PoolError::Exhausted).message(), "timed out waiting for a connection");
}

#[test]
fn every_error_is_answered_with_a_server_error() {
    let errors = vec![
        TxnError::Database { kind: DbErrorKind::UniqueViolation, message: String::from("duplicate key in posts_pkey") },
        TxnError::Database { kind: DbErrorKind::SerializationFailure, message: String::from("restart") },
        TxnError::Driver { message: String::from("Record not found") },
        TxnError::UnitOfWork { message: String::from("title too long") },
        TxnError::Provider(PoolError::Unconfigured),
        TxnError::Provider(PoolError::Exhausted),
    ];
    for e in errors {
        let (status, line) = e.respond_to();
        assert_eq!(status, 500);
        assert_eq!(line, format!("error handling request: {}", e.message()));

        let (status, body) = answer::<u8>(&Err(e));
        assert_eq!(status, 500);
        assert_eq!(body, handle_500());
    }
}

#[test]
fn the_log_line_holds_the_detail() {
    let e = TxnError::Database { kind: DbErrorKind::CheckViolation, message: String::from("posts_title_check") };
    assert_eq!(e.respond_to(), (500, String::from("error handling request: posts_title_check")));
}

#[test]
fn success_is_answered_with_ok() {
    let (status, body) = answer(&Ok("post"));
    assert_eq!(status, 200);
    assert_eq!(body, MessageResponse::ok());
    assert_eq!(body.msg, "ok");
}
