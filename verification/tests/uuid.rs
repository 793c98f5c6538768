//! UUIDs read and written.

use cockroach_txn::uuid_wrapper::{Uuid, UuidParseError};

const VALUE: u128 = 0x936da01f9abd4d9d80c702af85c822a8;

#[test]
fn reads_the_hyphenated_form() {
    let id = Uuid::from_form_value("936da01f-9abd-4d9d-80c7-02af85c822a8").unwrap();
    assert_eq!(id.as_u128(), VALUE);
    assert_eq!(id, Uuid::from_u128(VALUE));
}

#[test]
fn reads_the_other_forms() {
    for text in [
        "936da01f9abd4d9d80c702af85c822a8",
        "936DA01F-9ABD-4D9D-80C7-02AF85C822A8",
        "urn:uuid:936da01f-9abd-4d9d-80c7-02af85c822a8",
        "{936da01f-9abd-4d9d-80c7-02af85c822a8}",
    ] {
        assert_eq!(Uuid::from_form_value(text).unwrap().as_u128(), VALUE);
    }
}

#[test]
fn refuses_what_is_no_uuid() {
    for text in [
        "",
        "not a uuid",
        "936da01f-9abd-4d9d-80c7-02af85c822a",
        "936da01f-9abd-4d9d-80c7-02af85c822a8a",
        "936da01f-9abd-4d9d-80c7002af85c822a8",
        "g36da01f-9abd-4d9d-80c7-02af85c822a8",
        "936da01f%2D9abd-4d9d-80c7-02af85c822a8",
    ] {
        match Uuid::from_form_value(text) {
            Err(UuidParseError::UuidError(e)) => assert_eq!(Some(e), text.parse::<uuid::Uuid>().err()),
            other => panic!("{:?} was read as {:?}", text, other),
        }
    }
}

#[test]
fn the_parser_error_is_handed_on() {
    let e = "zz".parse::<uuid::Uuid>().unwrap_err();
    match Uuid::from_parsed(Err(e.clone())) {
        Err(UuidParseError::UuidError(f)) => assert_eq!(f, e),
        other => panic!("{:?}", other),
    }
    assert_eq!(Uuid::from_parsed(Ok(5)).unwrap(), Uuid::from_u128(5));
}

#[test]
fn writes_the_hyphenated_form() {
    assert_eq!(Uuid::from_u128(VALUE).hyphenated(), "936da01f-9abd-4d9d-80c7-02af85c822a8");
    assert_eq!(Uuid::from_u128(0).hyphenated(), "00000000-0000-0000-0000-000000000000");
    assert_eq!(Uuid::from_u128(u128::MAX).hyphenated(), "ffffffff-ffff-ffff-ffff-ffffffffffff");
    assert_eq!(
        Uuid::from_u128(0x0123456789abcdef0123456789abcdef).hyphenated(),
        "01234567-89ab-cdef-0123-456789abcdef"
    );
    assert_eq!(Uuid::from_u128(1).hyphenated(), "00000000-0000-0000-0000-000000000001");
    assert_eq!(Uuid::from_u128(1u128 << 127).hyphenated(), "80000000-0000-0000-0000-000000000000");
}

#[test]
fn what_is_written_is_read_back() {
    for value in [0u128, 1, VALUE, u128::MAX, 0xa1a2a3a4b1b2c1c2d1d2d3d4d5d6d7d8] {
        let text = Uuid::from_u128(value).hyphenated();
        assert_eq!(text.len(), 36);
        assert_eq!(Uuid::from_form_value(&text).unwrap().as_u128(), value);
    }
}
