use osrm::boundary::{interpret_reply, reclaim_and_interpret, BufferLedger, STATUS_OK};
use osrm::errors::OsrmError;

#[test]
fn null_buffer_fails_whatever_the_code_says() {
    for code in [STATUS_OK, 1, -7] {
        let r = interpret_reply(code, None);
        match r {
            Err(OsrmError::FfiError(message)) => {
                assert_eq!(message, "OSRM returned a null message");
            },
            _ => panic!("a null buffer must fail with FfiError"),
        }
    }
}

#[test]
fn error_code_carries_the_native_text() {
    let r = interpret_reply(2, Some("NoSegment".to_string()));
    match r {
        Err(OsrmError::FfiError(message)) => assert_eq!(message, "NoSegment"),
        _ => panic!("a non-success code must fail with the payload text"),
    }
}

#[test]
fn success_code_returns_the_payload() {
    let r = interpret_reply(STATUS_OK, Some("{\"code\":\"Ok\"}".to_string()));
    assert_eq!(r.unwrap(), "{\"code\":\"Ok\"}");
}

#[test]
fn every_buffer_is_freed_exactly_once() {
    let mut ledger = BufferLedger::new();

    // A successful call: one allocation, one release.
    ledger.record_alloc();
    let ok = reclaim_and_interpret(&mut ledger, STATUS_OK, Some("payload".to_string()));
    assert!(ok.is_ok());
    assert_eq!(ledger.allocated, 1);
    assert_eq!(ledger.freed, 1);

    // A failed call with a buffer: still exactly one release.
    ledger.record_alloc();
    let err = reclaim_and_interpret(&mut ledger, 3, Some("boom".to_string()));
    assert!(err.is_err());
    assert_eq!(ledger.allocated, 2);
    assert_eq!(ledger.freed, 2);
}

#[test]
fn a_null_buffer_is_never_freed() {
    let mut ledger = BufferLedger::new();
    let r = reclaim_and_interpret(&mut ledger, STATUS_OK, None);
    assert!(r.is_err());
    assert_eq!(ledger.allocated, 0);
    assert_eq!(ledger.freed, 0);
}
