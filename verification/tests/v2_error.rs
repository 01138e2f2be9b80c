use seyal_client::client::{classify_v2_incoming_error, ProtocolErrorCode, V2IncomingDisposition};

fn classify(
    code: ProtocolErrorCode,
    detail: u32,
    last_sent: u32,
    highest: u32,
) -> (V2IncomingDisposition, u32) {
    classify_v2_incoming_error(Some(code), detail, last_sent, highest)
}

#[test]
fn zero_detail_backpressure_and_authorization_are_protocol() {
    for code in [
        ProtocolErrorCode::Backpressure,
        ProtocolErrorCode::PermissionDenied,
        ProtocolErrorCode::StaleIdentity,
        ProtocolErrorCode::InvalidExecution,
    ] {
        assert_eq!(classify(code, 0, 7, 0), (V2IncomingDisposition::Protocol, 0));
    }
    assert_eq!(
        classify(ProtocolErrorCode::MalformedPayload, 0, 7, 0),
        (V2IncomingDisposition::Fatal(ProtocolErrorCode::MalformedPayload), 0)
    );
}

#[test]
fn in_range_readable_rejections_keep_the_connection() {
    assert_eq!(
        classify(ProtocolErrorCode::Backpressure, 7, 7, 0),
        (V2IncomingDisposition::ClientBackpressure, 7)
    );
    assert_eq!(
        classify(ProtocolErrorCode::MalformedPayload, 4, 8, 0),
        (V2IncomingDisposition::ClientBackpressure, 4)
    );
    assert_eq!(
        classify(ProtocolErrorCode::PermissionDenied, 5, 8, 0),
        (V2IncomingDisposition::LostController, 5)
    );
    assert_eq!(
        classify(ProtocolErrorCode::StaleIdentity, 6, 8, 5),
        (V2IncomingDisposition::LostController, 6)
    );
    assert_eq!(
        classify(ProtocolErrorCode::InvalidExecution, 8, 8, 6),
        (V2IncomingDisposition::LostController, 8)
    );
}

#[test]
fn out_of_range_duplicate_and_unsent_ids_are_protocol() {
    assert_eq!(
        classify(ProtocolErrorCode::Backpressure, 7, 7, 7),
        (V2IncomingDisposition::Protocol, 7)
    );
    assert_eq!(
        classify(ProtocolErrorCode::PermissionDenied, 3, 7, 7),
        (V2IncomingDisposition::Protocol, 7)
    );
    assert_eq!(
        classify(ProtocolErrorCode::Backpressure, 9, 7, 0),
        (V2IncomingDisposition::Protocol, 0)
    );
    assert_eq!(
        classify(ProtocolErrorCode::Backpressure, 7, 0, 0),
        (V2IncomingDisposition::Protocol, 0),
        "an ID that is not yet wire-complete is outside the sent range"
    );
}

#[test]
fn unknown_codes_are_protocol_and_other_known_codes_are_fatal() {
    assert_eq!(
        classify_v2_incoming_error(None, 3, 7, 0),
        (V2IncomingDisposition::Protocol, 3)
    );
    assert_eq!(
        classify_v2_incoming_error(None, 0, 7, 2),
        (V2IncomingDisposition::Protocol, 2)
    );
    assert_eq!(
        classify(ProtocolErrorCode::Other(40), 3, 7, 0),
        (V2IncomingDisposition::Fatal(ProtocolErrorCode::Other(40)), 3)
    );
}
