use seyal_client::client::{
    check_recovery_budget, check_server_capabilities, classify_bridge_discovery_error, classify_discovery_error,
    classify_server_error, recovery_failure, requested_capabilities, ClientError,
    ConnectErrorKind, DiscoveryError, DiscoveryFailure, InputAdmissionFailure, ProtocolCodes,
};

const CONTROLLER_BUSY: u16 = 9;
const CAPACITY_EXCEEDED: u16 = 12;

fn codes() -> ProtocolCodes {
    ProtocolCodes {
        backpressure: 3,
        controller_busy: CONTROLLER_BUSY,
        input_message: 20,
        terminal_key_message: 29,
        cap_command_blocks: 0b01,
        cap_block_metadata: 0b10,
        cap_binary_display: 0b100,
        cap_semantic_terminal_key: 0b1000,
        cap_correlated_resize: 0b1_0000,
    }
}

fn classes(error: ClientError) -> (u8, u8) {
    recovery_failure(&codes(), error)
}

#[test]
fn ffi_retryable_discovery_failure_is_typed() {
    let (failure_class, retryable) =
        classes(ClientError::Discovery(DiscoveryFailure::EndpointMissing));
    assert_eq!(failure_class, 1);
    assert_eq!(retryable, 1);
}

#[test]
fn ffi_refusal_retries_without_claiming_a_missing_endpoint_or_launch_path() {
    assert_eq!(classes(ClientError::Discovery(DiscoveryFailure::ConnectionRefused)), (2, 1));
    assert_eq!(classes(ClientError::Discovery(DiscoveryFailure::EndpointDisappeared)), (2, 1));
}

#[test]
fn ffi_untrusted_or_invalid_endpoint_is_never_retryable_or_launchable() {
    for failure in [DiscoveryFailure::UntrustedEndpoint, DiscoveryFailure::InvalidPath] {
        assert_eq!(classes(ClientError::Discovery(failure)), (4, 0));
    }
}

#[test]
fn ffi_security_and_controller_failures_are_not_retryable() {
    assert_eq!(classes(ClientError::Protocol), (4, 0));
    assert_eq!(classes(ClientError::Server(CONTROLLER_BUSY)), (3, 1));
    assert_eq!(classes(ClientError::Server(CAPACITY_EXCEEDED)), (4, 0));
    assert_eq!(classes(ClientError::StartupDeadlineExceeded), (4, 0));
}

#[test]
fn ffi_zero_budget_and_insecure_leaf_classification_fail_closed() {
    assert_eq!(check_recovery_budget(0), Err(ClientError::StartupDeadlineExceeded));
    assert_eq!(
        classify_bridge_discovery_error(DiscoveryError::NotOwnedByEffectiveUser),
        ClientError::Discovery(DiscoveryFailure::UntrustedEndpoint)
    );
    assert_eq!(
        classify_bridge_discovery_error(DiscoveryError::Io(ConnectErrorKind::NotFound)),
        ClientError::Discovery(DiscoveryFailure::EndpointMissing)
    );
}

#[test]
fn types_retryable_discovery_failure_is_typed() {
    assert_eq!(classes(ClientError::Discovery(DiscoveryFailure::EndpointMissing)), (1, 1));
}

#[test]
fn types_refusal_retries_without_claiming_a_missing_endpoint_or_launch_path() {
    assert_eq!(classes(ClientError::Discovery(DiscoveryFailure::ConnectionRefused)), (2, 1));
    assert_eq!(classes(ClientError::Discovery(DiscoveryFailure::EndpointDisappeared)), (2, 1));
}

#[test]
fn types_untrusted_or_invalid_endpoint_is_never_retryable_or_launchable() {
    for failure in [DiscoveryFailure::UntrustedEndpoint, DiscoveryFailure::InvalidPath] {
        assert_eq!(classes(ClientError::Discovery(failure)), (4, 0));
    }
}

#[test]
fn types_security_and_controller_failures_are_not_retryable() {
    assert_eq!(classes(ClientError::Protocol), (4, 0));
    assert_eq!(classes(ClientError::Server(CONTROLLER_BUSY)), (3, 1));
    assert_eq!(classes(ClientError::Server(CAPACITY_EXCEEDED)), (4, 0));
    assert_eq!(classes(ClientError::StartupDeadlineExceeded), (4, 0));
}

#[test]
fn types_zero_budget_and_insecure_leaf_classification_fail_closed() {
    assert_eq!(check_recovery_budget(0), Err(ClientError::StartupDeadlineExceeded));
    assert_eq!(check_recovery_budget(5), Ok(5));
    assert_eq!(
        classify_bridge_discovery_error(DiscoveryError::NotOwnedByEffectiveUser),
        ClientError::Discovery(DiscoveryFailure::UntrustedEndpoint)
    );
    assert_eq!(
        classify_bridge_discovery_error(DiscoveryError::Io(ConnectErrorKind::NotFound)),
        ClientError::Discovery(DiscoveryFailure::EndpointMissing)
    );
}

#[test]
fn remaining_failure_classes_are_fixed() {
    assert_eq!(classes(ClientError::Io), (2, 1));
    assert_eq!(classes(ClientError::Disconnected), (2, 1));
    assert_eq!(classes(ClientError::NoRunningExecution), (2, 0));
    assert_eq!(classes(ClientError::AmbiguousExecutions), (6, 0));
    assert_eq!(classes(ClientError::ClientBackpressure), (5, 1));
    assert_eq!(classes(ClientError::BlockMetadataConflict), (4, 0));
}

#[test]
fn other_io_discovery_failures_are_invalid_paths() {
    assert_eq!(
        classify_bridge_discovery_error(DiscoveryError::Io(ConnectErrorKind::Other)),
        ClientError::Discovery(DiscoveryFailure::InvalidPath)
    );
    assert_eq!(
        classify_discovery_error(DiscoveryError::Io(ConnectErrorKind::NotFound)),
        ClientError::Discovery(DiscoveryFailure::InvalidPath)
    );
}

#[test]
fn backpressure_on_input_is_a_refused_input_not_a_failure() {
    assert_eq!(
        classify_server_error(&codes(), 3, 20),
        Ok(Some(InputAdmissionFailure::ClientBackpressure))
    );
    assert_eq!(
        classify_server_error(&codes(), 3, 29),
        Ok(Some(InputAdmissionFailure::ClientBackpressure))
    );
    assert_eq!(classify_server_error(&codes(), 3, 7), Err(ClientError::Server(3)));
    assert_eq!(classify_server_error(&codes(), 4, 20), Err(ClientError::Server(4)));
}

#[test]
fn block_metadata_capability_is_requested_only_on_demand() {
    assert_eq!(requested_capabilities(&codes(), false), 0b01);
    assert_eq!(requested_capabilities(&codes(), true), 0b11);
}

#[test]
fn runtime_capabilities_are_checked_for_display_and_interaction() {
    let codes = codes();
    assert_eq!(
        check_server_capabilities(&codes, 0b1_1000, false),
        Err(ClientError::UnsupportedDisplayCapability)
    );
    assert_eq!(check_server_capabilities(&codes, 0b100, false), Ok(()));
    assert_eq!(
        check_server_capabilities(&codes, 0b0_1100, true),
        Err(ClientError::UnsupportedInteractiveCapability)
    );
    assert_eq!(
        check_server_capabilities(&codes, 0b1_0100, true),
        Err(ClientError::UnsupportedInteractiveCapability)
    );
    assert_eq!(check_server_capabilities(&codes, 0b1_1100, true), Ok(()));
}
