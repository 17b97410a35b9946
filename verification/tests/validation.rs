//! Validation of peer identities and multiaddresses.

use codex_bindings::error::CodexError;
use codex_bindings::connection::{validate_addresses, validate_peer_id};

#[test]
fn test_validate_peer_id() {
    // Valid peer IDs
    let valid_peer_ids = vec![
        "12D3KooWExamplePeer123456789",
        "QmSomePeerId123456789",
        "bafybeigdyrzt5sfp7udm7hu76uh7y26nf3efuylqabf3oclgtqy55fbzdi",
    ];

    for peer_id in valid_peer_ids {
        assert!(
            validate_peer_id(peer_id).is_ok(),
            "Peer ID {} should be valid",
            peer_id
        );
    }

    // Invalid peer IDs
    let long_string = "X".repeat(101);
    let invalid_peer_ids = vec![
        "",
        "short",
        "12D3KooW",   // Too short even with valid prefix
        &long_string, // Too long
        "InvalidPrefix123456789",
    ];

    for peer_id in invalid_peer_ids {
        assert!(
            validate_peer_id(peer_id).is_err(),
            "Peer ID {} should be invalid",
            peer_id
        );
    }
}

#[test]
fn test_validate_addresses() {
    // Valid addresses
    let valid_addresses = vec![
        vec!["/ip4/192.168.1.100/tcp/8080".to_string()],
        vec!["/ip6/::1/tcp/8080".to_string()],
        vec!["/dns4/example.com/tcp/8080".to_string()],
        vec![
            "/ip4/192.168.1.100/tcp/8080".to_string(),
            "/ip4/192.168.1.100/udp/8080/quic".to_string(),
        ],
    ];

    for addresses in valid_addresses {
        assert!(validate_addresses(&addresses).is_ok());
    }

    // Invalid addresses
    let invalid_addresses = vec![
        vec![],                                        // Empty
        vec!["".to_string()],                          // Empty string
        vec!["invalid-address".to_string()],           // Doesn't start with /
        vec!["/invalid/protocol/address".to_string()], // Invalid protocol
    ];

    for addresses in invalid_addresses {
        assert!(validate_addresses(&addresses).is_err());
    }
}

#[test]
fn peer_id_errors_name_the_failed_check() {
    match validate_peer_id("") {
        Err(CodexError::InvalidParameter { parameter, message }) => {
            assert_eq!(parameter, "peer_id");
            assert_eq!(message, "Peer ID cannot be empty");
        }
        other => panic!("expected an invalid-parameter error, got {:?}", other),
    }
    match validate_peer_id("Qm1") {
        Err(CodexError::InvalidParameter { message, .. }) => {
            assert_eq!(message, "Peer ID is too short");
        }
        other => panic!("expected an invalid-parameter error, got {:?}", other),
    }
    let long_id = format!("12D3KooW{}", "y".repeat(95));
    match validate_peer_id(&long_id) {
        Err(CodexError::InvalidParameter { message, .. }) => {
            assert_eq!(message, "Peer ID is too long");
        }
        other => panic!("expected an invalid-parameter error, got {:?}", other),
    }
    match validate_peer_id("NoSuchPrefix123") {
        Err(CodexError::InvalidParameter { message, .. }) => {
            assert_eq!(message, "Peer ID has invalid format or prefix");
        }
        other => panic!("expected an invalid-parameter error, got {:?}", other),
    }
}

#[test]
fn peer_id_length_bounds_are_inclusive() {
    // Exactly 10 and exactly 100 bytes are accepted.
    assert!(validate_peer_id("12D3KooW12").is_ok());
    let hundred = format!("Qm{}", "z".repeat(98));
    assert_eq!(hundred.len(), 100);
    assert!(validate_peer_id(&hundred).is_ok());
    // 9 and 101 bytes are not.
    assert!(validate_peer_id("12D3KooW1").is_err());
    let hundred_one = format!("Qm{}", "z".repeat(99));
    assert!(validate_peer_id(&hundred_one).is_err());
}

#[test]
fn address_errors_name_the_first_failing_index_and_check() {
    match validate_addresses(&[]) {
        Err(CodexError::InvalidParameter { parameter, message }) => {
            assert_eq!(parameter, "addresses");
            assert_eq!(message, "At least one address must be provided");
        }
        other => panic!("expected an invalid-parameter error, got {:?}", other),
    }
    match validate_addresses(&["".to_string()]) {
        Err(CodexError::InvalidParameter { parameter, message }) => {
            assert_eq!(parameter, "addresses[0]");
            assert_eq!(message, "Address cannot be empty");
        }
        other => panic!("expected an invalid-parameter error, got {:?}", other),
    }
    match validate_addresses(&["ip4/1.2.3.4/tcp/1".to_string()]) {
        Err(CodexError::InvalidParameter { parameter, message }) => {
            assert_eq!(parameter, "addresses[0]");
            assert_eq!(message, "Address must start with '/'");
        }
        other => panic!("expected an invalid-parameter error, got {:?}", other),
    }
    match validate_addresses(&["/ip4/1.2.3.4/tcp/1".to_string(), "/nothing/here".to_string()]) {
        Err(CodexError::InvalidParameter { parameter, message }) => {
            assert_eq!(parameter, "addresses[1]");
            assert_eq!(message, "Address contains invalid protocol");
        }
        other => panic!("expected an invalid-parameter error, got {:?}", other),
    }
}

#[test]
fn address_indices_are_written_in_full_decimal() {
    // Eleven sound addresses, then an offender at index 11 and another
    // at 12: the first offender names the error, digits and all.
    let mut addresses: Vec<String> = (0..11)
        .map(|port| format!("/ip4/10.0.0.1/tcp/{}", 8000 + port))
        .collect();
    addresses.push("/bad".to_string());
    addresses.push("".to_string());
    match validate_addresses(&addresses) {
        Err(CodexError::InvalidParameter { parameter, message }) => {
            assert_eq!(parameter, "addresses[11]");
            assert_eq!(message, "Address contains invalid protocol");
        }
        other => panic!("expected an invalid-parameter error, got {:?}", other),
    }
}
