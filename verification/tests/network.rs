use coinstr::error::SyncError;
use coinstr::network::{bitcoin_endpoint, Network, BITCOIN_ENDPOINT, TESTNET_ENDPOINT};
use coinstr::timing::Timing;

#[test]
fn main_and_test_network_have_an_endpoint() {
    assert_eq!(bitcoin_endpoint(Network::Bitcoin), Ok("ssl://blockstream.info:700"));
    assert_eq!(bitcoin_endpoint(Network::Testnet), Ok("ssl://blockstream.info:993"));
    assert_eq!(BITCOIN_ENDPOINT, "ssl://blockstream.info:700");
    assert_eq!(TESTNET_ENDPOINT, "ssl://blockstream.info:993");
}

#[test]
fn other_networks_are_a_configuration_error() {
    assert_eq!(bitcoin_endpoint(Network::Signet), Err(SyncError::UnsupportedNetwork));
    assert_eq!(bitcoin_endpoint(Network::Regtest), Err(SyncError::UnsupportedNetwork));
}

#[test]
fn default_waits() {
    let timing = Timing::default();
    assert_eq!(timing.wallet_sync_interval, 60);
    assert_eq!(timing.shared_key_prefetch_wait, 60);
    assert_eq!(timing.retry_delay, 5);
    assert_eq!(timing.shared_key_fetch_wait, 30);
}

#[test]
fn errors_are_cloned_with_their_message() {
    for error in [
        SyncError::UnsupportedNetwork,
        SyncError::Store("a".to_string()),
        SyncError::SharedKey("b".to_string()),
        SyncError::SharedKeyUnavailable,
        SyncError::MissingSecretKey,
        SyncError::InvalidContent,
        SyncError::Decrypt,
        SyncError::Parse("c".to_string()),
        SyncError::UnexpectedReply,
    ] {
        assert_eq!(error.clone(), error);
    }
}
