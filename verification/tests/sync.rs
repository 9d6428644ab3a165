use coinstr::error::SyncError;
use coinstr::event::{EventId, PolicyEvent, POLICY_KIND};
use coinstr::handler::{Action, Reply};
use coinstr::ingest::{IngestAction as AnyIngestAction, IngestReply as AnyIngestReply, Notification};
use coinstr::network::Network;
use coinstr::sync::{CoinstrSync, ShutdownSignal};
use coinstr::timing::Timing;
use coinstr::wallet::{WalletAction, WalletReply, WalletState};

type IngestAction = AnyIngestAction<String>;
type IngestReply = AnyIngestReply<String>;

fn running() -> CoinstrSync {
    let started =
        CoinstrSync::start::<String>(Network::Testnet, "me".to_string(), Timing::default()).unwrap();
    assert_eq!(started.wallet_action, WalletAction::LoadWallets(Network::Testnet));
    assert_eq!(started.ingest_action, IngestAction::PrefetchSharedKeys(60));
    let mut engine = started.engine;
    engine.ingest_step(IngestReply::Prefetched(Ok(Vec::new())));
    assert_eq!(engine.ingest_step(IngestReply::Subscribed), IngestAction::NextNotification(None));
    assert_eq!(engine.wallet_step(WalletReply::Loaded(true)), WalletAction::SyncWallets);
    engine
}

#[test]
fn engine_starts_both_loops() {
    let started =
        CoinstrSync::start::<String>(Network::Bitcoin, "me".to_string(), Timing::default()).unwrap();
    assert_eq!(started.wallet_action, WalletAction::LoadWallets(Network::Bitcoin));
    assert_eq!(started.ingest_action, IngestAction::PrefetchSharedKeys(60));
    assert_eq!(started.engine.endpoint(), "ssl://blockstream.info:700");
    assert_eq!(started.engine.wallet().state, WalletState::Loading);
    assert!(!started.engine.ingestion().is_stopped());
    assert!(!started.engine.is_shut_down());
    assert_eq!(running().endpoint(), "ssl://blockstream.info:993");
}

#[test]
fn engine_does_not_start_on_a_network_without_endpoint() {
    for network in [Network::Signet, Network::Regtest] {
        let started = CoinstrSync::start::<String>(network, "me".to_string(), Timing::default());
        assert!(matches!(started, Err(SyncError::UnsupportedNetwork)));
    }
}

#[test]
fn failed_round_of_the_wallets_does_not_end_the_engine() {
    let mut engine = running();
    assert_eq!(engine.wallet_step(WalletReply::Synced(false)), WalletAction::Sleep(60));
    assert_eq!(engine.wallet_step(WalletReply::Slept), WalletAction::SyncWallets);
    assert!(!engine.is_shut_down());
}

#[test]
fn shutdown_notification_ends_both_loops() {
    let mut engine = running();
    assert_eq!(
        engine.ingest_step(IngestReply::Notified(Notification::Shutdown)),
        IngestAction::Exit { abort_wallet_sync: true }
    );
    assert!(engine.is_shut_down());
    assert!(engine.wallet().is_aborted());
    assert!(engine.ingestion().is_stopped());
    for reply in [WalletReply::Synced(true), WalletReply::Slept, WalletReply::Loaded(true)] {
        assert_eq!(engine.wallet_step(reply), WalletAction::Idle);
    }
    for reply in [
        IngestReply::Notified(Notification::Other),
        IngestReply::Handled(Reply::Slept),
        IngestReply::Subscribed,
    ] {
        assert_eq!(engine.ingest_step(reply), IngestAction::Idle);
    }
    assert!(engine.is_shut_down());
}

#[test]
fn stop_ends_both_loops_even_in_the_middle_of_an_event() {
    let mut engine = running();
    let event =
        PolicyEvent { id: EventId::new("abc".to_string()), kind: POLICY_KIND, content: "x".to_string() };
    assert_eq!(
        engine.ingest_step(IngestReply::Notified(Notification::Event(event))),
        IngestAction::Handle(Action::CheckPolicyExists(EventId::new("abc".to_string())))
    );
    engine.stop();
    assert!(engine.is_shut_down());
    assert!(engine.wallet().is_aborted());
    assert!(engine.ingestion().is_stopped());
    assert_eq!(engine.ingest_step(IngestReply::Handled(Reply::Exists(Ok(false)))), IngestAction::Idle);
    assert_eq!(engine.wallet_step(WalletReply::Synced(true)), WalletAction::Idle);
    engine.stop();
    assert!(engine.is_shut_down());
}

#[test]
fn end_of_the_stream_leaves_the_wallets_running() {
    let mut engine = running();
    assert_eq!(
        engine.ingest_step(IngestReply::Closed),
        IngestAction::Exit { abort_wallet_sync: false }
    );
    assert!(engine.ingestion().is_stopped());
    assert!(!engine.wallet().is_aborted());
    assert!(!engine.is_shut_down());
    assert_eq!(engine.wallet_step(WalletReply::Synced(true)), WalletAction::Sleep(60));
}

#[test]
fn signal_fires_once_and_stays() {
    let mut signal = ShutdownSignal::new();
    assert!(!signal.is_signaled());
    signal.signal();
    assert!(signal.is_signaled());
    signal.signal();
    assert!(signal.is_signaled());
}
