use coinstr::error::SyncError;
use coinstr::event::{EventId, PolicyEvent, SharedKey, SubscriptionFilter, POLICY_KIND};
use coinstr::handler::{Action, Reply};
use coinstr::ingest::{
    Failure, IngestAction as AnyIngestAction, IngestReply as AnyIngestReply, Ingestion,
    Notification,
};
use coinstr::timing::Timing;
use nostr_sdk::nips::nip04;
use nostr_sdk::Keys;

type IngestAction = AnyIngestAction<String>;
type IngestReply = AnyIngestReply<String>;

fn id(text: &str) -> EventId {
    EventId::new(text.to_string())
}

fn shared_key(keys: &Keys) -> SharedKey {
    SharedKey {
        secret_key: Some(keys.secret_key().unwrap().display_secret().to_string()),
        public_key: keys.public_key().to_string(),
    }
}

fn policy_event(name: &str, keys: &Keys, text: &str) -> PolicyEvent {
    let content = nip04::encrypt(&keys.secret_key().unwrap(), &keys.public_key(), text).unwrap();
    PolicyEvent { id: id(name), kind: POLICY_KIND, content }
}

fn listening(pairs: Vec<(EventId, SharedKey)>) -> Ingestion {
    let mut ingestion = Ingestion::new("me".to_string(), Timing::default());
    assert_eq!(ingestion.start::<String>(), IngestAction::PrefetchSharedKeys(60));
    assert_eq!(
        ingestion.step(IngestReply::Prefetched(Ok(pairs))),
        IngestAction::Subscribe(SubscriptionFilter { kind: POLICY_KIND, recipient: "me".to_string() })
    );
    assert_eq!(ingestion.step(IngestReply::Subscribed), IngestAction::NextNotification(None));
    ingestion
}

#[test]
fn loop_prefetches_then_subscribes_then_listens() {
    let keys = Keys::generate();
    let ingestion = listening(vec![(id("abc"), shared_key(&keys))]);
    assert_eq!(ingestion.cache().get(&id("abc")), Some(&shared_key(&keys)));
    assert!(!ingestion.is_stopped() && !ingestion.is_handling());
}

#[test]
fn loop_does_nothing_before_its_start_and_starts_once() {
    let mut ingestion = Ingestion::new("me".to_string(), Timing::default());
    assert_eq!(ingestion.step(IngestReply::Subscribed), IngestAction::Idle);
    assert_eq!(ingestion.step(IngestReply::Notified(Notification::Shutdown)), IngestAction::Idle);
    assert!(!ingestion.is_stopped());
    assert_eq!(ingestion.start::<String>(), IngestAction::PrefetchSharedKeys(60));
    assert_eq!(ingestion.start::<String>(), IngestAction::Idle);
}

#[test]
fn failed_prefetch_leaves_an_empty_cache() {
    let mut ingestion = Ingestion::new("me".to_string(), Timing::default());
    ingestion.start::<String>();
    assert_eq!(
        ingestion.step(IngestReply::Prefetched(Err("timeout".to_string()))),
        IngestAction::Subscribe(SubscriptionFilter { kind: POLICY_KIND, recipient: "me".to_string() })
    );
    assert_eq!(ingestion.cache().len(), 0);
    assert_eq!(ingestion.step(IngestReply::Subscribed), IngestAction::NextNotification(None));
}

#[test]
fn prefetch_wait_is_the_configured_one() {
    let timing = Timing { shared_key_prefetch_wait: 11, ..Timing::default() };
    let mut ingestion = Ingestion::new("me".to_string(), timing);
    assert_eq!(ingestion.start::<String>(), IngestAction::PrefetchSharedKeys(11));
}

#[test]
fn other_notifications_and_skipped_ones_are_passed_over() {
    let mut ingestion = listening(Vec::new());
    assert_eq!(
        ingestion.step(IngestReply::Notified(Notification::Other)),
        IngestAction::NextNotification(None)
    );
    assert_eq!(ingestion.step(IngestReply::Lagged), IngestAction::NextNotification(None));
    assert!(!ingestion.is_stopped());
}

#[test]
fn event_of_another_kind_is_passed_over() {
    let mut ingestion = listening(Vec::new());
    let event = PolicyEvent { id: id("abc"), kind: 1, content: "hello".to_string() };
    assert_eq!(
        ingestion.step(IngestReply::Notified(Notification::Event(event))),
        IngestAction::NextNotification(None)
    );
    assert!(!ingestion.is_handling());
}

#[test]
fn event_with_a_prefetched_key_is_stored() {
    let keys = Keys::generate();
    let mut ingestion = listening(vec![(id("abc"), shared_key(&keys))]);
    let event = policy_event("abc", &keys, "the policy");
    assert_eq!(
        ingestion.step(IngestReply::Notified(Notification::Event(event))),
        IngestAction::Handle(Action::CheckPolicyExists(id("abc")))
    );
    assert!(ingestion.is_handling());
    assert_eq!(
        ingestion.step(IngestReply::Handled(Reply::Exists(Ok(false)))),
        IngestAction::Handle(Action::ParsePolicy("the policy".to_string()))
    );
    assert_eq!(
        ingestion.step(IngestReply::Handled(Reply::Parsed(Ok("parsed".to_string())))),
        IngestAction::Handle(Action::InsertPolicy(id("abc"), "parsed".to_string()))
    );
    assert_eq!(
        ingestion.step(IngestReply::Handled(Reply::Inserted(Ok(())))),
        IngestAction::NextNotification(None)
    );
    assert!(!ingestion.is_handling());
}

#[test]
fn event_without_a_key_has_it_fetched_and_cached() {
    let keys = Keys::generate();
    let mut ingestion = listening(Vec::new());
    let event = policy_event("abc", &keys, "the policy");
    ingestion.step(IngestReply::Notified(Notification::Event(event)));
    assert_eq!(
        ingestion.step(IngestReply::Handled(Reply::Exists(Ok(false)))),
        IngestAction::Handle(Action::Sleep(5))
    );
    assert_eq!(
        ingestion.step(IngestReply::Handled(Reply::Slept)),
        IngestAction::Handle(Action::FetchSharedKey(id("abc"), 30))
    );
    assert_eq!(
        ingestion.step(IngestReply::Handled(Reply::Fetched(Ok(shared_key(&keys))))),
        IngestAction::Handle(Action::CheckPolicyExists(id("abc")))
    );
    assert_eq!(ingestion.cache().get(&id("abc")), Some(&shared_key(&keys)));
    assert_eq!(
        ingestion.step(IngestReply::Handled(Reply::Exists(Ok(false)))),
        IngestAction::Handle(Action::ParsePolicy("the policy".to_string()))
    );
}

#[test]
fn failure_of_one_event_is_reported_and_the_loop_listens_on() {
    let mut ingestion = listening(Vec::new());
    let event = PolicyEvent { id: id("abc"), kind: POLICY_KIND, content: "x".to_string() };
    ingestion.step(IngestReply::Notified(Notification::Event(event)));
    ingestion.step(IngestReply::Handled(Reply::Exists(Ok(false))));
    ingestion.step(IngestReply::Handled(Reply::Slept));
    assert_eq!(
        ingestion.step(IngestReply::Handled(Reply::Fetched(Err("timeout".to_string())))),
        IngestAction::NextNotification(Some(Failure {
            id: id("abc"),
            error: SyncError::SharedKey("timeout".to_string()),
        }))
    );
    assert!(!ingestion.is_stopped() && !ingestion.is_handling());
    assert_eq!(ingestion.cache().len(), 0);
    assert_eq!(
        ingestion.step(IngestReply::Notified(Notification::Other)),
        IngestAction::NextNotification(None)
    );
}

#[test]
fn no_notification_is_taken_while_an_event_is_handled() {
    let mut ingestion = listening(Vec::new());
    let event = PolicyEvent { id: id("abc"), kind: POLICY_KIND, content: "x".to_string() };
    ingestion.step(IngestReply::Notified(Notification::Event(event.clone())));
    for reply in [
        IngestReply::Notified(Notification::Event(event)),
        IngestReply::Notified(Notification::Shutdown),
        IngestReply::Notified(Notification::Other),
        IngestReply::Lagged,
        IngestReply::Closed,
        IngestReply::Subscribed,
    ] {
        assert_eq!(ingestion.step(reply), IngestAction::Idle);
        assert!(ingestion.is_handling());
    }
    assert_eq!(
        ingestion.step(IngestReply::Handled(Reply::Exists(Ok(true)))),
        IngestAction::NextNotification(None)
    );
}

#[test]
fn shutdown_notification_ends_the_loop_and_cancels_the_wallets() {
    let mut ingestion = listening(Vec::new());
    assert_eq!(
        ingestion.step(IngestReply::Notified(Notification::Shutdown)),
        IngestAction::Exit { abort_wallet_sync: true }
    );
    assert!(ingestion.is_stopped());
    for reply in [
        IngestReply::Notified(Notification::Other),
        IngestReply::Notified(Notification::Shutdown),
        IngestReply::Subscribed,
        IngestReply::Handled(Reply::Slept),
        IngestReply::Closed,
    ] {
        assert_eq!(ingestion.step(reply), IngestAction::Idle);
        assert!(ingestion.is_stopped());
    }
    assert_eq!(ingestion.start::<String>(), IngestAction::Idle);
}

#[test]
fn end_of_stream_ends_the_loop_alone() {
    let mut ingestion = listening(Vec::new());
    assert_eq!(ingestion.step(IngestReply::Closed), IngestAction::Exit { abort_wallet_sync: false });
    assert!(ingestion.is_stopped());
}

#[test]
fn stop_ends_the_loop_in_any_state() {
    let mut fresh = Ingestion::new("me".to_string(), Timing::default());
    fresh.stop();
    assert!(fresh.is_stopped());
    assert_eq!(fresh.start::<String>(), IngestAction::Idle);

    let mut handling = listening(Vec::new());
    let event = PolicyEvent { id: id("abc"), kind: POLICY_KIND, content: "x".to_string() };
    handling.step(IngestReply::Notified(Notification::Event(event)));
    handling.stop();
    assert!(handling.is_stopped() && !handling.is_handling());
    assert_eq!(handling.step(IngestReply::Handled(Reply::Exists(Ok(false)))), IngestAction::Idle);
}

#[test]
fn reply_of_the_handler_is_ignored_while_listening() {
    let mut ingestion = listening(Vec::new());
    assert_eq!(ingestion.step(IngestReply::Handled(Reply::Slept)), IngestAction::Idle);
    assert_eq!(ingestion.step(IngestReply::Subscribed), IngestAction::Idle);
    assert!(!ingestion.is_stopped());
}
