use crate::delivery::rank;
use crate::error::{SyncError, SyncErrorView};
use crate::event::{
    EventId, PolicyEvent, PolicyEventView, SharedKey, SharedKeyView, SubscriptionFilter,
    SubscriptionFilterView, POLICY_KIND,
};
use crate::handler::{begin, Action, ActionView, HandlerView, PolicyHandler, Reply, ReplyView};
use crate::shared_keys::{keys_of, SharedKeyCache};
use crate::timing::Timing;
use vstd::prelude::*;

verus! {

/// The classes of notification that the relay client delivers.
#[derive(Debug, PartialEq, Eq)]
pub enum Notification {
    /// An event arrived.
    Event(PolicyEvent),
    /// The client is shutting down.
    Shutdown,
    /// Anything else.
    Other,
}

/// Mathematical value of a [`Notification`].
pub enum NotificationView {
    Event(PolicyEventView),
    Shutdown,
    Other,
}

impl View for Notification {
    type V = NotificationView;

    open spec fn view(&self) -> NotificationView {
        match *self {
            Notification::Event(event) => NotificationView::Event(event@),
            Notification::Shutdown => NotificationView::Shutdown,
            Notification::Other => NotificationView::Other,
        }
    }
}

/// The outcome of the last action of the ingestion loop.
#[derive(Debug, PartialEq, Eq)]
pub enum IngestReply<P> {
    /// The bulk prefetch of shared keys came back.
    Prefetched(Result<Vec<(EventId, SharedKey)>, String>),
    /// The subscription is in place.
    Subscribed,
    /// The next notification arrived.
    Notified(Notification),
    /// The stream skipped notifications.
    Lagged,
    /// The stream has ended.
    Closed,
    /// The action asked for on behalf of the event handler was carried out.
    Handled(Reply<P>),
}

/// Mathematical value of an [`IngestReply`].
pub enum IngestReplyView<P> {
    Prefetched(Result<Map<Seq<char>, SharedKeyView>, Seq<char>>),
    Subscribed,
    Notified(NotificationView),
    Lagged,
    Closed,
    Handled(ReplyView<P>),
}

impl<P> View for IngestReply<P> {
    type V = IngestReplyView<P>;

    open spec fn view(&self) -> IngestReplyView<P> {
        match *self {
            IngestReply::Prefetched(Ok(pairs)) => IngestReplyView::Prefetched(Ok(keys_of(pairs@))),
            IngestReply::Prefetched(Err(message)) => IngestReplyView::Prefetched(Err(message@)),
            IngestReply::Subscribed => IngestReplyView::Subscribed,
            IngestReply::Notified(notification) => IngestReplyView::Notified(notification@),
            IngestReply::Lagged => IngestReplyView::Lagged,
            IngestReply::Closed => IngestReplyView::Closed,
            IngestReply::Handled(reply) => IngestReplyView::Handled(reply@),
        }
    }
}

/// An event whose handling failed, and why.
#[derive(Debug, PartialEq, Eq)]
pub struct Failure {
    pub id: EventId,
    pub error: SyncError,
}

/// Mathematical value of a [`Failure`].
pub struct FailureView {
    pub id: Seq<char>,
    pub error: SyncErrorView,
}

impl View for Failure {
    type V = FailureView;

    open spec fn view(&self) -> FailureView {
        FailureView { id: self.id@, error: self.error@ }
    }
}

/// What the ingestion loop asks its driver to do next.
#[derive(Debug, PartialEq, Eq)]
pub enum IngestAction<P> {
    /// Fetch all shared keys available to this identity, waiting at most so
    /// many seconds.
    PrefetchSharedKeys(u64),
    /// Subscribe to the events that the filter describes.
    Subscribe(SubscriptionFilter),
    /// Wait for the next notification. A failure, if any, tells how the
    /// event just handled went wrong; it is to be reported and is no reason
    /// to stop.
    NextNotification(Option<Failure>),
    /// Carry out an action for the event handler.
    Handle(Action<P>),
    /// Leave the loop, cancelling the wallet synchronisation first if told
    /// so.
    Exit { abort_wallet_sync: bool },
    /// Nothing: the reply answered no outstanding action, or the loop is
    /// over.
    Idle,
}

/// Mathematical value of an [`IngestAction`].
pub enum IngestActionView<P> {
    PrefetchSharedKeys(u64),
    Subscribe(SubscriptionFilterView),
    NextNotification(Option<FailureView>),
    Handle(ActionView<P>),
    Exit { abort_wallet_sync: bool },
    Idle,
}

impl<P> View for IngestAction<P> {
    type V = IngestActionView<P>;

    open spec fn view(&self) -> IngestActionView<P> {
        match *self {
            IngestAction::PrefetchSharedKeys(wait) => IngestActionView::PrefetchSharedKeys(wait),
            IngestAction::Subscribe(filter) => IngestActionView::Subscribe(filter@),
            IngestAction::NextNotification(Some(failure)) => IngestActionView::NextNotification(
                Some(failure@),
            ),
            IngestAction::NextNotification(None) => IngestActionView::NextNotification(None),
            IngestAction::Handle(action) => IngestActionView::Handle(action@),
            IngestAction::Exit { abort_wallet_sync } => IngestActionView::Exit { abort_wallet_sync },
            IngestAction::Idle => IngestActionView::Idle,
        }
    }
}

/// Where the ingestion loop stands.
#[derive(Debug)]
pub enum IngestState {
    /// Not started.
    Created,
    /// The bulk prefetch of shared keys is running.
    Prefetching,
    /// The subscription is being set up.
    Subscribing,
    /// The loop waits for the next notification.
    Listening,
    /// An event is being handled; no other notification is taken meanwhile.
    Handling(PolicyHandler),
    /// The loop is over.
    Stopped,
}

/// Mathematical value of an [`IngestState`].
pub enum IngestStateView {
    Created,
    Prefetching,
    Subscribing,
    Listening,
    Handling(HandlerView),
    Stopped,
}

impl View for IngestState {
    type V = IngestStateView;

    open spec fn view(&self) -> IngestStateView {
        match *self {
            IngestState::Created => IngestStateView::Created,
            IngestState::Prefetching => IngestStateView::Prefetching,
            IngestState::Subscribing => IngestStateView::Subscribing,
            IngestState::Listening => IngestStateView::Listening,
            IngestState::Handling(handler) => IngestStateView::Handling(handler@),
            IngestState::Stopped => IngestStateView::Stopped,
        }
    }
}

/// The event ingestion loop: it warms the shared-key cache, subscribes to
/// the policy events addressed to one public key, and then takes the
/// notifications one at a time, in the order of their delivery.
pub struct Ingestion {
    state: IngestState,
    recipient: String,
    timing: Timing,
    cache: SharedKeyCache,
}

/// Mathematical value of an [`Ingestion`].
pub struct IngestionView {
    pub state: IngestStateView,
    pub recipient: Seq<char>,
    pub timing: Timing,
    pub cache: Map<Seq<char>, SharedKeyView>,
}

impl View for Ingestion {
    type V = IngestionView;

    closed spec fn view(&self) -> IngestionView {
        IngestionView {
            state: self.state@,
            recipient: self.recipient@,
            timing: self.timing,
            cache: self.cache@,
        }
    }
}

impl IngestionView {
    /// The loop before its start.
    pub open spec fn created(recipient: Seq<char>, timing: Timing) -> IngestionView {
        IngestionView {
            state: IngestStateView::Created,
            recipient,
            timing,
            cache: Map::empty(),
        }
    }

    /// The loop in another state.
    pub open spec fn at(self, state: IngestStateView) -> IngestionView {
        IngestionView { state, ..self }
    }

    /// The filter of the one subscription: policy events addressed to the
    /// recipient.
    pub open spec fn filter(self) -> SubscriptionFilterView {
        SubscriptionFilterView { kind: POLICY_KIND, recipient: self.recipient }
    }

    /// The loop once started, and its first action.
    pub open spec fn started<P>(self) -> (IngestionView, IngestActionView<P>) {
        if self.state is Created {
            (
                self.at(IngestStateView::Prefetching),
                IngestActionView::PrefetchSharedKeys(self.timing.shared_key_prefetch_wait),
            )
        } else {
            (self, IngestActionView::Idle)
        }
    }

    /// The loop once stopped from outside.
    pub open spec fn stopped(self) -> IngestionView {
        self.at(IngestStateView::Stopped)
    }

    /// What follows an action of the event handler: while the handler has
    /// work for the driver, the loop passes it on; once the handler is done,
    /// the loop reports a failure, if there was one, and listens again.
    pub open spec fn dispatch<P>(
        self,
        handler: HandlerView,
        cache: Map<Seq<char>, SharedKeyView>,
        action: ActionView<P>,
    ) -> (IngestionView, IngestActionView<P>) {
        match action {
            ActionView::Finish(Ok(())) => (
                IngestionView { state: IngestStateView::Listening, cache, ..self },
                IngestActionView::NextNotification(None),
            ),
            ActionView::Finish(Err(error)) => (
                IngestionView { state: IngestStateView::Listening, cache, ..self },
                IngestActionView::NextNotification(
                    Some(FailureView { id: handler.event.id, error }),
                ),
            ),
            _ => (
                IngestionView { state: IngestStateView::Handling(handler), cache, ..self },
                IngestActionView::Handle(action),
            ),
        }
    }

    /// The decision of the loop on one reply.
    ///
    /// A failed prefetch leaves the cache empty. A shutdown notification
    /// ends the loop and has the wallet synchronisation cancelled; the end
    /// of the stream ends the loop alone. A reply that answers no
    /// outstanding action is ignored.
    pub open spec fn step<P>(self, reply: IngestReplyView<P>) -> (IngestionView, IngestActionView<P>) {
        match (self.state, reply) {
            (IngestStateView::Prefetching, IngestReplyView::Prefetched(found)) => (
                IngestionView {
                    state: IngestStateView::Subscribing,
                    cache: match found {
                        Ok(keys) => keys,
                        Err(_) => Map::empty(),
                    },
                    ..self
                },
                IngestActionView::Subscribe(self.filter()),
            ),
            (IngestStateView::Subscribing, IngestReplyView::Subscribed) => (
                self.at(IngestStateView::Listening),
                IngestActionView::NextNotification(None),
            ),
            (
                IngestStateView::Listening,
                IngestReplyView::Notified(NotificationView::Event(event)),
            ) => {
                let start = begin::<P>(event, self.timing);
                self.dispatch(start.0, self.cache, start.1)
            },
            (IngestStateView::Listening, IngestReplyView::Notified(NotificationView::Shutdown)) => (
                self.at(IngestStateView::Stopped),
                IngestActionView::Exit { abort_wallet_sync: true },
            ),
            (IngestStateView::Listening, IngestReplyView::Notified(NotificationView::Other)) => (
                self,
                IngestActionView::NextNotification(None),
            ),
            (IngestStateView::Listening, IngestReplyView::Lagged) => (
                self,
                IngestActionView::NextNotification(None),
            ),
            (IngestStateView::Listening, IngestReplyView::Closed) => (
                self.at(IngestStateView::Stopped),
                IngestActionView::Exit { abort_wallet_sync: false },
            ),
            (IngestStateView::Handling(handler), IngestReplyView::Handled(reply)) => {
                let next = handler.advance(self.cache, reply);
                self.dispatch(next.handler, next.cache, next.action)
            },
            _ => (self, IngestActionView::Idle),
        }
    }
}

impl Ingestion {
    /// A loop for the events addressed to `recipient`, not started yet.
    pub fn new(recipient: String, timing: Timing) -> (ingestion: Self)
        ensures
            ingestion@ == IngestionView::created(recipient@, timing),
    {
        Ingestion { state: IngestState::Created, recipient, timing, cache: SharedKeyCache::new() }
    }

    /// The shared keys known so far.
    pub fn cache(&self) -> (cache: &SharedKeyCache)
        ensures
            cache@ == self@.cache,
    {
        &self.cache
    }

    /// Whether the loop is over.
    pub fn is_stopped(&self) -> (stopped: bool)
        ensures
            stopped == (self@.state is Stopped),
    {
        match &self.state {
            IngestState::Stopped => true,
            _ => false,
        }
    }

    /// Whether an event is being handled.
    pub fn is_handling(&self) -> (handling: bool)
        ensures
            handling == (self@.state is Handling),
    {
        match &self.state {
            IngestState::Handling(_) => true,
            _ => false,
        }
    }

    /// Starts the loop. Starting it a second time does nothing.
    pub fn start<P>(&mut self) -> (action: IngestAction<P>)
        ensures
            (final(self)@, action@) == old(self)@.started::<P>(),
    {
        match &self.state {
            IngestState::Created => {
                self.state = IngestState::Prefetching;
                IngestAction::PrefetchSharedKeys(self.timing.shared_key_prefetch_wait)
            },
            _ => IngestAction::Idle,
        }
    }

    /// Ends the loop from outside.
    pub fn stop(&mut self)
        ensures
            final(self)@ == old(self)@.stopped(),
    {
        self.state = IngestState::Stopped;
    }

    fn dispatch<P>(&mut self, handler: PolicyHandler, action: Action<P>) -> (asked: IngestAction<P>)
        ensures
            (final(self)@, asked@) == old(self)@.dispatch(handler@, old(self)@.cache, action@),
    {
        match action {
            Action::Finish(Ok(())) => {
                self.state = IngestState::Listening;
                IngestAction::NextNotification(None)
            },
            Action::Finish(Err(error)) => {
                self.state = IngestState::Listening;
                IngestAction::NextNotification(Some(Failure { id: handler.event().id.clone(), error }))
            },
            other => {
                self.state = IngestState::Handling(handler);
                IngestAction::Handle(other)
            },
        }
    }

    /// Decides on one reply.
    pub fn step<P>(&mut self, reply: IngestReply<P>) -> (action: IngestAction<P>)
        ensures
            (final(self)@, action@) == old(self)@.step(reply@),
    {
        let mut state = IngestState::Stopped;
        std::mem::swap(&mut self.state, &mut state);
        match (state, reply) {
            (IngestState::Prefetching, IngestReply::Prefetched(found)) => {
                self.cache = match found {
                    Ok(pairs) => SharedKeyCache::from_pairs(pairs),
                    Err(_) => SharedKeyCache::new(),
                };
                self.state = IngestState::Subscribing;
                IngestAction::Subscribe(
                    SubscriptionFilter { kind: POLICY_KIND, recipient: self.recipient.clone() },
                )
            },
            (IngestState::Subscribing, IngestReply::Subscribed) => {
                self.state = IngestState::Listening;
                IngestAction::NextNotification(None)
            },
            (IngestState::Listening, IngestReply::Notified(Notification::Event(event))) => {
                let (handler, action) = PolicyHandler::begin::<P>(event, self.timing);
                self.dispatch(handler, action)
            },
            (IngestState::Listening, IngestReply::Notified(Notification::Shutdown)) => {
                IngestAction::Exit { abort_wallet_sync: true }
            },
            (IngestState::Listening, IngestReply::Notified(Notification::Other)) => {
                self.state = IngestState::Listening;
                IngestAction::NextNotification(None)
            },
            (IngestState::Listening, IngestReply::Lagged) => {
                self.state = IngestState::Listening;
                IngestAction::NextNotification(None)
            },
            (IngestState::Listening, IngestReply::Closed) => {
                IngestAction::Exit { abort_wallet_sync: false }
            },
            (IngestState::Handling(handler), IngestReply::Handled(reply)) => {
                let mut handler = handler;
                let action = handler.advance(&mut self.cache, reply);
                self.dispatch(handler, action)
            },
            (state, _) => {
                self.state = state;
                IngestAction::Idle
            },
        }
    }
}

/// A failed bulk prefetch is no failure of the loop: it subscribes all the
/// same, with an empty cache.
pub proof fn failed_prefetch_leaves_cache_empty<P>(ingestion: IngestionView, message: Seq<char>)
    requires
        ingestion.state is Prefetching,
    ensures
        ingestion.step::<P>(IngestReplyView::Prefetched(Err(message))) == (
            IngestionView {
                state: IngestStateView::Subscribing,
                cache: Map::empty(),
                ..ingestion
            },
            IngestActionView::<P>::Subscribe(ingestion.filter()),
        ),
{
}

/// Events are handled one at a time: while one is being handled, a
/// notification is not taken, and the loop asks for the next notification
/// only when it is listening again.
pub proof fn events_are_handled_in_turn<P>(ingestion: IngestionView, reply: IngestReplyView<P>)
    ensures
        ingestion.state is Handling && reply is Notified ==> ingestion.step(reply) == (
            ingestion,
            IngestActionView::<P>::Idle,
        ),
        ingestion.step(reply).1 is NextNotification ==> ingestion.step(reply).0.state is Listening,
        ingestion.step(reply).1 is Handle ==> ingestion.step(reply).0.state is Handling,
{
}

/// Whatever goes wrong with one event, the loop goes on listening: no reply
/// of the event handler ends it.
pub proof fn handler_failure_keeps_listening<P>(ingestion: IngestionView, reply: ReplyView<P>)
    requires
        ingestion.state is Handling,
    ensures
        !(ingestion.step(IngestReplyView::Handled(reply)).0.state is Stopped),
        !(ingestion.step(IngestReplyView::Handled(reply)).1 is Exit),
{
}

/// Only a shutdown notification or the end of the stream ends the loop.
pub proof fn only_shutdown_or_end_stops<P>(ingestion: IngestionView, reply: IngestReplyView<P>)
    requires
        !(ingestion.state is Stopped),
        ingestion.step(reply).0.state is Stopped,
    ensures
        ingestion.state is Listening,
        reply == IngestReplyView::<P>::Notified(NotificationView::Shutdown) || reply
            == IngestReplyView::<P>::Closed,
        ingestion.step(reply).1 == (IngestActionView::<P>::Exit {
            abort_wallet_sync: reply is Notified,
        }),
{
}

/// A stopped loop stays stopped and asks for nothing.
pub proof fn stopped_loop_is_silent<P>(ingestion: IngestionView, reply: IngestReplyView<P>)
    requires
        ingestion.state is Stopped,
    ensures
        ingestion.step(reply) == (ingestion, IngestActionView::<P>::Idle),
        ingestion.started::<P>() == (ingestion, IngestActionView::<P>::Idle),
{
}

/// The handling of one event is over after a bounded number of replies:
/// each reply either sends the loop back to listening or brings the event
/// handler nearer to its end, of which it is at most seven replies away.
pub proof fn handling_comes_to_an_end<P>(
    ingestion: IngestionView,
    handler: HandlerView,
    reply: ReplyView<P>,
)
    requires
        ingestion.state == IngestStateView::Handling(handler),
    ensures
        rank(handler.state) <= 7,
        ingestion.step(IngestReplyView::Handled(reply)).0.state is Listening || (
        ingestion.step(IngestReplyView::Handled(reply)).0.state matches IngestStateView::Handling(
            next,
        ) && rank(next.state) < rank(handler.state)),
{
}

} // verus!
