use crate::error::{SyncError, SyncErrorView};
use crate::event::{EventId, PolicyEvent, PolicyEventView, SharedKey, SharedKeyView};
use crate::nip04::{decrypt_content, decrypted};
use crate::shared_keys::SharedKeyCache;
use crate::timing::Timing;
use vstd::prelude::*;

verus! {

/// Where the handling of one delivered event stands.
#[derive(Debug, Clone, Copy, PartialEq, Eq, Structural)]
pub enum HandlerState {
    /// The policy store was asked whether it holds the event's policy;
    /// `retried` tells whether the shared key was already fetched for this
    /// delivery.
    CheckingStore { retried: bool },
    /// The content is being decrypted with the cached key.
    Decrypting,
    /// The decrypted content is being parsed into a policy.
    Parsing,
    /// The policy is being inserted into the store.
    Inserting,
    /// The pause before the targeted fetch is running.
    Delaying,
    /// The shared key was asked for by event.
    Fetching,
    /// The delivery is over.
    Finished,
}

/// The outcome of the last action, handed back to the handler.
#[derive(Debug, PartialEq, Eq)]
pub enum Reply<P> {
    /// The store told whether it holds a policy for the event.
    Exists(Result<bool, String>),
    /// The pause is over.
    Slept,
    /// The targeted fetch came back.
    Fetched(Result<SharedKey, String>),
    /// The content was decrypted.
    Decrypted(Result<String, SyncError>),
    /// The decrypted content was parsed.
    Parsed(Result<P, String>),
    /// The store took the policy.
    Inserted(Result<(), String>),
}

/// Mathematical value of a [`Reply`].
pub enum ReplyView<P> {
    Exists(Result<bool, Seq<char>>),
    Slept,
    Fetched(Result<SharedKeyView, Seq<char>>),
    Decrypted(Result<Seq<char>, SyncErrorView>),
    Parsed(Result<P, Seq<char>>),
    Inserted(Result<(), Seq<char>>),
}

impl<P> View for Reply<P> {
    type V = ReplyView<P>;

    open spec fn view(&self) -> ReplyView<P> {
        match *self {
            Reply::Exists(Ok(held)) => ReplyView::Exists(Ok(held)),
            Reply::Exists(Err(message)) => ReplyView::Exists(Err(message@)),
            Reply::Slept => ReplyView::Slept,
            Reply::Fetched(Ok(key)) => ReplyView::Fetched(Ok(key@)),
            Reply::Fetched(Err(message)) => ReplyView::Fetched(Err(message@)),
            Reply::Decrypted(Ok(text)) => ReplyView::Decrypted(Ok(text@)),
            Reply::Decrypted(Err(e)) => ReplyView::Decrypted(Err(e@)),
            Reply::Parsed(Ok(policy)) => ReplyView::Parsed(Ok(policy)),
            Reply::Parsed(Err(message)) => ReplyView::Parsed(Err(message@)),
            Reply::Inserted(Ok(())) => ReplyView::Inserted(Ok(())),
            Reply::Inserted(Err(message)) => ReplyView::Inserted(Err(message@)),
        }
    }
}

/// What the handler asks its driver to do next.
#[derive(Debug, PartialEq, Eq)]
pub enum Action<P> {
    /// Ask the policy store whether it holds a policy for the event.
    CheckPolicyExists(EventId),
    /// Pause for so many seconds.
    Sleep(u64),
    /// Ask the network for the shared key of the event, waiting at most so
    /// many seconds.
    FetchSharedKey(EventId, u64),
    /// Decrypt the content with the key.
    Decrypt(SharedKey, String),
    /// Parse the decrypted content into a policy.
    ParsePolicy(String),
    /// Insert the policy into the store under the event's identifier.
    InsertPolicy(EventId, P),
    /// Nothing is left to do for this delivery.
    Finish(Result<(), SyncError>),
}

/// Mathematical value of an [`Action`].
pub enum ActionView<P> {
    CheckPolicyExists(Seq<char>),
    Sleep(u64),
    FetchSharedKey(Seq<char>, u64),
    Decrypt(SharedKeyView, Seq<char>),
    ParsePolicy(Seq<char>),
    InsertPolicy(Seq<char>, P),
    Finish(Result<(), SyncErrorView>),
}

impl<P> View for Action<P> {
    type V = ActionView<P>;

    open spec fn view(&self) -> ActionView<P> {
        match *self {
            Action::CheckPolicyExists(id) => ActionView::CheckPolicyExists(id@),
            Action::Sleep(seconds) => ActionView::Sleep(seconds),
            Action::FetchSharedKey(id, wait) => ActionView::FetchSharedKey(id@, wait),
            Action::Decrypt(key, content) => ActionView::Decrypt(key@, content@),
            Action::ParsePolicy(text) => ActionView::ParsePolicy(text@),
            Action::InsertPolicy(id, policy) => ActionView::InsertPolicy(id@, policy),
            Action::Finish(Ok(())) => ActionView::Finish(Ok(())),
            Action::Finish(Err(e)) => ActionView::Finish(Err(e@)),
        }
    }
}

/// The handler of one delivered event.
///
/// It is created by [`PolicyHandler::begin`], which also names the first
/// action; each outcome is then handed to [`PolicyHandler::advance`] until
/// the action is [`Action::Finish`].
#[derive(Debug)]
pub struct PolicyHandler {
    state: HandlerState,
    event: PolicyEvent,
    timing: Timing,
}

/// Mathematical value of a [`PolicyHandler`].
pub struct HandlerView {
    pub state: HandlerState,
    pub event: PolicyEventView,
    pub timing: Timing,
}

impl View for PolicyHandler {
    type V = HandlerView;

    closed spec fn view(&self) -> HandlerView {
        HandlerView { state: self.state, event: self.event@, timing: self.timing }
    }
}

/// A handler, the cache it works on and the action it asks for.
pub struct Step<P> {
    pub handler: HandlerView,
    pub cache: Map<Seq<char>, SharedKeyView>,
    pub action: ActionView<P>,
}

impl HandlerView {
    /// The handler in another state.
    pub open spec fn at(self, state: HandlerState) -> HandlerView {
        HandlerView { state, ..self }
    }

    /// The delivery ends with `outcome`.
    pub open spec fn finish<P>(
        self,
        cache: Map<Seq<char>, SharedKeyView>,
        outcome: Result<(), SyncErrorView>,
    ) -> Step<P> {
        Step { handler: self.at(HandlerState::Finished), cache, action: ActionView::Finish(outcome) }
    }

    /// The handler moves to `state` and asks for `action`.
    pub open spec fn ask<P>(
        self,
        cache: Map<Seq<char>, SharedKeyView>,
        state: HandlerState,
        action: ActionView<P>,
    ) -> Step<P> {
        Step { handler: self.at(state), cache, action }
    }

    /// What follows once the store has denied holding the policy: with a
    /// cached key the content is decrypted; without one the key is fetched,
    /// once per delivery.
    pub open spec fn resolve<P>(self, cache: Map<Seq<char>, SharedKeyView>, retried: bool) -> Step<
        P,
    > {
        if cache.contains_key(self.event.id) {
            self.ask(
                cache,
                HandlerState::Decrypting,
                ActionView::Decrypt(cache[self.event.id], self.event.content),
            )
        } else if retried {
            self.finish(cache, Err(SyncErrorView::SharedKeyUnavailable))
        } else {
            self.ask(cache, HandlerState::Delaying, ActionView::Sleep(self.timing.retry_delay))
        }
    }

    /// The decision of the handler on one reply.
    ///
    /// A reply that does not answer the outstanding action ends the delivery
    /// with [`SyncError::UnexpectedReply`].
    pub open spec fn step<P>(self, cache: Map<Seq<char>, SharedKeyView>, reply: ReplyView<P>) -> Step<
        P,
    > {
        match (self.state, reply) {
            (HandlerState::CheckingStore { retried }, ReplyView::Exists(Ok(held))) => if held {
                self.finish(cache, Ok(()))
            } else {
                self.resolve(cache, retried)
            },
            (HandlerState::CheckingStore { .. }, ReplyView::Exists(Err(message))) => self.finish(
                cache,
                Err(SyncErrorView::Store(message)),
            ),
            (HandlerState::Delaying, ReplyView::Slept) => self.ask(
                cache,
                HandlerState::Fetching,
                ActionView::FetchSharedKey(self.event.id, self.timing.shared_key_fetch_wait),
            ),
            (HandlerState::Fetching, ReplyView::Fetched(Ok(key))) => self.ask(
                cache.insert(self.event.id, key),
                HandlerState::CheckingStore { retried: true },
                ActionView::CheckPolicyExists(self.event.id),
            ),
            (HandlerState::Fetching, ReplyView::Fetched(Err(message))) => self.finish(
                cache,
                Err(SyncErrorView::SharedKey(message)),
            ),
            (HandlerState::Decrypting, ReplyView::Decrypted(Ok(text))) => self.ask(
                cache,
                HandlerState::Parsing,
                ActionView::ParsePolicy(text),
            ),
            (HandlerState::Decrypting, ReplyView::Decrypted(Err(e))) => self.finish(cache, Err(e)),
            (HandlerState::Parsing, ReplyView::Parsed(Ok(policy))) => self.ask(
                cache,
                HandlerState::Inserting,
                ActionView::InsertPolicy(self.event.id, policy),
            ),
            (HandlerState::Parsing, ReplyView::Parsed(Err(message))) => self.finish(
                cache,
                Err(SyncErrorView::Parse(message)),
            ),
            (HandlerState::Inserting, ReplyView::Inserted(Ok(()))) => self.finish(cache, Ok(())),
            (HandlerState::Inserting, ReplyView::Inserted(Err(message))) => self.finish(
                cache,
                Err(SyncErrorView::Store(message)),
            ),
            _ => self.finish(cache, Err(SyncErrorView::UnexpectedReply)),
        }
    }

    /// The decision on one reply, with decryption carried out on the way:
    /// where [`HandlerView::step`] asks for a decryption, its outcome is fed
    /// back at once.
    pub open spec fn advance<P>(self, cache: Map<Seq<char>, SharedKeyView>, reply: ReplyView<P>) -> Step<
        P,
    > {
        let first = self.step(cache, reply);
        match first.action {
            ActionView::Decrypt(key, content) => first.handler.step(
                first.cache,
                ReplyView::Decrypted(decrypted(key, content)),
            ),
            _ => first,
        }
    }
}

/// The handler and first action for a delivered event: an event of another
/// kind than the policy kind is done at once, without any action.
pub open spec fn begin<P>(event: PolicyEventView, timing: Timing) -> (HandlerView, ActionView<P>) {
    if event.is_policy() {
        (
            HandlerView { state: HandlerState::CheckingStore { retried: false }, event, timing },
            ActionView::CheckPolicyExists(event.id),
        )
    } else {
        (HandlerView { state: HandlerState::Finished, event, timing }, ActionView::Finish(Ok(())))
    }
}

impl PolicyHandler {
    /// Starts the handling of `event`.
    pub fn begin<P>(event: PolicyEvent, timing: Timing) -> (start: (PolicyHandler, Action<P>))
        ensures
            (start.0@, start.1@) == begin::<P>(event@, timing),
    {
        if event.kind == crate::event::POLICY_KIND {
            let action = Action::CheckPolicyExists(event.id.clone());
            (PolicyHandler { state: HandlerState::CheckingStore { retried: false }, event, timing }, action)
        } else {
            (PolicyHandler { state: HandlerState::Finished, event, timing }, Action::Finish(Ok(())))
        }
    }

    /// The state the handler is in.
    pub fn state(&self) -> (state: HandlerState)
        ensures
            state == self@.state,
    {
        self.state
    }

    /// The event being handled.
    pub fn event(&self) -> (event: &PolicyEvent)
        ensures
            event@ == self@.event,
    {
        &self.event
    }

    /// Whether the delivery is over.
    pub fn is_finished(&self) -> (done: bool)
        ensures
            done == (self@.state == HandlerState::Finished),
    {
        match self.state {
            HandlerState::Finished => true,
            _ => false,
        }
    }

    fn finish<P>(&mut self, outcome: Result<(), SyncError>) -> (action: Action<P>)
        ensures
            final(self)@ == old(self)@.at(HandlerState::Finished),
            action@ == ActionView::<P>::Finish(
                match outcome {
                    Ok(()) => Ok(()),
                    Err(e) => Err(e@),
                },
            ),
    {
        self.state = HandlerState::Finished;
        Action::Finish(outcome)
    }

    /// Decides on one reply, leaving decryption to the driver.
    pub fn step<P>(&mut self, cache: &mut SharedKeyCache, reply: Reply<P>) -> (action: Action<P>)
        ensures
            final(self)@ == old(self)@.step(old(cache)@, reply@).handler,
            final(cache)@ == old(self)@.step(old(cache)@, reply@).cache,
            action@ == old(self)@.step(old(cache)@, reply@).action,
    {
        match (self.state, reply) {
            (HandlerState::CheckingStore { retried }, Reply::Exists(Ok(held))) => {
                if held {
                    self.finish(Ok(()))
                } else {
                    match cache.get(&self.event.id) {
                        Some(key) => {
                            let action = Action::Decrypt(key.clone(), self.event.content.clone());
                            self.state = HandlerState::Decrypting;
                            action
                        },
                        None => {
                            if retried {
                                self.finish(Err(SyncError::SharedKeyUnavailable))
                            } else {
                                self.state = HandlerState::Delaying;
                                Action::Sleep(self.timing.retry_delay)
                            }
                        },
                    }
                }
            },
            (HandlerState::CheckingStore { .. }, Reply::Exists(Err(message))) => self.finish(
                Err(SyncError::Store(message)),
            ),
            (HandlerState::Delaying, Reply::Slept) => {
                self.state = HandlerState::Fetching;
                Action::FetchSharedKey(self.event.id.clone(), self.timing.shared_key_fetch_wait)
            },
            (HandlerState::Fetching, Reply::Fetched(Ok(key))) => {
                cache.insert(self.event.id.clone(), key);
                self.state = HandlerState::CheckingStore { retried: true };
                Action::CheckPolicyExists(self.event.id.clone())
            },
            (HandlerState::Fetching, Reply::Fetched(Err(message))) => self.finish(
                Err(SyncError::SharedKey(message)),
            ),
            (HandlerState::Decrypting, Reply::Decrypted(Ok(text))) => {
                self.state = HandlerState::Parsing;
                Action::ParsePolicy(text)
            },
            (HandlerState::Decrypting, Reply::Decrypted(Err(e))) => self.finish(Err(e)),
            (HandlerState::Parsing, Reply::Parsed(Ok(policy))) => {
                self.state = HandlerState::Inserting;
                Action::InsertPolicy(self.event.id.clone(), policy)
            },
            (HandlerState::Parsing, Reply::Parsed(Err(message))) => self.finish(
                Err(SyncError::Parse(message)),
            ),
            (HandlerState::Inserting, Reply::Inserted(Ok(()))) => self.finish(Ok(())),
            (HandlerState::Inserting, Reply::Inserted(Err(message))) => self.finish(
                Err(SyncError::Store(message)),
            ),
            _ => self.finish(Err(SyncError::UnexpectedReply)),
        }
    }

    /// Decides on one reply and carries out decryption itself, so that the
    /// driver is only ever asked for work that needs the outside world.
    pub fn advance<P>(&mut self, cache: &mut SharedKeyCache, reply: Reply<P>) -> (action: Action<P>)
        ensures
            final(self)@ == old(self)@.advance(old(cache)@, reply@).handler,
            final(cache)@ == old(self)@.advance(old(cache)@, reply@).cache,
            action@ == old(self)@.advance(old(cache)@, reply@).action,
    {
        let first = self.step(cache, reply);
        match first {
            Action::Decrypt(key, content) => {
                let outcome = decrypt_content(&key, content.as_str());
                self.step(cache, Reply::Decrypted(outcome))
            },
            other => other,
        }
    }
}

} // verus!
