use crate::error::SyncErrorView;
use crate::event::{PolicyEventView, SharedKeyView};
use crate::handler::{begin, ActionView, HandlerState, HandlerView, ReplyView};
use crate::nip04::decrypted;
use crate::timing::Timing;
use vstd::prelude::*;

verus! {

/// The collaborators of the handler in working order, as far as one
/// delivery can tell them apart: what the policy store holds, which shared
/// keys the network hands out, and how decrypted content parses. The store
/// of such a world answers every question and takes every policy.
pub struct World<P> {
    /// The policies in the store, by event identifier.
    pub policies: Map<Seq<char>, P>,
    /// The shared keys that a targeted fetch delivers; for every other
    /// identifier the fetch fails.
    pub keys: Map<Seq<char>, SharedKeyView>,
    /// The message of a failed fetch.
    pub fetch_failure: Seq<char>,
    /// The policy parser.
    pub parse: spec_fn(Seq<char>) -> Result<P, Seq<char>>,
}

impl<P> World<P> {
    /// The world after `action` was carried out.
    pub open spec fn after(self, action: ActionView<P>) -> World<P> {
        match action {
            ActionView::InsertPolicy(id, policy) => World {
                policies: self.policies.insert(id, policy),
                ..self
            },
            _ => self,
        }
    }

    /// The reply that carrying out `action` gives.
    pub open spec fn reply(self, action: ActionView<P>) -> ReplyView<P> {
        match action {
            ActionView::CheckPolicyExists(id) => ReplyView::Exists(Ok(self.policies.contains_key(id))),
            ActionView::Sleep(_) => ReplyView::Slept,
            ActionView::FetchSharedKey(id, _) => if self.keys.contains_key(id) {
                ReplyView::Fetched(Ok(self.keys[id]))
            } else {
                ReplyView::Fetched(Err(self.fetch_failure))
            },
            ActionView::Decrypt(key, content) => ReplyView::Decrypted(decrypted(key, content)),
            ActionView::ParsePolicy(text) => ReplyView::Parsed((self.parse)(text)),
            ActionView::InsertPolicy(_, _) => ReplyView::Inserted(Ok(())),
            ActionView::Finish(_) => ReplyView::Slept,
        }
    }
}

/// How one delivery went: the world and the cache it left, the actions it
/// took in order, and its outcome.
pub struct Delivery<P> {
    pub world: World<P>,
    pub cache: Map<Seq<char>, SharedKeyView>,
    pub actions: Seq<ActionView<P>>,
    pub outcome: Result<(), SyncErrorView>,
}

/// How many replies a handler in `state` can still take before it is done.
pub open spec fn rank(state: HandlerState) -> nat {
    match state {
        HandlerState::CheckingStore { retried: false } => 7,
        HandlerState::Delaying => 6,
        HandlerState::Fetching => 5,
        HandlerState::CheckingStore { retried: true } => 4,
        HandlerState::Decrypting => 3,
        HandlerState::Parsing => 2,
        HandlerState::Inserting => 1,
        HandlerState::Finished => 0,
    }
}

/// The rest of a delivery in which `handler` has asked for `action`.
pub open spec fn run<P>(
    world: World<P>,
    handler: HandlerView,
    cache: Map<Seq<char>, SharedKeyView>,
    action: ActionView<P>,
) -> Delivery<P>
    decreases rank(handler.state),
{
    match action {
        ActionView::Finish(outcome) => Delivery { world, cache, actions: seq![action], outcome },
        _ => {
            let next = handler.step(cache, world.reply(action));
            if rank(next.handler.state) < rank(handler.state) {
                let rest = run(world.after(action), next.handler, next.cache, next.action);
                Delivery { actions: seq![action] + rest.actions, ..rest }
            } else {
                Delivery {
                    world,
                    cache,
                    actions: seq![action],
                    outcome: Err(SyncErrorView::UnexpectedReply),
                }
            }
        },
    }
}

/// The delivery of `event` to a fresh handler.
pub open spec fn deliver<P>(
    world: World<P>,
    cache: Map<Seq<char>, SharedKeyView>,
    event: PolicyEventView,
    timing: Timing,
) -> Delivery<P> {
    let start = begin::<P>(event, timing);
    run(world, start.0, cache, start.1)
}

/// How many of `actions` are targeted fetches.
pub open spec fn fetches<P>(actions: Seq<ActionView<P>>) -> nat
    decreases actions.len(),
{
    if actions.len() == 0 {
        0
    } else {
        fetches(actions.drop_first()) + if actions[0] is FetchSharedKey {
            1nat
        } else {
            0nat
        }
    }
}

/// How many of `actions` insert a policy into the store.
pub open spec fn inserts<P>(actions: Seq<ActionView<P>>) -> nat
    decreases actions.len(),
{
    if actions.len() == 0 {
        0
    } else {
        inserts(actions.drop_first()) + if actions[0] is InsertPolicy {
            1nat
        } else {
            0nat
        }
    }
}

/// How many of `actions` decrypt.
pub open spec fn decryptions<P>(actions: Seq<ActionView<P>>) -> nat
    decreases actions.len(),
{
    if actions.len() == 0 {
        0
    } else {
        decryptions(actions.drop_first()) + if actions[0] is Decrypt {
            1nat
        } else {
            0nat
        }
    }
}

/// Every reply brings an unfinished handler closer to its end.
pub proof fn step_lowers_rank<P>(
    handler: HandlerView,
    cache: Map<Seq<char>, SharedKeyView>,
    reply: ReplyView<P>,
)
    requires
        handler.state != HandlerState::Finished,
    ensures
        rank(handler.step(cache, reply).handler.state) < rank(handler.state),
{
}

/// A handler keeps its event and its waits.
pub proof fn step_keeps_event<P>(
    handler: HandlerView,
    cache: Map<Seq<char>, SharedKeyView>,
    reply: ReplyView<P>,
)
    ensures
        handler.step(cache, reply).handler.event == handler.event,
        handler.step(cache, reply).handler.timing == handler.timing,
{
}

/// Whether `action` is what a handler in the state of `handler` waits for.
pub open spec fn awaits<P>(handler: HandlerView, action: ActionView<P>) -> bool {
    match handler.state {
        HandlerState::CheckingStore { .. } => action == ActionView::<P>::CheckPolicyExists(
            handler.event.id,
        ),
        HandlerState::Delaying => action == ActionView::<P>::Sleep(handler.timing.retry_delay),
        HandlerState::Fetching => action == ActionView::<P>::FetchSharedKey(
            handler.event.id,
            handler.timing.shared_key_fetch_wait,
        ),
        HandlerState::Decrypting => action matches ActionView::Decrypt(_, content) && content
            == handler.event.content,
        HandlerState::Parsing => action is ParsePolicy,
        HandlerState::Inserting => action matches ActionView::InsertPolicy(id, _) && id
            == handler.event.id,
        HandlerState::Finished => action is Finish,
    }
}

/// A handler only ever asks for the action that its new state waits for.
pub proof fn step_asks_what_it_awaits<P>(
    handler: HandlerView,
    cache: Map<Seq<char>, SharedKeyView>,
    reply: ReplyView<P>,
)
    ensures
        awaits(handler.step(cache, reply).handler, handler.step(cache, reply).action),
{
}

/// The first action of a delivery is the one that the fresh handler waits
/// for.
pub proof fn begin_asks_what_it_awaits<P>(event: PolicyEventView, timing: Timing)
    ensures
        awaits(begin::<P>(event, timing).0, begin::<P>(event, timing).1),
{
}

proof fn count_first<P>(action: ActionView<P>, rest: Seq<ActionView<P>>)
    ensures
        fetches(seq![action] + rest) == fetches(rest) + if action is FetchSharedKey {
            1nat
        } else {
            0nat
        },
        inserts(seq![action] + rest) == inserts(rest) + if action is InsertPolicy {
            1nat
        } else {
            0nat
        },
        decryptions(seq![action] + rest) == decryptions(rest) + if action is Decrypt {
            1nat
        } else {
            0nat
        },
{
    let all = seq![action] + rest;
    assert(all.drop_first() =~= rest);
    assert(all[0] == action);
}

proof fn count_single<P>(action: ActionView<P>)
    ensures
        fetches(seq![action]) == if action is FetchSharedKey {
            1nat
        } else {
            0nat
        },
        inserts(seq![action]) == if action is InsertPolicy {
            1nat
        } else {
            0nat
        },
        decryptions(seq![action]) == if action is Decrypt {
            1nat
        } else {
            0nat
        },
{
    count_first(action, Seq::empty());
    assert(seq![action] + Seq::<ActionView<P>>::empty() =~= seq![action]);
    assert(fetches(Seq::<ActionView<P>>::empty()) == 0);
    assert(inserts(Seq::<ActionView<P>>::empty()) == 0);
    assert(decryptions(Seq::<ActionView<P>>::empty()) == 0);
}

/// What the rest of a delivery can still do in any world: it fetches only
/// before the key was asked for, decrypts only before the content was
/// opened, inserts only before the store took the policy, each at most once;
/// it changes the store at most by a policy for its own event, and the cache
/// at most by the key that the network holds for its own event.
pub proof fn rest_of_delivery_is_bounded<P>(
    world: World<P>,
    handler: HandlerView,
    cache: Map<Seq<char>, SharedKeyView>,
    action: ActionView<P>,
)
    requires
        awaits(handler, action),
    ensures
        ({
            let d = run(world, handler, cache, action);
            &&& fetches(d.actions) <= if rank(handler.state) >= 5 {
                1nat
            } else {
                0nat
            }
            &&& decryptions(d.actions) <= if rank(handler.state) >= 3 {
                1nat
            } else {
                0nat
            }
            &&& inserts(d.actions) <= if rank(handler.state) >= 1 {
                1nat
            } else {
                0nat
            }
            &&& d.world.keys == world.keys
            &&& d.world.parse == world.parse
            &&& d.world.fetch_failure == world.fetch_failure
            &&& inserts(d.actions) == 0 ==> d.world.policies == world.policies
            &&& inserts(d.actions) == 1 ==> d.outcome == Ok::<(), SyncErrorView>(())
                && d.world.policies.dom() == world.policies.dom().insert(handler.event.id)
                && d.world.policies.remove(handler.event.id) == world.policies.remove(
                handler.event.id,
            )
            &&& fetches(d.actions) == 0 && rank(handler.state) != 5 ==> d.cache == cache
            &&& d.cache != cache ==> world.keys.contains_key(handler.event.id) && d.cache
                == cache.insert(handler.event.id, world.keys[handler.event.id])
        }),
    decreases rank(handler.state),
{
    let d = run(world, handler, cache, action);
    match action {
        ActionView::Finish(outcome) => {
            count_single(action);
        },
        _ => {
            let next = handler.step(cache, world.reply(action));
            step_lowers_rank(handler, cache, world.reply(action));
            step_asks_what_it_awaits(handler, cache, world.reply(action));
            let rest = run(world.after(action), next.handler, next.cache, next.action);
            rest_of_delivery_is_bounded(world.after(action), next.handler, next.cache, next.action);
            count_first(action, rest.actions);
            assert(d.actions == seq![action] + rest.actions);
            if action is InsertPolicy {
                assert(next.handler.state == HandlerState::Finished);
                assert(inserts(rest.actions) == 0);
                assert(world.after(action).policies.dom() =~= world.policies.dom().insert(
                    handler.event.id,
                ));
                assert(world.after(action).policies.remove(handler.event.id)
                    =~= world.policies.remove(handler.event.id));
            }
        },
    }
}

/// In any world, one delivery asks for the shared key at most once, decrypts
/// at most once and inserts at most once.
pub proof fn delivery_is_bounded<P>(
    world: World<P>,
    cache: Map<Seq<char>, SharedKeyView>,
    event: PolicyEventView,
    timing: Timing,
)
    ensures
        fetches(deliver(world, cache, event, timing).actions) <= 1,
        decryptions(deliver(world, cache, event, timing).actions) <= 1,
        inserts(deliver(world, cache, event, timing).actions) <= 1,
{
    let start = begin::<P>(event, timing);
    begin_asks_what_it_awaits::<P>(event, timing);
    rest_of_delivery_is_bounded(world, start.0, cache, start.1);
}

/// An event of another kind than the policy kind is dropped at once: no
/// store is asked, no key looked up or fetched, nothing changed.
pub proof fn foreign_kind_is_ignored<P>(
    world: World<P>,
    cache: Map<Seq<char>, SharedKeyView>,
    event: PolicyEventView,
    timing: Timing,
)
    requires
        !event.is_policy(),
    ensures
        deliver(world, cache, event, timing) == (Delivery {
            world,
            cache,
            actions: seq![ActionView::Finish(Ok(()))],
            outcome: Ok(()),
        }),
{
}

/// Delivering an event whose policy the store already holds neither
/// decrypts, fetches nor inserts, and leaves store and cache as they were.
pub proof fn stored_policy_is_left_alone<P>(
    world: World<P>,
    cache: Map<Seq<char>, SharedKeyView>,
    event: PolicyEventView,
    timing: Timing,
)
    requires
        world.policies.contains_key(event.id),
    ensures
        deliver(world, cache, event, timing).world == world,
        deliver(world, cache, event, timing).cache == cache,
        deliver(world, cache, event, timing).outcome == Ok::<(), SyncErrorView>(()),
        deliver(world, cache, event, timing).actions == if event.is_policy() {
            seq![ActionView::<P>::CheckPolicyExists(event.id), ActionView::Finish(Ok(()))]
        } else {
            seq![ActionView::<P>::Finish(Ok(()))]
        },
        decryptions(deliver(world, cache, event, timing).actions) == 0,
        fetches(deliver(world, cache, event, timing).actions) == 0,
        inserts(deliver(world, cache, event, timing).actions) == 0,
{
    reveal_with_fuel(run, 3);
    let d = deliver(world, cache, event, timing);
    let finish = ActionView::<P>::Finish(Ok(()));
    count_single(finish);
    if event.is_policy() {
        let check = ActionView::<P>::CheckPolicyExists(event.id);
        count_first(check, seq![finish]);
        assert(d.actions =~= seq![check, finish]);
        assert(seq![check] + seq![finish] =~= seq![check, finish]);
    } else {
        assert(d.actions =~= seq![finish]);
    }
}

/// The actions of a delivery that finds neither policy nor key, fetches the
/// key, opens the content and stores the policy.
pub open spec fn fetched_delivery<P>(
    event: PolicyEventView,
    timing: Timing,
    key: SharedKeyView,
    text: Seq<char>,
    policy: P,
) -> Seq<ActionView<P>> {
    seq![
        ActionView::CheckPolicyExists(event.id),
        ActionView::Sleep(timing.retry_delay),
        ActionView::FetchSharedKey(event.id, timing.shared_key_fetch_wait),
        ActionView::CheckPolicyExists(event.id),
        ActionView::Decrypt(key, event.content),
        ActionView::ParsePolicy(text),
        ActionView::InsertPolicy(event.id, policy),
        ActionView::Finish(Ok(())),
    ]
}

/// A policy event whose key is not cached, but which the network can hand
/// out: the key is fetched once and cached, the content is decrypted, and
/// exactly one policy is inserted, under the event's identifier.
pub proof fn missing_key_is_fetched_once<P>(
    world: World<P>,
    cache: Map<Seq<char>, SharedKeyView>,
    event: PolicyEventView,
    timing: Timing,
    text: Seq<char>,
    policy: P,
)
    requires
        event.is_policy(),
        !world.policies.contains_key(event.id),
        !cache.contains_key(event.id),
        world.keys.contains_key(event.id),
        decrypted(world.keys[event.id], event.content) == Ok::<Seq<char>, SyncErrorView>(text),
        (world.parse)(text) == Ok::<P, Seq<char>>(policy),
    ensures
        deliver(world, cache, event, timing).cache == cache.insert(event.id, world.keys[event.id]),
        deliver(world, cache, event, timing).world == (World {
            policies: world.policies.insert(event.id, policy),
            ..world
        }),
        deliver(world, cache, event, timing).outcome == Ok::<(), SyncErrorView>(()),
        deliver(world, cache, event, timing).actions == fetched_delivery(
            event,
            timing,
            world.keys[event.id],
            text,
            policy,
        ),
        fetches(deliver(world, cache, event, timing).actions) == 1,
        decryptions(deliver(world, cache, event, timing).actions) == 1,
        inserts(deliver(world, cache, event, timing).actions) == 1,
{
    reveal_with_fuel(run, 9);
    let d = deliver(world, cache, event, timing);
    let key = world.keys[event.id];
    let expected = fetched_delivery(event, timing, key, text, policy);
    assert(d.actions =~= expected);
    reveal_with_fuel(fetches, 9);
    reveal_with_fuel(inserts, 9);
    reveal_with_fuel(decryptions, 9);
    assert(expected.drop_first() =~= seq![
        expected[1],
        expected[2],
        expected[3],
        expected[4],
        expected[5],
        expected[6],
        expected[7],
    ]);
    let e1 = expected.drop_first();
    assert(e1.drop_first() =~= seq![expected[2], expected[3], expected[4], expected[5], expected[6], expected[7]]);
    let e2 = e1.drop_first();
    assert(e2.drop_first() =~= seq![expected[3], expected[4], expected[5], expected[6], expected[7]]);
    let e3 = e2.drop_first();
    assert(e3.drop_first() =~= seq![expected[4], expected[5], expected[6], expected[7]]);
    let e4 = e3.drop_first();
    assert(e4.drop_first() =~= seq![expected[5], expected[6], expected[7]]);
    let e5 = e4.drop_first();
    assert(e5.drop_first() =~= seq![expected[6], expected[7]]);
    let e6 = e5.drop_first();
    assert(e6.drop_first() =~= seq![expected[7]]);
    let e7 = e6.drop_first();
    assert(e7.drop_first() =~= Seq::<ActionView<P>>::empty());
}

/// A policy event whose key is neither cached nor to be had from the
/// network: the delivery fails after one fetch, no policy is inserted and
/// the cache stays without an entry for the event.
pub proof fn failed_fetch_changes_nothing<P>(
    world: World<P>,
    cache: Map<Seq<char>, SharedKeyView>,
    event: PolicyEventView,
    timing: Timing,
)
    requires
        event.is_policy(),
        !world.policies.contains_key(event.id),
        !cache.contains_key(event.id),
        !world.keys.contains_key(event.id),
    ensures
        deliver(world, cache, event, timing).world == world,
        deliver(world, cache, event, timing).cache == cache,
        !deliver(world, cache, event, timing).cache.contains_key(event.id),
        deliver(world, cache, event, timing).outcome == Err::<(), SyncErrorView>(
            SyncErrorView::SharedKey(world.fetch_failure),
        ),
        deliver(world, cache, event, timing).actions == seq![
            ActionView::<P>::CheckPolicyExists(event.id),
            ActionView::Sleep(timing.retry_delay),
            ActionView::FetchSharedKey(event.id, timing.shared_key_fetch_wait),
            ActionView::Finish(Err(SyncErrorView::SharedKey(world.fetch_failure))),
        ],
        inserts(deliver(world, cache, event, timing).actions) == 0,
{
    reveal_with_fuel(run, 5);
    let d = deliver(world, cache, event, timing);
    let expected = seq![
        ActionView::<P>::CheckPolicyExists(event.id),
        ActionView::Sleep(timing.retry_delay),
        ActionView::FetchSharedKey(event.id, timing.shared_key_fetch_wait),
        ActionView::Finish(Err(SyncErrorView::SharedKey(world.fetch_failure))),
    ];
    assert(d.actions =~= expected);
    reveal_with_fuel(inserts, 5);
    let e1 = expected.drop_first();
    assert(e1 =~= seq![expected[1], expected[2], expected[3]]);
    let e2 = e1.drop_first();
    assert(e2 =~= seq![expected[2], expected[3]]);
    let e3 = e2.drop_first();
    assert(e3 =~= seq![expected[3]]);
    assert(e3.drop_first() =~= Seq::<ActionView<P>>::empty());
}

/// Once a delivery has stored the policy of an event, delivering the same
/// event again asks the store and nothing else.
pub proof fn redelivery_is_silent<P>(
    world: World<P>,
    cache: Map<Seq<char>, SharedKeyView>,
    event: PolicyEventView,
    timing: Timing,
)
    requires
        event.is_policy(),
        inserts(deliver(world, cache, event, timing).actions) == 1,
    ensures
        ({
            let first = deliver(world, cache, event, timing);
            let second = deliver(first.world, first.cache, event, timing);
            &&& second.actions == seq![
                ActionView::<P>::CheckPolicyExists(event.id),
                ActionView::Finish(Ok(())),
            ]
            &&& second.world == first.world
            &&& second.cache == first.cache
        }),
{
    let first = deliver(world, cache, event, timing);
    let start = begin::<P>(event, timing);
    begin_asks_what_it_awaits::<P>(event, timing);
    rest_of_delivery_is_bounded(world, start.0, cache, start.1);
    assert(first.world.policies.dom().contains(event.id));
    stored_policy_is_left_alone(first.world, first.cache, event, timing);
}

/// A handler after it was fed `replies` one by one, whether or not they
/// answer what it asked for, and the actions it asked for on the way.
pub struct Followed<P> {
    pub handler: HandlerView,
    pub cache: Map<Seq<char>, SharedKeyView>,
    pub actions: Seq<ActionView<P>>,
}

/// Feeds `replies` to `handler` one by one.
pub open spec fn follow<P>(
    handler: HandlerView,
    cache: Map<Seq<char>, SharedKeyView>,
    replies: Seq<ReplyView<P>>,
) -> Followed<P>
    decreases replies.len(),
{
    if replies.len() == 0 {
        Followed { handler, cache, actions: Seq::empty() }
    } else {
        let next = handler.step(cache, replies[0]);
        let rest = follow(next.handler, next.cache, replies.drop_first());
        Followed { actions: seq![next.action] + rest.actions, ..rest }
    }
}

/// No replies whatsoever, be they failures or out of turn, make a handler
/// fetch, decrypt or insert a second time, or fetch after the key came, or
/// insert after the store answered; and all they can do to the cache is to
/// put a key under the identifier of the handler's event.
pub proof fn replies_cannot_repeat_work<P>(
    handler: HandlerView,
    cache: Map<Seq<char>, SharedKeyView>,
    replies: Seq<ReplyView<P>>,
)
    ensures
        ({
            let f = follow(handler, cache, replies);
            &&& fetches(f.actions) <= if rank(handler.state) >= 6 {
                1nat
            } else {
                0nat
            }
            &&& decryptions(f.actions) <= if rank(handler.state) >= 4 {
                1nat
            } else {
                0nat
            }
            &&& inserts(f.actions) <= if rank(handler.state) >= 2 {
                1nat
            } else {
                0nat
            }
            &&& f.handler.event == handler.event
            &&& f.cache.remove(handler.event.id) == cache.remove(handler.event.id)
            &&& rank(handler.state) < 5 ==> f.cache == cache
        }),
    decreases replies.len(),
{
    if replies.len() == 0 {
        assert(fetches(Seq::<ActionView<P>>::empty()) == 0);
        assert(inserts(Seq::<ActionView<P>>::empty()) == 0);
        assert(decryptions(Seq::<ActionView<P>>::empty()) == 0);
    } else {
        let next = handler.step(cache, replies[0]);
        let rest = follow(next.handler, next.cache, replies.drop_first());
        replies_cannot_repeat_work(next.handler, next.cache, replies.drop_first());
        count_first(next.action, rest.actions);
        assert(next.cache.remove(handler.event.id) =~= cache.remove(handler.event.id));
    }
}

} // verus!
