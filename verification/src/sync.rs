use crate::error::{SyncError, SyncErrorView};
use crate::ingest::{
    IngestAction, IngestActionView, IngestReply, IngestReplyView, IngestStateView, Ingestion,
    IngestionView, NotificationView,
};
use crate::network::{bitcoin_endpoint, endpoint_of, supported, Network};
use crate::timing::Timing;
use crate::wallet::{WalletAction, WalletReply, WalletState, WalletSync};
use vstd::prelude::*;

verus! {

/// A notification that fires once: it goes from not signaled to signaled
/// and never back.
#[derive(Debug)]
pub struct ShutdownSignal {
    signaled: bool,
}

impl View for ShutdownSignal {
    type V = bool;

    closed spec fn view(&self) -> bool {
        self.signaled
    }
}

impl ShutdownSignal {
    /// A signal that has not fired.
    pub fn new() -> (signal: Self)
        ensures
            !signal@,
    {
        ShutdownSignal { signaled: false }
    }

    /// Fires the signal.
    pub fn signal(&mut self)
        ensures
            final(self)@,
    {
        self.signaled = true;
    }

    /// Whether the signal has fired.
    pub fn is_signaled(&self) -> (signaled: bool)
        ensures
            signaled == self@,
    {
        self.signaled
    }
}

/// The synchronisation engine: the wallet synchronisation loop and the
/// event ingestion loop side by side, and the shutdown signal that ends
/// both.
pub struct CoinstrSync {
    endpoint: &'static str,
    wallet: WalletSync,
    ingestion: Ingestion,
    shutdown: ShutdownSignal,
}

/// Mathematical value of a [`CoinstrSync`].
pub struct EngineView {
    pub endpoint: Seq<char>,
    pub wallet: WalletSync,
    pub ingestion: IngestionView,
    pub shutdown: bool,
}

impl View for CoinstrSync {
    type V = EngineView;

    closed spec fn view(&self) -> EngineView {
        EngineView {
            endpoint: self.endpoint@,
            wallet: self.wallet,
            ingestion: self.ingestion@,
            shutdown: self.shutdown@,
        }
    }
}

/// A freshly started engine with the first action of each loop.
pub struct Started<P> {
    pub engine: CoinstrSync,
    pub wallet_action: WalletAction,
    pub ingest_action: IngestAction<P>,
}

impl EngineView {
    /// The engine right after its start on a supported network: both loops
    /// have taken their first step and the signal has not fired.
    pub open spec fn started(network: Network, recipient: Seq<char>, timing: Timing) -> EngineView {
        EngineView {
            endpoint: endpoint_of(network),
            wallet: WalletSync {
                state: WalletState::Loading,
                network,
                interval: timing.wallet_sync_interval,
            },
            ingestion: IngestionView::created(recipient, timing).at(IngestStateView::Prefetching),
            shutdown: false,
        }
    }

    /// Both loops are over.
    pub open spec fn halted(self) -> bool {
        self.wallet.state == WalletState::Aborted && self.ingestion.state is Stopped
    }

    /// The engine after the wallet loop was handed `reply`.
    pub open spec fn wallet_step(self, reply: WalletReply) -> (EngineView, WalletAction) {
        (EngineView { wallet: self.wallet.next(reply).0, ..self }, self.wallet.next(reply).1)
    }

    /// The engine after the ingestion loop was handed `reply`: where the
    /// loop leaves on a shutdown notification, the wallet loop is cancelled
    /// with it and the signal fires.
    pub open spec fn ingest_step<P>(self, reply: IngestReplyView<P>) -> (
        EngineView,
        IngestActionView<P>,
    ) {
        let next = self.ingestion.step(reply);
        if next.1 == (IngestActionView::<P>::Exit { abort_wallet_sync: true }) {
            (
                EngineView {
                    ingestion: next.0,
                    wallet: self.wallet.at(WalletState::Aborted),
                    shutdown: true,
                    ..self
                },
                next.1,
            )
        } else {
            (EngineView { ingestion: next.0, ..self }, next.1)
        }
    }

    /// The engine after it was stopped.
    pub open spec fn stopped(self) -> EngineView {
        EngineView {
            wallet: self.wallet.at(WalletState::Aborted),
            ingestion: self.ingestion.stopped(),
            shutdown: true,
            ..self
        }
    }
}

impl CoinstrSync {
    /// Starts the engine for `network` and for the events addressed to
    /// `recipient`.
    ///
    /// Fails, starting nothing, where no blockchain endpoint is known for
    /// the network.
    pub fn start<P>(network: Network, recipient: String, timing: Timing) -> (started: Result<
        Started<P>,
        SyncError,
    >)
        ensures
            supported(network) ==> (started matches Ok(s) && s.engine@ == EngineView::started(
                network,
                recipient@,
                timing,
            ) && s.wallet_action == WalletAction::LoadWallets(network) && s.ingest_action@
                == IngestActionView::<P>::PrefetchSharedKeys(timing.shared_key_prefetch_wait)),
            !supported(network) ==> (started matches Err(e) && e@
                == SyncErrorView::UnsupportedNetwork),
    {
        match bitcoin_endpoint(network) {
            Err(e) => Err(e),
            Ok(endpoint) => {
                let mut wallet = WalletSync::new(network, timing);
                let wallet_action = wallet.start();
                let mut ingestion = Ingestion::new(recipient, timing);
                let ingest_action = ingestion.start::<P>();
                let engine = CoinstrSync {
                    endpoint,
                    wallet,
                    ingestion,
                    shutdown: ShutdownSignal::new(),
                };
                Ok(Started { engine, wallet_action, ingest_action })
            },
        }
    }

    /// The blockchain endpoint that the wallets are synchronised against.
    pub fn endpoint(&self) -> (endpoint: &'static str)
        ensures
            endpoint@ == self@.endpoint,
    {
        self.endpoint
    }

    /// The wallet synchronisation loop.
    pub fn wallet(&self) -> (wallet: &WalletSync)
        ensures
            *wallet == self@.wallet,
    {
        &self.wallet
    }

    /// The event ingestion loop.
    pub fn ingestion(&self) -> (ingestion: &Ingestion)
        ensures
            ingestion@ == self@.ingestion,
    {
        &self.ingestion
    }

    /// Whether the shutdown signal has fired.
    pub fn is_shut_down(&self) -> (fired: bool)
        ensures
            fired == self@.shutdown,
    {
        self.shutdown.is_signaled()
    }

    /// Hands the outcome of its last action to the wallet loop.
    pub fn wallet_step(&mut self, reply: WalletReply) -> (action: WalletAction)
        ensures
            (final(self)@, action) == old(self)@.wallet_step(reply),
    {
        self.wallet.step(reply)
    }

    /// Hands the outcome of its last action to the ingestion loop.
    pub fn ingest_step<P>(&mut self, reply: IngestReply<P>) -> (action: IngestAction<P>)
        ensures
            (final(self)@, action@) == old(self)@.ingest_step(reply@),
    {
        let action = self.ingestion.step(reply);
        match &action {
            IngestAction::Exit { abort_wallet_sync } => {
                if *abort_wallet_sync {
                    self.wallet.abort();
                    self.shutdown.signal();
                }
            },
            _ => {},
        }
        action
    }

    /// Stops the engine: the signal fires and both loops are over.
    pub fn stop(&mut self)
        ensures
            final(self)@ == old(self)@.stopped(),
    {
        self.wallet.abort();
        self.ingestion.stop();
        self.shutdown.signal();
    }
}

/// A shutdown notification taken by the listening ingestion loop ends both
/// loops at once: the ingestion loop leaves, the wallet loop is cancelled
/// and the signal has fired.
pub proof fn shutdown_reaches_both_loops<P>(engine: EngineView)
    requires
        engine.ingestion.state is Listening,
    ensures
        engine.ingest_step(IngestReplyView::<P>::Notified(NotificationView::Shutdown)).1 == (
            IngestActionView::<P>::Exit { abort_wallet_sync: true }
        ),
        engine.ingest_step(IngestReplyView::<P>::Notified(NotificationView::Shutdown)).0.halted(),
        engine.ingest_step(IngestReplyView::<P>::Notified(NotificationView::Shutdown)).0.shutdown,
{
}

/// Stopping the engine ends both loops, whatever they were doing.
pub proof fn stop_halts(engine: EngineView)
    ensures
        engine.stopped().halted(),
        engine.stopped().shutdown,
{
}

/// Once both loops are over, no reply brings either back or has it ask for
/// anything: nothing more goes out to the network or to the store.
pub proof fn halted_engine_is_silent<P>(
    engine: EngineView,
    wallet_reply: WalletReply,
    ingest_reply: IngestReplyView<P>,
)
    requires
        engine.halted(),
    ensures
        engine.wallet_step(wallet_reply) == (engine, WalletAction::Idle),
        engine.ingest_step(ingest_reply) == (engine, IngestActionView::<P>::Idle),
{
}

/// The signal never goes back: whatever the engine is handed, a fired
/// signal stays fired.
pub proof fn signal_stays_fired<P>(
    engine: EngineView,
    wallet_reply: WalletReply,
    ingest_reply: IngestReplyView<P>,
)
    requires
        engine.shutdown,
    ensures
        engine.wallet_step(wallet_reply).0.shutdown,
        engine.ingest_step(ingest_reply).0.shutdown,
        engine.stopped().shutdown,
{
}

/// The signal fires only together with the end of both loops.
pub proof fn signal_fires_with_the_halt<P>(
    engine: EngineView,
    wallet_reply: WalletReply,
    ingest_reply: IngestReplyView<P>,
)
    requires
        engine.shutdown ==> engine.halted(),
    ensures
        engine.wallet_step(wallet_reply).0.shutdown ==> engine.wallet_step(wallet_reply).0.halted(),
        engine.ingest_step(ingest_reply).0.shutdown ==> engine.ingest_step(ingest_reply).0.halted(),
        engine.stopped().shutdown ==> engine.stopped().halted(),
{
}

} // verus!
