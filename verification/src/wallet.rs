use crate::network::Network;
use crate::timing::Timing;
use vstd::prelude::*;

verus! {

/// Where the wallet synchronisation loop stands.
#[derive(Debug, Clone, Copy, PartialEq, Eq, Structural)]
pub enum WalletState {
    /// Not started.
    Idle,
    /// The wallets are being loaded, once.
    Loading,
    /// A round of synchronisation is running.
    Syncing,
    /// The pause between two rounds is running.
    Sleeping,
    /// The loop was cancelled.
    Aborted,
}

/// The outcome of the last action of the loop; `true` tells success.
#[derive(Debug, Clone, Copy, PartialEq, Eq, Structural)]
pub enum WalletReply {
    Loaded(bool),
    Synced(bool),
    Slept,
}

/// What the loop asks its driver to do next.
#[derive(Debug, Clone, Copy, PartialEq, Eq, Structural)]
pub enum WalletAction {
    /// Load the wallets of the network.
    LoadWallets(Network),
    /// Synchronise all wallets against the blockchain.
    SyncWallets,
    /// Pause for so many seconds.
    Sleep(u64),
    /// Nothing: the reply answered no outstanding action, or the loop is
    /// over.
    Idle,
}

/// The wallet synchronisation loop: one load, then rounds of
/// synchronisation a fixed pause apart, until cancelled. No failure of a
/// load or of a round ends it.
#[derive(Debug, Clone, Copy, PartialEq, Eq, Structural)]
pub struct WalletSync {
    pub state: WalletState,
    pub network: Network,
    pub interval: u64,
}

impl WalletSync {
    /// The loop in another state.
    pub open spec fn at(self, state: WalletState) -> WalletSync {
        WalletSync { state, ..self }
    }

    /// The loop once started, and its first action.
    pub open spec fn started(self) -> (WalletSync, WalletAction) {
        if self.state == WalletState::Idle {
            (self.at(WalletState::Loading), WalletAction::LoadWallets(self.network))
        } else {
            (self, WalletAction::Idle)
        }
    }

    /// The decision of the loop on one reply.
    pub open spec fn next(self, reply: WalletReply) -> (WalletSync, WalletAction) {
        match (self.state, reply) {
            (WalletState::Loading, WalletReply::Loaded(_)) => (
                self.at(WalletState::Syncing),
                WalletAction::SyncWallets,
            ),
            (WalletState::Syncing, WalletReply::Synced(_)) => (
                self.at(WalletState::Sleeping),
                WalletAction::Sleep(self.interval),
            ),
            (WalletState::Sleeping, WalletReply::Slept) => (
                self.at(WalletState::Syncing),
                WalletAction::SyncWallets,
            ),
            _ => (self, WalletAction::Idle),
        }
    }

    /// A loop for `network` that has not started yet.
    pub fn new(network: Network, timing: Timing) -> (wallet: Self)
        ensures
            wallet == (WalletSync {
                state: WalletState::Idle,
                network,
                interval: timing.wallet_sync_interval,
            }),
    {
        WalletSync { state: WalletState::Idle, network, interval: timing.wallet_sync_interval }
    }

    /// Starts the loop. Starting it a second time does nothing.
    pub fn start(&mut self) -> (action: WalletAction)
        ensures
            (*final(self), action) == old(self).started(),
    {
        match self.state {
            WalletState::Idle => {
                self.state = WalletState::Loading;
                WalletAction::LoadWallets(self.network)
            },
            _ => WalletAction::Idle,
        }
    }

    /// Decides on one reply.
    pub fn step(&mut self, reply: WalletReply) -> (action: WalletAction)
        ensures
            (*final(self), action) == old(self).next(reply),
    {
        match (self.state, reply) {
            (WalletState::Loading, WalletReply::Loaded(_)) => {
                self.state = WalletState::Syncing;
                WalletAction::SyncWallets
            },
            (WalletState::Syncing, WalletReply::Synced(_)) => {
                self.state = WalletState::Sleeping;
                WalletAction::Sleep(self.interval)
            },
            (WalletState::Sleeping, WalletReply::Slept) => {
                self.state = WalletState::Syncing;
                WalletAction::SyncWallets
            },
            _ => WalletAction::Idle,
        }
    }

    /// Cancels the loop for good.
    pub fn abort(&mut self)
        ensures
            *final(self) == old(self).at(WalletState::Aborted),
    {
        self.state = WalletState::Aborted;
    }

    /// Whether the loop was cancelled.
    pub fn is_aborted(&self) -> (aborted: bool)
        ensures
            aborted == (self.state == WalletState::Aborted),
    {
        match self.state {
            WalletState::Aborted => true,
            _ => false,
        }
    }
}

/// A failed load does not keep the loop from synchronising.
pub proof fn load_failure_is_not_fatal(wallet: WalletSync)
    requires
        wallet.state == WalletState::Loading,
    ensures
        wallet.next(WalletReply::Loaded(false)) == (
            wallet.at(WalletState::Syncing),
            WalletAction::SyncWallets,
        ),
{
}

/// Whether a round of synchronisation succeeds or fails, the loop pauses
/// for the configured interval and then synchronises again.
pub proof fn sync_failure_is_not_fatal(wallet: WalletSync, succeeded: bool)
    requires
        wallet.state == WalletState::Syncing,
    ensures
        wallet.next(WalletReply::Synced(succeeded)) == (
            wallet.at(WalletState::Sleeping),
            WalletAction::Sleep(wallet.interval),
        ),
        wallet.next(WalletReply::Synced(succeeded)).0.next(WalletReply::Slept) == (
            wallet,
            WalletAction::SyncWallets,
        ),
{
}

/// Only cancellation ends the loop: no reply moves it into the cancelled
/// state.
pub proof fn replies_never_abort(wallet: WalletSync, reply: WalletReply)
    requires
        wallet.state != WalletState::Aborted,
    ensures
        wallet.next(reply).0.state != WalletState::Aborted,
{
}

/// A cancelled loop stays cancelled and asks for nothing.
pub proof fn aborted_loop_is_silent(wallet: WalletSync, reply: WalletReply)
    requires
        wallet.state == WalletState::Aborted,
    ensures
        wallet.next(reply) == (wallet, WalletAction::Idle),
        wallet.started() == (wallet, WalletAction::Idle),
{
}

/// The loop after so many rounds of synchronisation, each followed by its
/// pause; `outcomes` tells which rounds succeeded.
pub open spec fn after_rounds(wallet: WalletSync, outcomes: Seq<bool>) -> WalletSync
    decreases outcomes.len(),
{
    if outcomes.len() == 0 {
        wallet
    } else {
        after_rounds(wallet, outcomes.drop_last()).next(WalletReply::Synced(outcomes.last())).0.next(
            WalletReply::Slept,
        ).0
    }
}

/// However many rounds fail, and whichever, the loop is ready for the next
/// one: it stands where it stood before the first.
pub proof fn rounds_never_end(wallet: WalletSync, outcomes: Seq<bool>)
    requires
        wallet.state == WalletState::Syncing,
    ensures
        after_rounds(wallet, outcomes) == wallet,
    decreases outcomes.len(),
{
    if outcomes.len() > 0 {
        rounds_never_end(wallet, outcomes.drop_last());
        sync_failure_is_not_fatal(wallet, outcomes.last());
    }
}

} // verus!
