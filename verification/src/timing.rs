use vstd::prelude::*;

verus! {

/// The waits of the engine, in seconds.
#[derive(Debug, Clone, Copy, PartialEq, Eq, Structural)]
pub struct Timing {
    /// Pause between two rounds of wallet synchronisation.
    pub wallet_sync_interval: u64,
    /// Longest wait for the bulk prefetch of shared keys.
    pub shared_key_prefetch_wait: u64,
    /// Pause before a shared key is asked for by event.
    pub retry_delay: u64,
    /// Longest wait for the shared key of one event.
    pub shared_key_fetch_wait: u64,
}

impl Timing {
    /// The waits used unless configured otherwise.
    pub open spec fn standard() -> Timing {
        Timing {
            wallet_sync_interval: 60,
            shared_key_prefetch_wait: 60,
            retry_delay: 5,
            shared_key_fetch_wait: 30,
        }
    }
}

impl Default for Timing {
    fn default() -> (timing: Self)
        ensures
            timing == Timing::standard(),
    {
        Timing {
            wallet_sync_interval: 60,
            shared_key_prefetch_wait: 60,
            retry_delay: 5,
            shared_key_fetch_wait: 30,
        }
    }
}

} // verus!
