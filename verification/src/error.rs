use vstd::prelude::*;

verus! {

/// What can go wrong inside the synchronization engine.
///
/// Messages handed in by a collaborator (the policy store, the relay client,
/// the policy parser) are carried along unchanged.
#[derive(Debug, PartialEq, Eq)]
pub enum SyncError {
    /// No blockchain endpoint is known for the configured network.
    UnsupportedNetwork,
    /// The policy store failed to answer or to insert.
    Store(String),
    /// The targeted shared-key fetch failed or timed out.
    SharedKey(String),
    /// No shared key is cached for the event although one was just fetched.
    SharedKeyUnavailable,
    /// The shared key holds no secret part.
    MissingSecretKey,
    /// The encrypted content is not `<base64>?iv=<base64 of 16 bytes>`.
    InvalidContent,
    /// Authenticated decryption rejected the content.
    Decrypt,
    /// The decrypted content is no policy.
    Parse(String),
    /// A reply was handed in that answers no outstanding action.
    UnexpectedReply,
}

/// Mathematical value of an [`SyncError`].
pub enum SyncErrorView {
    UnsupportedNetwork,
    Store(Seq<char>),
    SharedKey(Seq<char>),
    SharedKeyUnavailable,
    MissingSecretKey,
    InvalidContent,
    Decrypt,
    Parse(Seq<char>),
    UnexpectedReply,
}

impl View for SyncError {
    type V = SyncErrorView;

    open spec fn view(&self) -> SyncErrorView {
        match *self {
            SyncError::UnsupportedNetwork => SyncErrorView::UnsupportedNetwork,
            SyncError::Store(message) => SyncErrorView::Store(message@),
            SyncError::SharedKey(message) => SyncErrorView::SharedKey(message@),
            SyncError::SharedKeyUnavailable => SyncErrorView::SharedKeyUnavailable,
            SyncError::MissingSecretKey => SyncErrorView::MissingSecretKey,
            SyncError::InvalidContent => SyncErrorView::InvalidContent,
            SyncError::Decrypt => SyncErrorView::Decrypt,
            SyncError::Parse(message) => SyncErrorView::Parse(message@),
            SyncError::UnexpectedReply => SyncErrorView::UnexpectedReply,
        }
    }
}

impl Clone for SyncError {
    fn clone(&self) -> (copy: Self)
        ensures
            copy@ == self@,
    {
        match self {
            SyncError::UnsupportedNetwork => SyncError::UnsupportedNetwork,
            SyncError::Store(message) => SyncError::Store(message.clone()),
            SyncError::SharedKey(message) => SyncError::SharedKey(message.clone()),
            SyncError::SharedKeyUnavailable => SyncError::SharedKeyUnavailable,
            SyncError::MissingSecretKey => SyncError::MissingSecretKey,
            SyncError::InvalidContent => SyncError::InvalidContent,
            SyncError::Decrypt => SyncError::Decrypt,
            SyncError::Parse(message) => SyncError::Parse(message.clone()),
            SyncError::UnexpectedReply => SyncError::UnexpectedReply,
        }
    }
}

} // verus!
