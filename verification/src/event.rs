use vstd::prelude::*;

verus! {

/// The event kind reserved for spending policies.
pub const POLICY_KIND: u64 = 9289;

/// Identifier of an event, as the relays spell it.
#[derive(Debug, PartialEq, Eq)]
pub struct EventId {
    value: String,
}

impl View for EventId {
    type V = Seq<char>;

    closed spec fn view(&self) -> Seq<char> {
        self.value@
    }
}

impl EventId {
    pub fn new(value: String) -> (id: Self)
        ensures
            id@ == value@,
    {
        EventId { value }
    }

    pub fn as_str(&self) -> (text: &str)
        ensures
            text@ == self@,
    {
        self.value.as_str()
    }

    /// Whether two identifiers are spelled alike.
    pub fn same(&self, other: &EventId) -> (equal: bool)
        ensures
            equal == (self@ == other@),
    {
        self.value == other.value
    }
}

impl Clone for EventId {
    fn clone(&self) -> (copy: Self)
        ensures
            copy@ == self@,
    {
        EventId { value: self.value.clone() }
    }
}

/// Key material that opens the content of one policy event.
///
/// Both parts are lowercase hexadecimal; the secret part is absent where only
/// the public half of the pair is known.
#[derive(Debug, PartialEq, Eq)]
pub struct SharedKey {
    pub secret_key: Option<String>,
    pub public_key: String,
}

/// Mathematical value of a [`SharedKey`].
pub struct SharedKeyView {
    pub secret_key: Option<Seq<char>>,
    pub public_key: Seq<char>,
}

impl View for SharedKey {
    type V = SharedKeyView;

    open spec fn view(&self) -> SharedKeyView {
        SharedKeyView {
            secret_key: match self.secret_key {
                Some(secret) => Some(secret@),
                None => None,
            },
            public_key: self.public_key@,
        }
    }
}

impl Clone for SharedKey {
    fn clone(&self) -> (copy: Self)
        ensures
            copy@ == self@,
    {
        let secret_key = match &self.secret_key {
            Some(secret) => Some(secret.clone()),
            None => None,
        };
        SharedKey { secret_key, public_key: self.public_key.clone() }
    }
}

/// An inbound event: its identifier, its kind tag and its encrypted content.
#[derive(Debug, PartialEq, Eq)]
pub struct PolicyEvent {
    pub id: EventId,
    pub kind: u64,
    pub content: String,
}

/// Mathematical value of a [`PolicyEvent`].
pub struct PolicyEventView {
    pub id: Seq<char>,
    pub kind: u64,
    pub content: Seq<char>,
}

impl View for PolicyEvent {
    type V = PolicyEventView;

    open spec fn view(&self) -> PolicyEventView {
        PolicyEventView { id: self.id@, kind: self.kind, content: self.content@ }
    }
}

impl PolicyEventView {
    /// Whether the event carries a spending policy.
    pub open spec fn is_policy(self) -> bool {
        self.kind == POLICY_KIND
    }
}

impl Clone for PolicyEvent {
    fn clone(&self) -> (copy: Self)
        ensures
            copy@ == self@,
    {
        PolicyEvent { id: self.id.clone(), kind: self.kind, content: self.content.clone() }
    }
}

/// What the relays are asked for: events of one kind addressed to one
/// public key.
#[derive(Debug, PartialEq, Eq)]
pub struct SubscriptionFilter {
    pub kind: u64,
    pub recipient: String,
}

/// Mathematical value of a [`SubscriptionFilter`].
pub struct SubscriptionFilterView {
    pub kind: u64,
    pub recipient: Seq<char>,
}

impl View for SubscriptionFilter {
    type V = SubscriptionFilterView;

    open spec fn view(&self) -> SubscriptionFilterView {
        SubscriptionFilterView { kind: self.kind, recipient: self.recipient@ }
    }
}

} // verus!
