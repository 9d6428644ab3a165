use crate::network::Network;
use vstd::prelude::*;

verus! {

/// Shown when the keychain is to be opened before one was selected.
pub const SELECT_KEYCHAIN: &'static str = "Please, select a keychain";

/// Placeholder of the keychain list while it is empty.
pub const NO_KEYCHAIN: &'static str = "No keychain availabe";

/// Placeholder of the keychain list while it has entries.
pub const PICK_KEYCHAIN: &'static str = "Select a keychain";

/// What can happen on the screen that opens a keychain.
#[derive(Debug, PartialEq, Eq)]
pub enum OpenMessage {
    LoadKeychains,
    NetworkSelect(Network),
    KeychainSelect(String),
    PasswordChanged(String),
    OpenButtonPressed,
}

/// Mathematical value of an [`OpenMessage`].
pub enum OpenMessageView {
    LoadKeychains,
    NetworkSelect(Network),
    KeychainSelect(Seq<char>),
    PasswordChanged(Seq<char>),
    OpenButtonPressed,
}

impl View for OpenMessage {
    type V = OpenMessageView;

    open spec fn view(&self) -> OpenMessageView {
        match *self {
            OpenMessage::LoadKeychains => OpenMessageView::LoadKeychains,
            OpenMessage::NetworkSelect(network) => OpenMessageView::NetworkSelect(network),
            OpenMessage::KeychainSelect(name) => OpenMessageView::KeychainSelect(name@),
            OpenMessage::PasswordChanged(password) => OpenMessageView::PasswordChanged(password@),
            OpenMessage::OpenButtonPressed => OpenMessageView::OpenButtonPressed,
        }
    }
}

impl Clone for OpenMessage {
    fn clone(&self) -> (copy: Self)
        ensures
            copy@ == self@,
    {
        match self {
            OpenMessage::LoadKeychains => OpenMessage::LoadKeychains,
            OpenMessage::NetworkSelect(network) => OpenMessage::NetworkSelect(*network),
            OpenMessage::KeychainSelect(name) => OpenMessage::KeychainSelect(name.clone()),
            OpenMessage::PasswordChanged(password) => OpenMessage::PasswordChanged(
                password.clone(),
            ),
            OpenMessage::OpenButtonPressed => OpenMessage::OpenButtonPressed,
        }
    }
}

/// What the screen asks its owner to do after a message.
#[derive(Debug, PartialEq, Eq)]
pub enum OpenCommand {
    /// Nothing.
    Nothing,
    /// List the keychains on disk and hand the outcome to
    /// [`OpenState::keychains_listed`].
    ListKeychains,
    /// Open the named keychain with the password, for the network; a failure
    /// goes to [`OpenState::open_failed`].
    OpenKeychain { name: String, password: String, network: Network },
}

/// Mathematical value of an [`OpenCommand`].
pub enum OpenCommandView {
    Nothing,
    ListKeychains,
    OpenKeychain { name: Seq<char>, password: Seq<char>, network: Network },
}

impl View for OpenCommand {
    type V = OpenCommandView;

    open spec fn view(&self) -> OpenCommandView {
        match *self {
            OpenCommand::Nothing => OpenCommandView::Nothing,
            OpenCommand::ListKeychains => OpenCommandView::ListKeychains,
            OpenCommand::OpenKeychain { name, password, network } => OpenCommandView::OpenKeychain {
                name: name@,
                password: password@,
                network,
            },
        }
    }
}

/// The state of the screen that opens a keychain.
#[derive(Debug)]
pub struct OpenState {
    network: Network,
    keychains: Vec<String>,
    name: Option<String>,
    password: String,
    error: Option<String>,
}

/// Mathematical value of an [`OpenState`].
pub struct OpenStateView {
    pub network: Network,
    pub keychains: Seq<Seq<char>>,
    pub name: Option<Seq<char>>,
    pub password: Seq<char>,
    pub error: Option<Seq<char>>,
}

/// The view of an optional text.
pub open spec fn text_view(text: Option<String>) -> Option<Seq<char>> {
    match text {
        Some(text) => Some(text@),
        None => None,
    }
}

impl View for OpenState {
    type V = OpenStateView;

    closed spec fn view(&self) -> OpenStateView {
        OpenStateView {
            network: self.network,
            keychains: self.keychains.deep_view(),
            name: text_view(self.name),
            password: self.password@,
            error: text_view(self.error),
        }
    }
}

impl OpenStateView {
    /// The screen as it first appears: the test network, no keychains, no
    /// selection, no password, no error.
    pub open spec fn initial() -> OpenStateView {
        OpenStateView {
            network: Network::Testnet,
            keychains: Seq::empty(),
            name: None,
            password: Seq::empty(),
            error: None,
        }
    }

    /// The screen after `message`.
    pub open spec fn updated(self, message: OpenMessageView) -> OpenStateView {
        match message {
            OpenMessageView::LoadKeychains => self,
            OpenMessageView::NetworkSelect(network) => OpenStateView { network, ..self },
            OpenMessageView::KeychainSelect(name) => OpenStateView { name: Some(name), ..self },
            OpenMessageView::PasswordChanged(password) => OpenStateView { password, ..self },
            OpenMessageView::OpenButtonPressed => match self.name {
                Some(_) => self,
                None => OpenStateView { error: Some(SELECT_KEYCHAIN@), ..self },
            },
        }
    }

    /// What the screen asks for after `message`.
    pub open spec fn command(self, message: OpenMessageView) -> OpenCommandView {
        match message {
            OpenMessageView::LoadKeychains => OpenCommandView::ListKeychains,
            OpenMessageView::OpenButtonPressed => match self.name {
                Some(name) => OpenCommandView::OpenKeychain {
                    name,
                    password: self.password,
                    network: self.network,
                },
                None => OpenCommandView::Nothing,
            },
            _ => OpenCommandView::Nothing,
        }
    }

    /// The screen after the keychains were listed, or could not be.
    pub open spec fn listed(self, found: Result<Seq<Seq<char>>, Seq<char>>) -> OpenStateView {
        match found {
            Ok(keychains) => OpenStateView { keychains, ..self },
            Err(message) => OpenStateView { error: Some(message), ..self },
        }
    }

    /// The placeholder of the keychain list.
    pub open spec fn placeholder(self) -> Seq<char> {
        if self.keychains.len() == 0 {
            NO_KEYCHAIN@
        } else {
            PICK_KEYCHAIN@
        }
    }
}

/// The view of the outcome of listing the keychains.
pub open spec fn found_view(found: Result<Vec<String>, String>) -> Result<Seq<Seq<char>>, Seq<char>> {
    match found {
        Ok(keychains) => Ok(keychains.deep_view()),
        Err(message) => Err(message@),
    }
}

impl Default for OpenState {
    fn default() -> (state: Self)
        ensures
            state@ == OpenStateView::initial(),
    {
        let state = Self {
            network: Network::Testnet,
            keychains: Vec::new(),
            name: None,
            password: String::new(),
            error: None,
        };
        assert(state.keychains.deep_view() =~= Seq::<Seq<char>>::empty());
        state
    }
}

impl OpenState {
    /// The screen as it first appears.
    pub fn new() -> (state: Self)
        ensures
            state@ == OpenStateView::initial(),
    {
        Self::default()
    }

    /// The selected network.
    pub fn network(&self) -> (network: Network)
        ensures
            network == self@.network,
    {
        self.network
    }

    /// The names of the keychains on offer.
    pub fn keychains(&self) -> (keychains: &Vec<String>)
        ensures
            keychains.deep_view() == self@.keychains,
    {
        &self.keychains
    }

    /// The name of the selected keychain.
    pub fn name(&self) -> (name: &Option<String>)
        ensures
            text_view(*name) == self@.name,
    {
        &self.name
    }

    /// The password typed so far.
    pub fn password(&self) -> (password: &str)
        ensures
            password@ == self@.password,
    {
        self.password.as_str()
    }

    /// The error on display.
    pub fn error(&self) -> (error: &Option<String>)
        ensures
            text_view(*error) == self@.error,
    {
        &self.error
    }

    /// The placeholder of the keychain list.
    pub fn placeholder(&self) -> (text: &'static str)
        ensures
            text@ == self@.placeholder(),
    {
        assert(self.keychains.deep_view().len() == self.keychains@.len());
        if self.keychains.is_empty() {
            NO_KEYCHAIN
        } else {
            PICK_KEYCHAIN
        }
    }

    /// Takes a message of the screen and tells what is to be done for it.
    ///
    /// Opening without a selected keychain is an error on display; nothing
    /// else here sets or clears the error.
    pub fn update(&mut self, message: OpenMessage) -> (command: OpenCommand)
        ensures
            final(self)@ == old(self)@.updated(message@),
            command@ == old(self)@.command(message@),
    {
        match message {
            OpenMessage::LoadKeychains => OpenCommand::ListKeychains,
            OpenMessage::NetworkSelect(network) => {
                self.network = network;
                OpenCommand::Nothing
            },
            OpenMessage::KeychainSelect(name) => {
                self.name = Some(name);
                OpenCommand::Nothing
            },
            OpenMessage::PasswordChanged(password) => {
                self.password = password;
                OpenCommand::Nothing
            },
            OpenMessage::OpenButtonPressed => {
                match &self.name {
                    Some(name) => OpenCommand::OpenKeychain {
                        name: name.clone(),
                        password: self.password.clone(),
                        network: self.network,
                    },
                    None => {
                        self.error = Some(SELECT_KEYCHAIN.to_owned());
                        OpenCommand::Nothing
                    },
                }
            },
        }
    }

    /// Takes the outcome of listing the keychains: the list replaces the
    /// one on offer, a failure is put on display.
    pub fn keychains_listed(&mut self, found: Result<Vec<String>, String>)
        ensures
            final(self)@ == old(self)@.listed(found_view(found)),
    {
        match found {
            Ok(keychains) => {
                self.keychains = keychains;
            },
            Err(message) => {
                self.error = Some(message);
            },
        }
    }

    /// Puts on display why the keychain could not be opened.
    pub fn open_failed(&mut self, message: String)
        ensures
            final(self)@ == (OpenStateView { error: Some(message@), ..old(self)@ }),
    {
        self.error = Some(message);
    }
}

} // verus!
