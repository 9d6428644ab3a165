use coinstr::network::Network;
use coinstr::open::{OpenCommand, OpenMessage, OpenState};

#[test]
fn screen_starts_on_the_test_network_with_nothing_chosen() {
    for state in [OpenState::new(), OpenState::default()] {
        assert_eq!(state.network(), Network::Testnet);
        assert!(state.keychains().is_empty());
        assert_eq!(state.name(), &None);
        assert_eq!(state.password(), "");
        assert_eq!(state.error(), &None);
    }
}

#[test]
fn load_asks_for_the_list_of_keychains() {
    let mut state = OpenState::new();
    assert_eq!(state.update(OpenMessage::LoadKeychains), OpenCommand::ListKeychains);
    state.keychains_listed(Ok(vec!["alice".to_string(), "bob".to_string()]));
    assert_eq!(state.keychains(), &vec!["alice".to_string(), "bob".to_string()]);
    assert_eq!(state.error(), &None);
}

#[test]
fn failed_listing_is_put_on_display() {
    let mut state = OpenState::new();
    state.keychains_listed(Ok(vec!["alice".to_string()]));
    state.keychains_listed(Err("permission denied".to_string()));
    assert_eq!(state.error(), &Some("permission denied".to_string()));
    assert_eq!(state.keychains(), &vec!["alice".to_string()]);
}

#[test]
fn selections_are_kept() {
    let mut state = OpenState::new();
    assert_eq!(state.update(OpenMessage::NetworkSelect(Network::Bitcoin)), OpenCommand::Nothing);
    assert_eq!(state.update(OpenMessage::KeychainSelect("alice".to_string())), OpenCommand::Nothing);
    assert_eq!(state.update(OpenMessage::PasswordChanged("hunter2".to_string())), OpenCommand::Nothing);
    assert_eq!(state.network(), Network::Bitcoin);
    assert_eq!(state.name(), &Some("alice".to_string()));
    assert_eq!(state.password(), "hunter2");
    assert_eq!(state.error(), &None);
}

#[test]
fn open_without_a_keychain_is_an_error_on_display() {
    let mut state = OpenState::new();
    state.update(OpenMessage::PasswordChanged("hunter2".to_string()));
    assert_eq!(state.update(OpenMessage::OpenButtonPressed), OpenCommand::Nothing);
    assert_eq!(state.error(), &Some("Please, select a keychain".to_string()));
}

#[test]
fn open_with_a_keychain_asks_to_open_it() {
    let mut state = OpenState::new();
    state.update(OpenMessage::KeychainSelect("alice".to_string()));
    state.update(OpenMessage::PasswordChanged("hunter2".to_string()));
    assert_eq!(
        state.update(OpenMessage::OpenButtonPressed),
        OpenCommand::OpenKeychain {
            name: "alice".to_string(),
            password: "hunter2".to_string(),
            network: Network::Testnet,
        }
    );
    assert_eq!(state.error(), &None);
    state.open_failed("wrong password".to_string());
    assert_eq!(state.error(), &Some("wrong password".to_string()));
    assert_eq!(state.name(), &Some("alice".to_string()));
}

#[test]
fn error_stays_until_replaced() {
    let mut state = OpenState::new();
    state.update(OpenMessage::OpenButtonPressed);
    state.update(OpenMessage::KeychainSelect("alice".to_string()));
    state.update(OpenMessage::OpenButtonPressed);
    assert_eq!(state.error(), &Some("Please, select a keychain".to_string()));
}

#[test]
fn placeholder_tells_whether_there_is_a_choice() {
    let mut state = OpenState::new();
    assert_eq!(state.placeholder(), "No keychain availabe");
    state.keychains_listed(Ok(vec!["alice".to_string()]));
    assert_eq!(state.placeholder(), "Select a keychain");
    state.keychains_listed(Ok(Vec::new()));
    assert_eq!(state.placeholder(), "No keychain availabe");
}

#[test]
fn messages_are_cloned_with_their_text() {
    for message in [
        OpenMessage::LoadKeychains,
        OpenMessage::NetworkSelect(Network::Signet),
        OpenMessage::KeychainSelect("a".to_string()),
        OpenMessage::PasswordChanged("b".to_string()),
        OpenMessage::OpenButtonPressed,
    ] {
        assert_eq!(message.clone(), message);
    }
}
