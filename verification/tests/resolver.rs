use entry_validation::address::{Address, Timestamp};
use entry_validation::chain_header::ChainHeader;
use entry_validation::entry::EntryType;
use entry_validation::error::HolochainError;
use entry_validation::get_validation_package::{
    get_validation_package, request_validation_package, PackagePoll,
};
use entry_validation::network::{NetworkAction, NetworkState, PackageResults, ValidationKey};
use entry_validation::validation_data::ValidationPackage;

fn header() -> ChainHeader {
    ChainHeader {
        address: Address::new("QmHeader"),
        entry_type: EntryType::App(String::from("post")),
        entry_address: Address::new("QmEntry"),
        timestamp: Timestamp::new(1, 0),
        link: None,
        provenances: vec![],
    }
}

fn key(id: &str) -> ValidationKey {
    ValidationKey { address: Address::new("QmEntry"), id: String::from(id) }
}

fn initialized() -> NetworkState {
    let mut state = NetworkState::new();
    state.initialized = true;
    state
}

#[test]
fn two_requests_for_one_entry_have_distinct_keys() {
    let (first, first_action) = get_validation_package(header());
    let (second, second_action) = get_validation_package(header());
    assert_eq!(first.key.address, Address::new("QmEntry"));
    assert_eq!(second.key.address, Address::new("QmEntry"));
    assert_ne!(first.key.id, second.key.id);
    assert_ne!(first.key, second.key);
    assert_ne!(first.id, first.key.id);
    assert_ne!(first.id, second.id);
    assert!(first.key.id.starts_with("puid-"));
    assert_eq!(first_action, NetworkAction::GetValidationPackage(first.key.clone(), header()));
    assert_eq!(second_action, NetworkAction::GetValidationPackage(second.key.clone(), header()));
}

#[test]
fn a_request_is_named_by_the_entry_and_the_token() {
    let (future, action) =
        request_validation_package(header(), String::from("req-7"), String::from("waker-3"));
    assert_eq!(future.key, key("req-7"));
    assert_eq!(future.id, "waker-3");
    assert_eq!(action, NetworkAction::GetValidationPackage(key("req-7"), header()));
}

#[test]
fn two_requests_do_not_interfere() {
    let mut state = initialized();
    let (first, first_action) =
        request_validation_package(header(), String::from("a"), String::from("w1"));
    let (second, second_action) =
        request_validation_package(header(), String::from("b"), String::from("w2"));
    state.reduce(first_action);
    state.reduce(second_action);
    assert!(matches!(first.poll(true, Some(&state)), PackagePoll::Pending));
    assert!(matches!(second.poll(true, Some(&state)), PackagePoll::Pending));
    let package = ValidationPackage::only_header(header());
    state.reduce(NetworkAction::HandleGetValidationPackage(
        second.key.clone(),
        Ok(Some(package.clone())),
    ));
    assert!(matches!(first.poll(true, Some(&state)), PackagePoll::Pending));
    let clear = match second.poll(true, Some(&state)) {
        PackagePoll::Ready { result, clear } => {
            assert_eq!(*result, Ok(Some(package)));
            clear
        }
        other => panic!("unexpected poll {:?}", other),
    };
    assert_eq!(clear, NetworkAction::ClearValidationPackageResult(second.key.clone()));
    state.reduce(clear);
    assert_eq!(state.get_validation_package_results.get(&second.key), None);
    assert_eq!(state.get_validation_package_results.get(&first.key), Some(&None));
}

#[test]
fn the_slot_is_cleared_after_each_of_two_requests_in_a_row() {
    let mut state = initialized();
    for _ in 0..2 {
        let (future, action) = get_validation_package(header());
        state.reduce(action);
        assert_eq!(state.get_validation_package_results.get(&future.key), Some(&None));
        state.reduce(NetworkAction::HandleGetValidationPackage(future.key.clone(), Ok(None)));
        let clear = match future.poll(true, Some(&state)) {
            PackagePoll::Ready { result, clear } => {
                assert_eq!(*result, Ok(None));
                clear
            }
            other => panic!("unexpected poll {:?}", other),
        };
        state.reduce(clear);
        assert_eq!(state.get_validation_package_results.get(&future.key), None);
        assert!(state.get_validation_package_results.unanswered_addresses().is_empty());
    }
}

#[test]
fn a_closed_channel_fails_the_request_before_anything_else() {
    let mut state = initialized();
    let (future, action) =
        request_validation_package(header(), String::from("a"), String::from("w"));
    state.reduce(action);
    state.reduce(NetworkAction::HandleGetValidationPackage(future.key.clone(), Ok(None)));
    let poll = future.poll(false, Some(&state));
    assert!(matches!(poll, PackagePoll::ChannelClosed));
    assert!(!poll.registers_waker());
    assert!(!poll.unregisters_waker());
    assert!(poll.is_ready());
    assert!(matches!(future.poll(false, None), PackagePoll::ChannelClosed));
}

#[test]
fn an_uninitialized_network_fails_the_request() {
    let mut state = NetworkState::new();
    let (future, action) =
        request_validation_package(header(), String::from("a"), String::from("w"));
    state.reduce(action);
    state.reduce(NetworkAction::HandleGetValidationPackage(future.key.clone(), Ok(None)));
    let poll = future.poll(true, Some(&state));
    assert!(matches!(poll, PackagePoll::NetworkUninitialized));
    assert!(poll.registers_waker());
    assert!(poll.is_ready());
    assert_eq!(state.initialized(), Err(HolochainError::NetworkUninitialized));
    assert_eq!(initialized().initialized(), Ok(()));
}

#[test]
fn a_wake_up_without_an_answer_stays_pending() {
    let state = initialized();
    let (future, _) = request_validation_package(header(), String::from("a"), String::from("w"));
    let unread = future.poll(true, None);
    assert!(matches!(unread, PackagePoll::Pending));
    assert!(unread.registers_waker());
    assert!(!unread.is_ready());
    assert!(matches!(future.poll(true, Some(&state)), PackagePoll::Pending));
}

#[test]
fn an_error_that_came_back_is_handed_out() {
    let mut state = initialized();
    let (future, action) =
        request_validation_package(header(), String::from("a"), String::from("w"));
    state.reduce(action);
    state.reduce(NetworkAction::HandleGetValidationPackage(
        future.key.clone(),
        Err(HolochainError::Timeout(String::from("60s"))),
    ));
    match future.poll(true, Some(&state)) {
        PackagePoll::Ready { result, .. } => {
            assert_eq!(*result, Err(HolochainError::Timeout(String::from("60s"))));
        }
        other => panic!("unexpected poll {:?}", other),
    };
}

#[test]
fn the_table_of_requests_keeps_one_slot_for_a_key() {
    let mut table = PackageResults::new();
    assert_eq!(table.get(&key("a")), None);
    table.put(key("a"), None);
    table.put(key("b"), Some(Ok(None)));
    table.put(key("a"), Some(Err(HolochainError::ChannelClosed)));
    assert_eq!(table.get(&key("a")), Some(&Some(Err(HolochainError::ChannelClosed))));
    assert_eq!(table.get(&key("b")), Some(&Some(Ok(None))));
    table.put(key("c"), None);
    assert_eq!(table.unanswered_addresses(), vec![Address::new("QmEntry")]);
    table.clear(&key("a"));
    table.clear(&key("missing"));
    assert_eq!(table.get(&key("a")), None);
    assert_eq!(table.get(&key("b")), Some(&Some(Ok(None))));
    assert_eq!(table.get(&key("c")), Some(&None));
    assert!(key("a").same(&key("a")));
    assert!(!key("a").same(&key("b")));
}

#[test]
fn answering_a_fetch_changes_nothing_in_the_state() {
    let mut state = initialized();
    state.reduce(NetworkAction::GetValidationPackage(key("a"), header()));
    state.reduce(NetworkAction::RespondFetch(
        entry_validation::aspect::FetchEntryData {
            space_address: Address::new("s"),
            entry_address: Address::new("e"),
            request_id: String::from("r"),
            provider_agent_id: Address::new("p"),
            aspect_address_list: None,
        },
        vec![],
    ));
    assert!(state.initialized);
    assert_eq!(state.get_validation_package_results.get(&key("a")), Some(&None));
}
