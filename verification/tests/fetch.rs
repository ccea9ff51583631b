use entry_validation::address::{Address, Timestamp};
use entry_validation::aspect::{add_aspects, contains_aspect, AspectBody, EntryAspect, FetchEntryData};
use entry_validation::chain_header::ChainHeader;
use entry_validation::entry::EntryType;
use entry_validation::error::HolochainError;
use entry_validation::fetch::{fetch_aspects_for_entry, handle_fetch_entry};
use entry_validation::log::LogLevel;
use entry_validation::network::NetworkAction;

fn header(address: &str) -> ChainHeader {
    ChainHeader {
        address: Address::new(address),
        entry_type: EntryType::App(String::from("post")),
        entry_address: Address::new("QmEntry"),
        timestamp: Timestamp::new(1, 0),
        link: None,
        provenances: vec![],
    }
}

fn aspect(address: &str) -> EntryAspect {
    EntryAspect { address: Address::new(address), body: AspectBody::Header(header(address)) }
}

fn addresses(aspects: &Vec<EntryAspect>) -> Vec<String> {
    aspects.iter().map(|a| a.address.to_string()).collect()
}

#[test]
fn partial_failure_keeps_what_was_read_and_logs_once() {
    let out = fetch_aspects_for_entry(
        &Address::new("QmEntry"),
        Ok(vec![aspect("c1"), aspect("c2")]),
        vec![Ok(vec![aspect("m1")]), Err(HolochainError::IoError(String::from("index gone")))],
    );
    assert_eq!(addresses(&out.aspects), vec!["c1", "c2", "m1"]);
    assert_eq!(out.log.len(), 1);
    assert_eq!(out.log[0].level, LogLevel::Error);
    assert_eq!(
        out.log[0].message,
        "net/handle_fetch_entry: Error getting meta aspects for entry (QmEntry), error: index gone"
    );
}

#[test]
fn a_failed_content_read_answers_with_nothing() {
    let out = fetch_aspects_for_entry(
        &Address::new("QmEntry"),
        Err(HolochainError::EntryNotFoundLocally),
        vec![Ok(vec![aspect("m1")])],
    );
    assert!(out.aspects.is_empty());
    assert_eq!(out.log.len(), 1);
    assert_eq!(out.log[0].level, LogLevel::Debug);
    assert_eq!(
        out.log[0].message,
        "net/handle_fetch_entry: Could not get content aspects of requested entry (QmEntry), error: The requested entry could not be found locally"
    );
}

#[test]
fn the_answer_is_the_union_with_every_address_once() {
    let out = fetch_aspects_for_entry(
        &Address::new("QmEntry"),
        Ok(vec![aspect("a"), aspect("b"), aspect("a")]),
        vec![Ok(vec![aspect("b"), aspect("c")]), Ok(vec![aspect("c"), aspect("d"), aspect("a")])],
    );
    assert_eq!(addresses(&out.aspects), vec!["a", "b", "c", "d"]);
    assert!(out.log.is_empty());
}

#[test]
fn both_meta_reads_may_fail() {
    let out = fetch_aspects_for_entry(
        &Address::new("QmEntry"),
        Ok(vec![aspect("a")]),
        vec![
            Err(HolochainError::IoError(String::from("first"))),
            Err(HolochainError::Timeout(String::from("2s"))),
        ],
    );
    assert_eq!(addresses(&out.aspects), vec!["a"]);
    assert_eq!(out.log.len(), 2);
    assert_eq!(
        out.log[1].message,
        "net/handle_fetch_entry: Error getting meta aspects for entry (QmEntry), error: timeout: 2s"
    );
}

#[test]
fn nothing_read_is_an_empty_answer_without_a_log() {
    let out = fetch_aspects_for_entry(&Address::new("QmEntry"), Ok(vec![]), vec![]);
    assert!(out.aspects.is_empty());
    assert!(out.log.is_empty());
}

#[test]
fn the_answer_ignores_the_aspects_that_the_request_names() {
    let request = FetchEntryData {
        space_address: Address::new("QmSpace"),
        entry_address: Address::new("QmEntry"),
        request_id: String::from("req-1"),
        provider_agent_id: Address::new("HcSagent"),
        aspect_address_list: Some(vec![Address::new("c1")]),
    };
    let (action, log) = handle_fetch_entry(
        request.clone(),
        Ok(vec![aspect("c1"), aspect("c2")]),
        vec![Ok(vec![aspect("m1")]), Ok(vec![])],
    );
    assert!(log.is_empty());
    match action {
        NetworkAction::RespondFetch(answered, aspects) => {
            assert_eq!(answered, request);
            assert_eq!(addresses(&aspects), vec!["c1", "c2", "m1"]);
        }
        other => panic!("unexpected action {:?}", other),
    }
}

#[test]
fn adding_keeps_the_first_aspect_of_an_address() {
    let mut held = vec![aspect("a")];
    let mut other = aspect("a");
    other.body = AspectBody::Deletion(header("del"));
    assert!(contains_aspect(&held, &other));
    assert!(!contains_aspect(&held, &aspect("b")));
    add_aspects(&mut held, vec![other, aspect("b")]);
    assert_eq!(held, vec![aspect("a"), aspect("b")]);
}
