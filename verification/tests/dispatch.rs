use entry_validation::address::{Address, Timestamp};
use entry_validation::chain_header::{ChainHeader, EntryWithMetaAndHeader, Provenance};
use entry_validation::dispatch::{
    callback_verdict, validate_entry, EntryValidation, ValidationAction, ValidationEvent,
    ValidatorCall,
};
use entry_validation::entry::{CrudStatus, Entry, EntryBody, EntryType, EntryWithMeta, Link};
use entry_validation::error::HolochainError;
use entry_validation::validation::{process_validation_err, ValidationContext, ValidationError};
use entry_validation::validation_data::{EntryValidationData, ValidationData, ValidationPackage};

fn post() -> Entry {
    Entry::app("post", "hi", "{\"App\":[\"post\",\"hi\"]}", Address::new("QmPostHi"))
}

fn entry_of(body: EntryBody, address: &str) -> Entry {
    Entry { address: Address::new(address), content: String::from("{}"), body }
}

fn header_for(entry: &Entry, seconds: i64, provenances: Vec<Provenance>) -> ChainHeader {
    ChainHeader {
        address: Address::new("QmHeader"),
        entry_type: entry.entry_type(),
        entry_address: entry.address.clone(),
        timestamp: Timestamp::new(seconds, 0),
        link: None,
        provenances,
    }
}

fn signed(agent: &str, signature: &str) -> Provenance {
    Provenance::new(Address::new(agent), signature)
}

fn data_for(header: ChainHeader) -> ValidationData {
    ValidationData { package: ValidationPackage::only_header(header), sources: vec![Address::new("alice")] }
}

fn old_post() -> EntryWithMetaAndHeader {
    let old = Entry::app("post", "old", "{\"App\":[\"post\",\"old\"]}", Address::new("QmOld"));
    let first = header_for(&old, 10, vec![]);
    let mut second = header_for(&old, 20, vec![]);
    second.address = Address::new("QmSecondHeader");
    EntryWithMetaAndHeader {
        entry_with_meta: EntryWithMeta {
            entry: old,
            crud_status: CrudStatus::Live,
            maybe_link_update_delete: None,
        },
        headers: vec![first, second],
    }
}

#[test]
fn happy_path_runs_the_rules_once_with_a_creation() {
    let entry = post();
    let data = data_for(header_for(&entry, 100, vec![signed("alice", "sig-a")]));
    let (state, action) = validate_entry(entry.clone(), None, data.clone(), ValidationContext::Authoring);
    assert_eq!(
        action,
        ValidationAction::Verify {
            agent: Address::new("alice"),
            payload: Address::new("QmHeader"),
            signature: String::from("sig-a"),
        }
    );
    let (state, action) = state.step(ValidationEvent::Verified(true));
    assert_eq!(state, EntryValidation::AwaitingValidator);
    assert_eq!(
        action,
        ValidationAction::Run(ValidatorCall::App(EntryValidationData::Create {
            entry: entry.clone(),
            validation_data: data.clone(),
        }))
    );
    let (state, action) = state.step(ValidationEvent::Validated(callback_verdict(Ok(()))));
    assert_eq!(state, EntryValidation::Finished);
    assert_eq!(action, ValidationAction::Done(Ok(())));
}

#[test]
fn wrong_address_is_rejected_before_anything_is_asked() {
    let entry = post();
    let mut header = header_for(&entry, 100, vec![signed("alice", "sig-a")]);
    header.entry_address = Address::new("QmBye");
    let (state, action) = validate_entry(entry, None, data_for(header), ValidationContext::Holding);
    assert_eq!(state, EntryValidation::Finished);
    assert_eq!(
        action,
        ValidationAction::Done(Err(ValidationError::Fail(String::from("header/entry mismatch"))))
    );
}

#[test]
fn wrong_address_is_rejected_whatever_the_kind_of_entry() {
    let bodies = vec![
        EntryBody::Dna,
        EntryBody::AgentId(String::from("bob"), String::from("HcSkey")),
        EntryBody::Deletion(Address::new("QmGone")),
        EntryBody::CapTokenGrant,
        EntryBody::ChainHeader,
        EntryBody::LinkList,
    ];
    for body in bodies {
        let entry = entry_of(body, "QmEntry");
        let mut header = header_for(&entry, 5, vec![]);
        header.entry_address = Address::new("QmOther");
        let (_, action) = validate_entry(entry, None, data_for(header), ValidationContext::Holding);
        assert_eq!(
            action,
            ValidationAction::Done(Err(ValidationError::Fail(String::from("header/entry mismatch"))))
        );
    }
}

#[test]
fn a_false_signature_rejects_the_entry() {
    let entry = post();
    let header = header_for(&entry, 100, vec![signed("alice", "sig-a"), signed("bob", "forged")]);
    let (state, _) = validate_entry(entry, None, data_for(header), ValidationContext::Holding);
    let (state, action) = state.step(ValidationEvent::Verified(true));
    assert_eq!(
        action,
        ValidationAction::Verify {
            agent: Address::new("bob"),
            payload: Address::new("QmHeader"),
            signature: String::from("forged"),
        }
    );
    let (state, action) = state.step(ValidationEvent::Verified(false));
    assert_eq!(state, EntryValidation::Finished);
    assert_eq!(
        action,
        ValidationAction::Done(Err(ValidationError::Fail(String::from("invalid provenance"))))
    );
}

#[test]
fn a_false_first_signature_rejects_without_asking_for_the_second() {
    let entry = post();
    let header = header_for(&entry, 100, vec![signed("alice", "forged"), signed("bob", "sig-b")]);
    let (state, _) = validate_entry(entry, None, data_for(header), ValidationContext::Holding);
    let (state, action) = state.step(ValidationEvent::Verified(false));
    assert_eq!(state, EntryValidation::Finished);
    assert_eq!(
        action,
        ValidationAction::Done(Err(ValidationError::Fail(String::from("invalid provenance"))))
    );
}

#[test]
fn headers_that_are_not_older_are_pruned_before_the_rules_run() {
    let entry = post();
    let header = header_for(&entry, 100, vec![]);
    let mut older = header_for(&entry, 99, vec![]);
    older.address = Address::new("QmOlder");
    let mut same = header_for(&entry, 100, vec![]);
    same.address = Address::new("QmSame");
    let mut newer = header_for(&entry, 101, vec![]);
    newer.address = Address::new("QmNewer");
    let mut just_older = header_for(&entry, 100, vec![]);
    just_older.timestamp = Timestamp::new(99, 999_999_999);
    just_older.address = Address::new("QmJustOlder");
    let mut data = data_for(header);
    data.package.source_chain_headers =
        Some(vec![newer, older.clone(), same, just_older.clone()]);
    let (_, action) = validate_entry(entry, None, data, ValidationContext::Authoring);
    match action {
        ValidationAction::Run(ValidatorCall::App(EntryValidationData::Create {
            validation_data,
            ..
        })) => {
            assert_eq!(validation_data.package.source_chain_headers, Some(vec![older, just_older]));
        }
        other => panic!("unexpected action {:?}", other),
    }
}

#[test]
fn modify_without_old_entry_fails_with_the_reason() {
    let entry = post();
    let data = data_for(header_for(&entry, 100, vec![signed("alice", "sig-a")]));
    let (state, _) =
        validate_entry(entry, Some(Address::new("QmOld")), data, ValidationContext::Holding);
    let (state, action) = state.step(ValidationEvent::Verified(true));
    assert_eq!(action, ValidationAction::Fetch(Address::new("QmOld")));
    let (state, action) =
        state.step(ValidationEvent::Fetched(Err(HolochainError::EntryNotFoundLocally)));
    assert_eq!(state, EntryValidation::Finished);
    assert_eq!(
        action,
        ValidationAction::Done(Err(ValidationError::Fail(String::from(
            "Could not find App Entry during validation: The requested entry could not be found locally"
        ))))
    );
}

#[test]
fn modify_with_nothing_found_fails_with_the_reason() {
    let entry = post();
    let data = data_for(header_for(&entry, 100, vec![]));
    let (state, action) =
        validate_entry(entry, Some(Address::new("QmOld")), data, ValidationContext::Holding);
    assert_eq!(action, ValidationAction::Fetch(Address::new("QmOld")));
    let (_, action) = state.step(ValidationEvent::Fetched(Ok(None)));
    assert_eq!(
        action,
        ValidationAction::Done(Err(ValidationError::Fail(String::from(
            "Could not find App Entry during validation: Could not get chain"
        ))))
    );
}

#[test]
fn modify_with_timeout_is_pending_for_the_workflow() {
    let entry = post();
    let data = data_for(header_for(&entry, 100, vec![]));
    let (state, _) = validate_entry(
        entry.clone(),
        Some(Address::new("QmOld")),
        data,
        ValidationContext::Holding,
    );
    let (state, action) =
        state.step(ValidationEvent::Fetched(Err(HolochainError::Timeout(String::from("5s")))));
    assert_eq!(state, EntryValidation::Finished);
    let error = ValidationError::Error(HolochainError::Timeout(String::from("5s")));
    assert_eq!(action, ValidationAction::Done(Err(error.clone())));
    let escalation = process_validation_err("hold_entry", error, &entry.address);
    assert_eq!(escalation.error, HolochainError::ValidationPending);
}

#[test]
fn modify_with_the_old_entry_runs_the_rules_with_a_modification() {
    let entry = post();
    let data = data_for(header_for(&entry, 100, vec![]));
    let (state, _) = validate_entry(
        entry.clone(),
        Some(Address::new("QmOld")),
        data.clone(),
        ValidationContext::Holding,
    );
    let found = old_post();
    let (state, action) = state.step(ValidationEvent::Fetched(Ok(Some(found.clone()))));
    assert_eq!(state, EntryValidation::AwaitingValidator);
    assert_eq!(
        action,
        ValidationAction::Run(ValidatorCall::App(EntryValidationData::Modify {
            new_entry: entry,
            old_entry: found.entry_with_meta.entry.clone(),
            old_entry_header: found.headers[1].clone(),
            validation_data: data,
        }))
    );
}

#[test]
fn the_rules_verdict_is_the_result() {
    let entry = post();
    let data = data_for(header_for(&entry, 100, vec![]));
    let (state, _) = validate_entry(entry, None, data, ValidationContext::Holding);
    let (state, action) =
        state.step(ValidationEvent::Validated(callback_verdict(Err(String::from("too long")))));
    assert_eq!(state, EntryValidation::Finished);
    assert_eq!(
        action,
        ValidationAction::Done(Err(ValidationError::Fail(String::from("too long"))))
    );
}

#[test]
fn entries_are_routed_by_their_kind() {
    let link = Link {
        base: Address::new("QmBase"),
        target: Address::new("QmTarget"),
        link_type: String::from("comments"),
        tag: String::from("t"),
    };
    let valid_as_they_are =
        vec![EntryBody::Dna, EntryBody::CapTokenGrant, EntryBody::ChainHeader];
    for body in valid_as_they_are {
        let entry = entry_of(body, "QmEntry");
        let data = data_for(header_for(&entry, 1, vec![]));
        let (state, action) = validate_entry(entry, None, data, ValidationContext::Holding);
        assert_eq!(state, EntryValidation::Finished);
        assert_eq!(action, ValidationAction::Done(Ok(())));
    }
    let without_rules =
        vec![EntryBody::CapTokenClaim, EntryBody::ChainMigrate, EntryBody::LinkList];
    for body in without_rules {
        let entry = entry_of(body, "QmEntry");
        let data = data_for(header_for(&entry, 1, vec![]));
        let (state, action) = validate_entry(entry, None, data, ValidationContext::Holding);
        assert_eq!(state, EntryValidation::Finished);
        assert_eq!(action, ValidationAction::Done(Err(ValidationError::NotImplemented)));
    }
    let links = vec![
        EntryBody::LinkAdd(link.clone()),
        EntryBody::LinkRemove(link.clone(), vec![Address::new("QmLinkEntry")]),
    ];
    for body in links {
        let entry = entry_of(body, "QmEntry");
        let data = data_for(header_for(&entry, 1, vec![]));
        let (state, action) =
            validate_entry(entry.clone(), None, data.clone(), ValidationContext::Holding);
        assert_eq!(state, EntryValidation::AwaitingValidator);
        assert_eq!(
            action,
            ValidationAction::Run(ValidatorCall::Link {
                entry,
                validation_data: data,
                context: ValidationContext::Holding,
            })
        );
    }
    let deletion = entry_of(EntryBody::Deletion(Address::new("QmGone")), "QmEntry");
    let data = data_for(header_for(&deletion, 1, vec![]));
    let (_, action) =
        validate_entry(deletion.clone(), None, data.clone(), ValidationContext::Authoring);
    assert_eq!(
        action,
        ValidationAction::Run(ValidatorCall::Remove { entry: deletion, validation_data: data })
    );
    let agent =
        entry_of(EntryBody::AgentId(String::from("bob"), String::from("HcSkey")), "QmEntry");
    let data = data_for(header_for(&agent, 1, vec![]));
    let (_, action) =
        validate_entry(agent.clone(), None, data.clone(), ValidationContext::Authoring);
    assert_eq!(
        action,
        ValidationAction::Run(ValidatorCall::Agent { entry: agent, validation_data: data })
    );
}

#[test]
fn an_event_that_was_not_asked_for_ends_the_validation() {
    let entry = post();
    let data = data_for(header_for(&entry, 100, vec![signed("alice", "sig-a")]));
    let (state, _) = validate_entry(entry, None, data, ValidationContext::Holding);
    let (state, action) = state.step(ValidationEvent::Validated(Ok(())));
    assert_eq!(state, EntryValidation::Finished);
    assert_eq!(
        action,
        ValidationAction::Done(Err(ValidationError::Error(HolochainError::ErrorGeneric(
            String::from("The event does not answer what the validation asked")
        ))))
    );
    let (state, action) = state.step(ValidationEvent::Verified(true));
    assert_eq!(state, EntryValidation::Finished);
    assert!(matches!(action, ValidationAction::Done(Err(ValidationError::Error(_)))));
}

#[test]
fn the_kind_of_an_entry_is_read_from_its_body() {
    assert_eq!(post().entry_type(), EntryType::App(String::from("post")));
    assert_eq!(entry_of(EntryBody::Dna, "a").entry_type(), EntryType::Dna);
    assert_eq!(
        entry_of(EntryBody::Deletion(Address::new("b")), "a").entry_type(),
        EntryType::Deletion
    );
}

#[test]
fn a_validation_that_is_driven_comes_to_its_end() {
    let entry = post();
    let provenances = vec![signed("alice", "a"), signed("bob", "b"), signed("carol", "c")];
    let data = data_for(header_for(&entry, 100, provenances));
    let (mut state, mut action) = validate_entry(
        entry,
        Some(Address::new("QmOld")),
        data,
        ValidationContext::Holding,
    );
    let mut asked = Vec::new();
    let mut steps = 0;
    let result = loop {
        let event = match action {
            ValidationAction::Verify { agent, .. } => {
                asked.push(agent.to_string());
                ValidationEvent::Verified(true)
            }
            ValidationAction::Fetch(_) => ValidationEvent::Fetched(Ok(Some(old_post()))),
            ValidationAction::Run(_) => ValidationEvent::Validated(Ok(())),
            ValidationAction::Done(result) => break result,
        };
        assert_ne!(state, EntryValidation::Finished);
        let next = state.step(event);
        state = next.0;
        action = next.1;
        steps += 1;
    };
    assert_eq!(result, Ok(()));
    assert_eq!(state, EntryValidation::Finished);
    assert_eq!(asked, vec!["alice", "bob", "carol"]);
    assert_eq!(steps, 5);
}
