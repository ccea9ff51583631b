use entry_validation::address::{Address, Timestamp};
use entry_validation::chain_header::{ChainHeader, EntryWithHeader};
use entry_validation::entry::Entry;
use entry_validation::pending::{
    PendingKey, PendingValidation, PendingValidationWithTimeout, PendingValidations,
    ValidatingWorkflow,
};

fn pending(address: &str, workflow: ValidatingWorkflow, attempt: u64) -> PendingValidation {
    let entry = Entry::app("post", address, "{}", Address::new(address));
    let header = ChainHeader {
        address: Address::new("QmHeader"),
        entry_type: entry.entry_type(),
        entry_address: entry.address.clone(),
        timestamp: Timestamp::new(1, 0),
        link: None,
        provenances: vec![],
    };
    PendingValidation {
        workflow,
        entry_with_header: EntryWithHeader { entry, header },
        dependencies: vec![Address::new("QmDependency")],
        attempt,
    }
}

fn with_timeout(p: PendingValidation, timeout: Option<u64>) -> PendingValidationWithTimeout {
    PendingValidationWithTimeout { pending: p, timeout }
}

fn key(address: &str, workflow: ValidatingWorkflow) -> PendingKey {
    PendingKey { address: Address::new(address), workflow }
}

#[test]
fn validations_wait_in_the_order_in_which_they_came() {
    let mut registry = PendingValidations::new();
    registry.enqueue(pending("b", ValidatingWorkflow::HoldEntry, 0), None);
    registry.enqueue(pending("a", ValidatingWorkflow::HoldEntry, 0), Some(50));
    registry.enqueue(pending("a", ValidatingWorkflow::HoldLink, 0), Some(10));
    assert_eq!(
        *registry.queued_holding_workflows(),
        vec![
            with_timeout(pending("b", ValidatingWorkflow::HoldEntry, 0), None),
            with_timeout(pending("a", ValidatingWorkflow::HoldEntry, 0), Some(50)),
            with_timeout(pending("a", ValidatingWorkflow::HoldLink, 0), Some(10)),
        ]
    );
    assert!(registry.in_process_holding_workflows().is_empty());
}

#[test]
fn queueing_twice_keeps_one_with_the_earliest_timeout() {
    let mut registry = PendingValidations::new();
    registry.enqueue(pending("a", ValidatingWorkflow::HoldEntry, 1), Some(50));
    registry.enqueue(pending("b", ValidatingWorkflow::HoldEntry, 1), None);
    registry.enqueue(pending("a", ValidatingWorkflow::HoldEntry, 2), Some(30));
    registry.enqueue(pending("a", ValidatingWorkflow::HoldEntry, 3), Some(40));
    registry.enqueue(pending("a", ValidatingWorkflow::HoldEntry, 4), None);
    registry.enqueue(pending("b", ValidatingWorkflow::HoldEntry, 2), Some(70));
    registry.enqueue(pending("b", ValidatingWorkflow::HoldEntry, 3), None);
    assert_eq!(
        *registry.queued_holding_workflows(),
        vec![
            with_timeout(pending("a", ValidatingWorkflow::HoldEntry, 1), Some(30)),
            with_timeout(pending("b", ValidatingWorkflow::HoldEntry, 1), Some(70)),
        ]
    );
}

#[test]
fn promoting_moves_a_validation_from_the_queue() {
    let mut registry = PendingValidations::new();
    registry.enqueue(pending("a", ValidatingWorkflow::HoldEntry, 0), Some(5));
    registry.enqueue(pending("b", ValidatingWorkflow::HoldEntry, 0), None);
    let promoted = registry.promote(&key("a", ValidatingWorkflow::HoldEntry)).cloned();
    assert_eq!(promoted, Some(pending("a", ValidatingWorkflow::HoldEntry, 0)));
    assert_eq!(
        *registry.queued_holding_workflows(),
        vec![with_timeout(pending("b", ValidatingWorkflow::HoldEntry, 0), None)]
    );
    assert_eq!(
        *registry.in_process_holding_workflows(),
        vec![with_timeout(pending("a", ValidatingWorkflow::HoldEntry, 0), Some(5))]
    );
    assert_eq!(registry.promote(&key("a", ValidatingWorkflow::HoldEntry)), None);
    assert_eq!(registry.promote(&key("b", ValidatingWorkflow::HoldLink)), None);
    assert_eq!(registry.queued_holding_workflows().len(), 1);
    assert_eq!(registry.in_process_holding_workflows().len(), 1);
}

#[test]
fn promoting_again_replaces_the_one_in_process() {
    let mut registry = PendingValidations::new();
    registry.enqueue(pending("a", ValidatingWorkflow::HoldEntry, 0), None);
    registry.promote(&key("a", ValidatingWorkflow::HoldEntry));
    registry.enqueue(pending("c", ValidatingWorkflow::HoldEntry, 0), None);
    registry.promote(&key("c", ValidatingWorkflow::HoldEntry));
    registry.enqueue(pending("a", ValidatingWorkflow::HoldEntry, 1), Some(9));
    let promoted = registry.promote(&key("a", ValidatingWorkflow::HoldEntry)).cloned();
    assert_eq!(promoted, Some(pending("a", ValidatingWorkflow::HoldEntry, 1)));
    assert_eq!(
        *registry.in_process_holding_workflows(),
        vec![
            with_timeout(pending("c", ValidatingWorkflow::HoldEntry, 0), None),
            with_timeout(pending("a", ValidatingWorkflow::HoldEntry, 1), Some(9)),
        ]
    );
}

#[test]
fn completing_takes_a_validation_out_of_process() {
    let mut registry = PendingValidations::new();
    registry.enqueue(pending("a", ValidatingWorkflow::HoldEntry, 0), None);
    registry.enqueue(pending("b", ValidatingWorkflow::HoldEntry, 0), None);
    registry.promote(&key("a", ValidatingWorkflow::HoldEntry));
    registry.complete(&key("b", ValidatingWorkflow::HoldEntry));
    assert_eq!(registry.queued_holding_workflows().len(), 1);
    assert_eq!(registry.in_process_holding_workflows().len(), 1);
    registry.complete(&key("a", ValidatingWorkflow::HoldEntry));
    assert!(registry.in_process_holding_workflows().is_empty());
    assert_eq!(
        *registry.queued_holding_workflows(),
        vec![with_timeout(pending("b", ValidatingWorkflow::HoldEntry, 0), None)]
    );
}

#[test]
fn expiring_gives_up_what_is_due_and_keeps_the_rest() {
    let mut registry = PendingValidations::new();
    registry.enqueue(pending("never", ValidatingWorkflow::HoldEntry, 0), None);
    registry.enqueue(pending("early", ValidatingWorkflow::HoldEntry, 0), Some(99));
    registry.enqueue(pending("now", ValidatingWorkflow::HoldEntry, 0), Some(100));
    registry.enqueue(pending("late", ValidatingWorkflow::HoldEntry, 0), Some(101));
    registry.enqueue(pending("running", ValidatingWorkflow::HoldLink, 0), Some(7));
    registry.enqueue(pending("running-late", ValidatingWorkflow::HoldLink, 0), Some(700));
    registry.promote(&key("running", ValidatingWorkflow::HoldLink));
    registry.promote(&key("running-late", ValidatingWorkflow::HoldLink));
    let given_up = registry.expire(100);
    assert_eq!(
        given_up,
        vec![
            pending("early", ValidatingWorkflow::HoldEntry, 0),
            pending("now", ValidatingWorkflow::HoldEntry, 0),
            pending("running", ValidatingWorkflow::HoldLink, 0),
        ]
    );
    assert_eq!(
        *registry.queued_holding_workflows(),
        vec![
            with_timeout(pending("never", ValidatingWorkflow::HoldEntry, 0), None),
            with_timeout(pending("late", ValidatingWorkflow::HoldEntry, 0), Some(101)),
        ]
    );
    assert_eq!(
        *registry.in_process_holding_workflows(),
        vec![with_timeout(pending("running-late", ValidatingWorkflow::HoldLink, 0), Some(700))]
    );
    assert!(registry.expire(100).is_empty());
    assert_eq!(registry.expire(u64::MAX).len(), 2);
    let (queue, running) = registry.into_parts();
    assert_eq!(queue.len(), 1);
    assert!(running.is_empty());
}
