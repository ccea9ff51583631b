//! The validation of one entry, from the checks that every entry has to pass to the rules of
//! its kind.
//!
//! A validation needs work that this library cannot do: it asks the signing service whether a
//! signature is genuine, fetches an old entry from the table, and runs the rules of the
//! entry's kind. So it is written as a machine. `validate_entry` makes the first checks and
//! says what to do next; the caller does it and hands the outcome to `EntryValidation::step`,
//! which says what to do then, until the action is `Done`.

use crate::address::Address;
use crate::chain_header::EntryWithMetaAndHeader;
use crate::entry::{Entry, EntryType};
use crate::error::{ErrorView, HcResult, HolochainError};
use crate::preparation::{
    entry_to_validation_data, requested, resolved, PendingValidationData, PendingView,
    RequestView, ValidationDataRequest,
};
use crate::validation::{
    result_view, ValidationContext, ValidationError, ValidationErrorView, ValidationResult,
};
use crate::validation_data::{
    holds_only_older_headers, prune_source_chain_headers, pruned, pruned_holds_only_older_headers,
    DataView, EntryValidationData, EntryValidationView, ValidationData,
};
use vstd::prelude::*;
use vstd::string::*;

verus! {

/// The rules of one kind of entry, with what they are given.
#[derive(Clone, Debug, PartialEq, Eq)]
pub enum ValidatorCall {
    /// The rules that the application has for its own entries.
    App(EntryValidationData),
    /// The rules for adding and removing links.
    Link { entry: Entry, validation_data: ValidationData, context: ValidationContext },
    /// The rules for deletions.
    Remove { entry: Entry, validation_data: ValidationData },
    /// The rules for agent identities.
    Agent { entry: Entry, validation_data: ValidationData },
}

/// A `ValidatorCall`, with its validation data as a `DataView`.
pub enum CallView {
    App(EntryValidationView),
    Link { entry: Entry, validation_data: DataView, context: ValidationContext },
    Remove { entry: Entry, validation_data: DataView },
    Agent { entry: Entry, validation_data: DataView },
}

impl View for ValidatorCall {
    type V = CallView;

    open spec fn view(&self) -> CallView {
        match *self {
            ValidatorCall::App(data) => CallView::App(data@),
            ValidatorCall::Link { entry, validation_data, context } => CallView::Link {
                entry,
                validation_data: validation_data@,
                context,
            },
            ValidatorCall::Remove { entry, validation_data } => CallView::Remove {
                entry,
                validation_data: validation_data@,
            },
            ValidatorCall::Agent { entry, validation_data } => CallView::Agent {
                entry,
                validation_data: validation_data@,
            },
        }
    }
}

/// What the caller of a validation has to do next.
#[derive(Debug, PartialEq, Eq)]
pub enum ValidationAction {
    /// Ask the signing service whether `signature` is the signature of `agent` under
    /// `payload`, and answer with `ValidationEvent::Verified`.
    Verify { agent: Address, payload: Address, signature: String },
    /// Fetch the entry at the address with its headers, and answer with
    /// `ValidationEvent::Fetched`.
    Fetch(Address),
    /// Run the rules, and answer with `ValidationEvent::Validated`.
    Run(ValidatorCall),
    /// Nothing: the validation has ended with this result.
    Done(ValidationResult),
}

/// What a `ValidationAction` says.
pub enum ActionView {
    Verify { agent: Address, payload: Address, signature: String },
    Fetch(Address),
    Run(CallView),
    Done(Result<(), ValidationErrorView>),
}

impl View for ValidationAction {
    type V = ActionView;

    open spec fn view(&self) -> ActionView {
        match *self {
            ValidationAction::Verify { agent, payload, signature } => ActionView::Verify {
                agent,
                payload,
                signature,
            },
            ValidationAction::Fetch(address) => ActionView::Fetch(address),
            ValidationAction::Run(call) => ActionView::Run(call@),
            ValidationAction::Done(result) => ActionView::Done(result_view(result)),
        }
    }
}

/// The outcome of an action, handed back to the validation.
#[derive(Debug, PartialEq, Eq)]
pub enum ValidationEvent {
    /// The signing service has answered: whether the signature is genuine.
    Verified(bool),
    /// The fetch has ended: with the entry and its headers, with nothing, or with an error.
    Fetched(HcResult<Option<EntryWithMetaAndHeader>>),
    /// The rules have run: with their verdict.
    Validated(ValidationResult),
}

/// A validation in progress: what it waits for, and what it keeps until then.
#[derive(Clone, Debug, PartialEq, Eq)]
pub enum EntryValidation {
    /// Waits for the signing service's answer on the provenance at `index` of the header.
    CheckingProvenance {
        entry: Entry,
        link: Option<Address>,
        validation_data: ValidationData,
        context: ValidationContext,
        index: usize,
    },
    /// Waits for the old entry that the entry replaces.
    AwaitingOldEntry { pending: PendingValidationData },
    /// Waits for the verdict of the rules.
    AwaitingValidator,
    /// Waits for nothing: the validation has ended.
    Finished,
}

/// An `EntryValidation`, with its validation data as a `DataView`.
pub enum StateView {
    CheckingProvenance {
        entry: Entry,
        link: Option<Address>,
        validation_data: DataView,
        context: ValidationContext,
        index: int,
    },
    AwaitingOldEntry { pending: PendingView },
    AwaitingValidator,
    Finished,
}

impl View for EntryValidation {
    type V = StateView;

    open spec fn view(&self) -> StateView {
        match *self {
            EntryValidation::CheckingProvenance {
                entry,
                link,
                validation_data,
                context,
                index,
            } => StateView::CheckingProvenance {
                entry,
                link,
                validation_data: validation_data@,
                context,
                index: index as int,
            },
            EntryValidation::AwaitingOldEntry { pending } => StateView::AwaitingOldEntry {
                pending: pending@,
            },
            EntryValidation::AwaitingValidator => StateView::AwaitingValidator,
            EntryValidation::Finished => StateView::Finished,
        }
    }
}

/// The end of a validation with the verdict that the entry is invalid for `reason`.
pub open spec fn rejected(reason: Seq<char>) -> (StateView, ActionView) {
    (StateView::Finished, ActionView::Done(Err(ValidationErrorView::Fail(reason))))
}

/// Where an entry that has passed the checks of every entry goes, by its kind.
///
/// - The DNA, a capability grant and a chain header are valid as they are.
/// - An application entry goes to the rules of the application: as a creation if it replaces
///   no entry, else as a modification, for which the old entry is fetched first.
/// - A link that is added or removed goes to the rules for links, a deletion to the rules for
///   deletions, an agent's identity to the rules for agents.
/// - For every other kind there are no rules.
pub open spec fn routed(
    entry: Entry,
    link: Option<Address>,
    data: DataView,
    context: ValidationContext,
) -> (StateView, ActionView) {
    match entry.spec_entry_type() {
        EntryType::Dna => (StateView::Finished, ActionView::Done(Ok(()))),
        EntryType::App(_) => match requested(entry, link, data) {
            RequestView::Fetch { address, pending } => (
                StateView::AwaitingOldEntry { pending },
                ActionView::Fetch(address),
            ),
            RequestView::Ready(Ok(prepared)) => (
                StateView::AwaitingValidator,
                ActionView::Run(CallView::App(prepared)),
            ),
            RequestView::Ready(Err(e)) => (StateView::Finished, ActionView::Done(Err(e))),
        },
        EntryType::LinkAdd => (
            StateView::AwaitingValidator,
            ActionView::Run(CallView::Link { entry, validation_data: data, context }),
        ),
        EntryType::LinkRemove => (
            StateView::AwaitingValidator,
            ActionView::Run(CallView::Link { entry, validation_data: data, context }),
        ),
        EntryType::Deletion => (
            StateView::AwaitingValidator,
            ActionView::Run(CallView::Remove { entry, validation_data: data }),
        ),
        EntryType::CapTokenGrant => (StateView::Finished, ActionView::Done(Ok(()))),
        EntryType::AgentId => (
            StateView::AwaitingValidator,
            ActionView::Run(CallView::Agent { entry, validation_data: data }),
        ),
        EntryType::ChainHeader => (StateView::Finished, ActionView::Done(Ok(()))),
        _ => (StateView::Finished, ActionView::Done(Err(ValidationErrorView::NotImplemented))),
    }
}

/// What follows when the provenances before `index` are known to be genuine: the check of the
/// provenance at `index`, against the address of the header; or, where there is none left, the
/// rules of the entry's kind.
pub open spec fn checked_from(
    entry: Entry,
    link: Option<Address>,
    data: DataView,
    context: ValidationContext,
    index: int,
) -> (StateView, ActionView) {
    let header = data.package.chain_header;
    if 0 <= index < header.provenances@.len() {
        (
            StateView::CheckingProvenance { entry, link, validation_data: data, context, index },
            ActionView::Verify {
                agent: header.provenances@[index].source,
                payload: header.address,
                signature: header.provenances@[index].signature,
            },
        )
    } else {
        routed(entry, link, data, context)
    }
}

/// How the validation of `entry` begins.
///
/// First the validation data is pruned. Then the address of the entry is held against the one
/// that the header claims: if they differ, the entry is rejected at once. Else the
/// provenances are checked, the first one first.
pub open spec fn started(
    entry: Entry,
    link: Option<Address>,
    data: DataView,
    context: ValidationContext,
) -> (StateView, ActionView) {
    if entry.address@ != data.package.chain_header.entry_address@ {
        rejected("header/entry mismatch"@)
    } else {
        checked_from(entry, link, pruned(data), context, 0)
    }
}

/// What an event that the validation did not wait for comes to: the validation ends with an
/// error.
pub open spec fn misfit() -> (StateView, ActionView) {
    (
        StateView::Finished,
        ActionView::Done(
            Err(
                ValidationErrorView::Error(
                    ErrorView::ErrorGeneric("The event does not answer what the validation asked"@),
                ),
            ),
        ),
    )
}

/// How a validation in the state `state` goes on when `event` comes in.
///
/// - A signature that is not genuine rejects the entry. A genuine one leads to the next
///   provenance, or to the rules of the entry's kind.
/// - The old entry, once fetched, completes the data for the rules of the application; a
///   failed fetch ends the validation.
/// - The verdict of the rules is the result of the validation.
pub open spec fn stepped(state: StateView, event: ValidationEvent) -> (StateView, ActionView) {
    match (state, event) {
        (
            StateView::CheckingProvenance { entry, link, validation_data, context, index },
            ValidationEvent::Verified(genuine),
        ) => if genuine {
            checked_from(entry, link, validation_data, context, index + 1)
        } else {
            rejected("invalid provenance"@)
        },
        (StateView::AwaitingOldEntry { pending }, ValidationEvent::Fetched(fetched)) => match resolved(
            pending,
            fetched,
        ) {
            Ok(prepared) => (
                StateView::AwaitingValidator,
                ActionView::Run(CallView::App(prepared)),
            ),
            Err(e) => (StateView::Finished, ActionView::Done(Err(e))),
        },
        (StateView::AwaitingValidator, ValidationEvent::Validated(result)) => (
            StateView::Finished,
            ActionView::Done(result_view(result)),
        ),
        _ => misfit(),
    }
}

/// The validation data that a validation in the state `state` keeps, if it keeps any.
pub open spec fn data_in_state(state: StateView) -> Option<DataView> {
    match state {
        StateView::CheckingProvenance { validation_data, .. } => Some(validation_data),
        StateView::AwaitingOldEntry { pending } => Some(pending.validation_data),
        _ => None,
    }
}

/// The validation data that `action` hands to the rules, if it hands them any.
pub open spec fn data_in_action(action: ActionView) -> Option<DataView> {
    match action {
        ActionView::Run(CallView::App(EntryValidationView::Create { validation_data, .. })) => Some(
            validation_data,
        ),
        ActionView::Run(CallView::App(EntryValidationView::Modify { validation_data, .. })) => Some(
            validation_data,
        ),
        ActionView::Run(CallView::App(EntryValidationView::Delete { validation_data, .. })) => Some(
            validation_data,
        ),
        ActionView::Run(CallView::Link { validation_data, .. }) => Some(validation_data),
        ActionView::Run(CallView::Remove { validation_data, .. }) => Some(validation_data),
        ActionView::Run(CallView::Agent { validation_data, .. }) => Some(validation_data),
        _ => None,
    }
}

/// Whether the validation data in `state` and in `action`, where there is any, holds only
/// source chain headers that were signed strictly before the header of the entry.
pub open spec fn only_older_headers_in(state: StateView, action: ActionView) -> bool {
    &&& data_in_state(state) matches Some(d) ==> holds_only_older_headers(d)
    &&& data_in_action(action) matches Some(d) ==> holds_only_older_headers(d)
}

/// Whatever validation data a validation keeps or hands to the rules when it begins is the
/// data that it was given, pruned; so it holds only source chain headers that were signed
/// strictly before the header of the entry.
pub proof fn validation_begins_with_pruned_data(
    entry: Entry,
    link: Option<Address>,
    data: DataView,
    context: ValidationContext,
)
    ensures
        data_in_state(started(entry, link, data, context).0) matches Some(d) ==> d == pruned(data),
        data_in_action(started(entry, link, data, context).1) matches Some(d) ==> d == pruned(
            data,
        ),
        only_older_headers_in(
            started(entry, link, data, context).0,
            started(entry, link, data, context).1,
        ),
{
    pruned_holds_only_older_headers(data);
}

/// A step of a validation changes nothing in the validation data: what the validation keeps
/// or hands to the rules after the step is what it kept before. So the data still holds only
/// source chain headers that were signed strictly before the header of the entry, if it did
/// before.
pub proof fn validation_step_keeps_data(state: StateView, event: ValidationEvent)
    ensures
        data_in_state(stepped(state, event).0) matches Some(d) ==> data_in_state(state) == Some(d),
        data_in_action(stepped(state, event).1) matches Some(d) ==> data_in_state(state) == Some(
            d,
        ),
        (data_in_state(state) matches Some(d) ==> holds_only_older_headers(d))
            ==> only_older_headers_in(stepped(state, event).0, stepped(state, event).1),
{
}

/// How many steps a validation in the state `state` can still take at most.
pub open spec fn steps_left(state: StateView) -> nat {
    match state {
        StateView::CheckingProvenance { validation_data, index, .. } => {
            let provenances = validation_data.package.chain_header.provenances@.len();
            if index < provenances {
                (provenances - index + 2) as nat
            } else {
                3
            }
        },
        StateView::AwaitingOldEntry { .. } => 2,
        StateView::AwaitingValidator => 1,
        StateView::Finished => 0,
    }
}

/// A validation ends: every step of a validation that has not ended brings the end nearer.
/// And a validation has ended exactly when its action is `Done`, at the beginning as after
/// every step.
pub proof fn every_step_brings_the_end_nearer(
    entry: Entry,
    link: Option<Address>,
    data: DataView,
    context: ValidationContext,
    state: StateView,
    event: ValidationEvent,
)
    ensures
        started(entry, link, data, context).0 is Finished <==> started(
            entry,
            link,
            data,
            context,
        ).1 is Done,
        stepped(state, event).0 is Finished <==> stepped(state, event).1 is Done,
        !(state is Finished) ==> steps_left(stepped(state, event).0) < steps_left(state),
{
}

/// Whether every answer in `verdicts` says that the signature is genuine.
pub open spec fn all_genuine(verdicts: Seq<bool>) -> bool {
    forall|i: int| 0 <= i < verdicts.len() ==> verdicts[i]
}

/// Where a validation that began in `start` stands after the signing service has answered
/// with `verdicts`, one answer for each provenance that the validation asked about. Answers
/// that come after the validation has stopped asking are not looked at.
pub open spec fn after_verdicts(start: (StateView, ActionView), verdicts: Seq<bool>) -> (
    StateView,
    ActionView,
)
    decreases verdicts.len(),
{
    if verdicts.len() == 0 {
        start
    } else {
        let before = after_verdicts(start, verdicts.drop_last());
        if before.0 is CheckingProvenance {
            stepped(before.0, ValidationEvent::Verified(verdicts.last()))
        } else {
            before
        }
    }
}

proof fn lemma_after_first_verdicts(
    entry: Entry,
    link: Option<Address>,
    data: DataView,
    context: ValidationContext,
    verdicts: Seq<bool>,
    k: int,
)
    requires
        0 <= k <= verdicts.len(),
        verdicts.len() == data.package.chain_header.provenances@.len(),
    ensures
        after_verdicts(checked_from(entry, link, data, context, 0), verdicts.take(k)) == if all_genuine(
            verdicts.take(k),
        ) {
            checked_from(entry, link, data, context, k)
        } else {
            rejected("invalid provenance"@)
        },
    decreases k,
{
    let start = checked_from(entry, link, data, context, 0);
    if k > 0 {
        let now = verdicts.take(k);
        let earlier = verdicts.take(k - 1);
        lemma_after_first_verdicts(entry, link, data, context, verdicts, k - 1);
        assert(now.drop_last() =~= earlier);
        assert(now.last() == verdicts[k - 1]);
        if all_genuine(earlier) {
            if verdicts[k - 1] {
                assert forall|i: int| 0 <= i < now.len() implies now[i] by {
                    if i < k - 1 {
                        assert(earlier[i]);
                    }
                }
            } else {
                assert(!now[k - 1]);
            }
        } else {
            let i = choose|i: int| 0 <= i < earlier.len() && !earlier[i];
            assert(!now[i]);
        }
    }
}

proof fn lemma_answers_after_the_end(start: (StateView, ActionView), verdicts: Seq<bool>)
    requires
        !(start.0 is CheckingProvenance),
    ensures
        after_verdicts(start, verdicts) == start,
    decreases verdicts.len(),
{
    if verdicts.len() > 0 {
        lemma_answers_after_the_end(start, verdicts.drop_last());
    }
}

/// An entry whose header carries a signature that is not genuine is rejected.
///
/// Let the signing service answer for the provenances of the header with `verdicts`, one
/// answer for each. If the address of the entry is not the one that its header claims, the
/// entry is rejected for that, whatever the answers. Else, if one of the answers is that the
/// signature is not genuine, the entry is rejected for its provenance. Only if all are
/// genuine the validation goes on to the rules of the entry's kind.
pub proof fn provenances_decide(
    entry: Entry,
    link: Option<Address>,
    data: DataView,
    context: ValidationContext,
    verdicts: Seq<bool>,
)
    requires
        verdicts.len() == data.package.chain_header.provenances@.len(),
    ensures
        !all_genuine(verdicts) ==> after_verdicts(
            started(entry, link, data, context),
            verdicts,
        ).1 matches ActionView::Done(Err(ValidationErrorView::Fail(_))),
        entry.address@ != data.package.chain_header.entry_address@ ==> after_verdicts(
            started(entry, link, data, context),
            verdicts,
        ) == rejected("header/entry mismatch"@),
        entry.address@ == data.package.chain_header.entry_address@ && !all_genuine(verdicts)
            ==> after_verdicts(started(entry, link, data, context), verdicts) == rejected(
            "invalid provenance"@,
        ),
        entry.address@ == data.package.chain_header.entry_address@ && all_genuine(verdicts)
            ==> after_verdicts(started(entry, link, data, context), verdicts) == routed(
            entry,
            link,
            pruned(data),
            context,
        ),
{
    if entry.address@ != data.package.chain_header.entry_address@ {
        lemma_answers_after_the_end(started(entry, link, data, context), verdicts);
    } else {
        lemma_after_first_verdicts(
            entry,
            link,
            pruned(data),
            context,
            verdicts,
            verdicts.len() as int,
        );
        assert(verdicts.take(verdicts.len() as int) =~= verdicts);
    }
}

fn reject(reason: &str) -> (r: (EntryValidation, ValidationAction))
    ensures
        (r.0@, r.1@) == rejected(reason@),
{
    (
        EntryValidation::Finished,
        ValidationAction::Done(Err(ValidationError::Fail(String::from_str(reason)))),
    )
}

fn route(
    entry: Entry,
    link: Option<Address>,
    validation_data: ValidationData,
    context: ValidationContext,
) -> (r: (EntryValidation, ValidationAction))
    ensures
        (r.0@, r.1@) == routed(entry, link, validation_data@, context),
{
    match entry.entry_type() {
        EntryType::Dna => (EntryValidation::Finished, ValidationAction::Done(Ok(()))),
        EntryType::App(_) => match entry_to_validation_data(entry, link, validation_data) {
            ValidationDataRequest::Fetch { address, pending } => (
                EntryValidation::AwaitingOldEntry { pending },
                ValidationAction::Fetch(address),
            ),
            ValidationDataRequest::Ready(Ok(prepared)) => (
                EntryValidation::AwaitingValidator,
                ValidationAction::Run(ValidatorCall::App(prepared)),
            ),
            ValidationDataRequest::Ready(Err(e)) => (
                EntryValidation::Finished,
                ValidationAction::Done(Err(e)),
            ),
        },
        EntryType::LinkAdd => (
            EntryValidation::AwaitingValidator,
            ValidationAction::Run(ValidatorCall::Link { entry, validation_data, context }),
        ),
        EntryType::LinkRemove => (
            EntryValidation::AwaitingValidator,
            ValidationAction::Run(ValidatorCall::Link { entry, validation_data, context }),
        ),
        EntryType::Deletion => (
            EntryValidation::AwaitingValidator,
            ValidationAction::Run(ValidatorCall::Remove { entry, validation_data }),
        ),
        EntryType::CapTokenGrant => (EntryValidation::Finished, ValidationAction::Done(Ok(()))),
        EntryType::AgentId => (
            EntryValidation::AwaitingValidator,
            ValidationAction::Run(ValidatorCall::Agent { entry, validation_data }),
        ),
        EntryType::ChainHeader => (EntryValidation::Finished, ValidationAction::Done(Ok(()))),
        _ => (EntryValidation::Finished, ValidationAction::Done(Err(ValidationError::NotImplemented))),
    }
}

fn check_from(
    entry: Entry,
    link: Option<Address>,
    validation_data: ValidationData,
    context: ValidationContext,
    index: usize,
) -> (r: (EntryValidation, ValidationAction))
    ensures
        (r.0@, r.1@) == checked_from(entry, link, validation_data@, context, index as int),
{
    if index < validation_data.package.chain_header.provenances.len() {
        let header = &validation_data.package.chain_header;
        let agent = header.provenances[index].source.clone();
        let payload = header.address.clone();
        let signature = header.provenances[index].signature.clone();
        (
            EntryValidation::CheckingProvenance { entry, link, validation_data, context, index },
            ValidationAction::Verify { agent, payload, signature },
        )
    } else {
        route(entry, link, validation_data, context)
    }
}

/// Begins the validation of `entry`, whose header is in `validation_data`. `link` is the
/// address of the entry that `entry` replaces, if it replaces one.
///
/// Returns the validation, and what its caller has to do next.
pub fn validate_entry(
    entry: Entry,
    link: Option<Address>,
    validation_data: ValidationData,
    validation_context: ValidationContext,
) -> (r: (EntryValidation, ValidationAction))
    ensures
        (r.0@, r.1@) == started(entry, link, validation_data@, validation_context),
        entry.address@ != validation_data.package.chain_header.entry_address@ ==> r.1@
            == ActionView::Done(Err(ValidationErrorView::Fail("header/entry mismatch"@))),
{
    let validation_data = prune_source_chain_headers(validation_data);
    if !entry.address.same(&validation_data.package.chain_header.entry_address) {
        reject("header/entry mismatch")
    } else {
        check_from(entry, link, validation_data, validation_context, 0)
    }
}

impl EntryValidation {
    /// Goes on with the validation now that `event` has come in. Returns the validation, and
    /// what its caller has to do next.
    pub fn step(self, event: ValidationEvent) -> (r: (EntryValidation, ValidationAction))
        ensures
            (r.0@, r.1@) == stepped(self@, event),
    {
        match (self, event) {
            (
                EntryValidation::CheckingProvenance {
                    entry,
                    link,
                    validation_data,
                    context,
                    index,
                },
                ValidationEvent::Verified(genuine),
            ) => {
                if !genuine {
                    reject("invalid provenance")
                } else if index < validation_data.package.chain_header.provenances.len() {
                    check_from(entry, link, validation_data, context, index + 1)
                } else {
                    route(entry, link, validation_data, context)
                }
            },
            (EntryValidation::AwaitingOldEntry { pending }, ValidationEvent::Fetched(fetched)) => {
                match pending.resolve(fetched) {
                    Ok(prepared) => (
                        EntryValidation::AwaitingValidator,
                        ValidationAction::Run(ValidatorCall::App(prepared)),
                    ),
                    Err(e) => (EntryValidation::Finished, ValidationAction::Done(Err(e))),
                }
            },
            (EntryValidation::AwaitingValidator, ValidationEvent::Validated(result)) => (
                EntryValidation::Finished,
                ValidationAction::Done(result),
            ),
            _ => (
                EntryValidation::Finished,
                ValidationAction::Done(
                    Err(
                        ValidationError::Error(
                            HolochainError::new(
                                "The event does not answer what the validation asked",
                            ),
                        ),
                    ),
                ),
            ),
        }
    }
}

/// The verdict of the rules of an application as the result of a validation: an entry that
/// the rules reject is invalid, for the reason that they give.
pub fn callback_verdict(outcome: Result<(), String>) -> (r: ValidationResult)
    ensures
        match outcome {
            Ok(_) => r is Ok,
            Err(reason) => r == Err::<(), ValidationError>(ValidationError::Fail(reason)),
        },
{
    match outcome {
        Ok(_) => Ok(()),
        Err(reason) => Err(ValidationError::Fail(reason)),
    }
}

} // verus!
