//! Getting the validation package of an entry from the peer that authored it.
//!
//! `get_validation_package` names the request and says what to send. The answer arrives in
//! the network's state, in the slot of the request. `GetValidationPackageFuture::poll` looks
//! for it there each time the resolver is woken, and says what to do.

use crate::chain_header::ChainHeader;
use crate::network::{NetworkAction, NetworkState, PackageResult, ValidationKey};
use vstd::prelude::*;

verus! {

/// A request for a validation package that waits for its answer.
#[derive(Debug, PartialEq, Eq)]
pub struct GetValidationPackageFuture {
    /// The key of the request, under which the answer arrives.
    pub key: ValidationKey,
    /// The name under which the resolver's waker is registered.
    pub id: String,
}

/// What a poll of a request finds.
#[derive(Debug)]
pub enum PackagePoll<'a> {
    /// The action channel is closed or has failed. The request fails with
    /// `HolochainError::ChannelClosed`. No waker is registered.
    ChannelClosed,
    /// The network has not been set up. The waker is registered, and the request fails with
    /// `HolochainError::NetworkUninitialized`.
    NetworkUninitialized,
    /// No answer yet: the state could not be read, or the slot is not there or is empty. The
    /// waker is registered, and the request stays pending.
    Pending,
    /// The answer has come. The waker is registered and taken away again, `clear` is handed
    /// to the network, and the request ends with a copy of `result`.
    Ready { result: &'a PackageResult, clear: NetworkAction },
}

/// What a poll finds, as a plain value.
pub enum PollView {
    ChannelClosed,
    NetworkUninitialized,
    Pending,
    Ready { result: PackageResult, clear: NetworkAction },
}

impl<'a> View for PackagePoll<'a> {
    type V = PollView;

    open spec fn view(&self) -> PollView {
        match *self {
            PackagePoll::ChannelClosed => PollView::ChannelClosed,
            PackagePoll::NetworkUninitialized => PollView::NetworkUninitialized,
            PackagePoll::Pending => PollView::Pending,
            PackagePoll::Ready { result, clear } => PollView::Ready { result: *result, clear },
        }
    }
}

impl<'a> PackagePoll<'a> {
    /// Whether the poll registers the resolver's waker.
    pub fn registers_waker(&self) -> (r: bool)
        ensures
            r == !(self@ is ChannelClosed),
    {
        match self {
            PackagePoll::ChannelClosed => false,
            _ => true,
        }
    }

    /// Whether the poll takes the resolver's waker away again, which it does when the request
    /// has its answer.
    pub fn unregisters_waker(&self) -> (r: bool)
        ensures
            r == (self@ is Ready),
    {
        match self {
            PackagePoll::Ready { .. } => true,
            _ => false,
        }
    }

    /// Whether the request has ended, with an answer or with an error.
    pub fn is_ready(&self) -> (r: bool)
        ensures
            r == !(self@ is Pending),
    {
        match self {
            PackagePoll::Pending => false,
            _ => true,
        }
    }
}

/// What a poll of the request `key` finds.
///
/// `channel_open` says whether the action channel works. `state` is what could be read of
/// the network's state: whether the network has been set up, and its open requests.
///
/// The checks are made in this order: the channel, the state, the network, the slot.
pub open spec fn polled(
    key: ValidationKey,
    channel_open: bool,
    state: Option<(bool, Map<(Seq<char>, Seq<char>), Option<PackageResult>>)>,
) -> PollView {
    if !channel_open {
        PollView::ChannelClosed
    } else {
        match state {
            None => PollView::Pending,
            Some((initialized, results)) => if !initialized {
                PollView::NetworkUninitialized
            } else if results.contains_key(key@) && results[key@] is Some {
                PollView::Ready {
                    result: results[key@]->0,
                    clear: NetworkAction::ClearValidationPackageResult(key),
                }
            } else {
                PollView::Pending
            },
        }
    }
}

/// What can be read of a network state.
pub open spec fn readable(state: Option<&NetworkState>) -> Option<
    (bool, Map<(Seq<char>, Seq<char>), Option<PackageResult>>),
> {
    match state {
        Some(s) => Some((s.initialized, s.get_validation_package_results@)),
        None => None,
    }
}

impl GetValidationPackageFuture {
    /// Looks for the answer to the request. `channel_open` says whether the action channel
    /// works; `state` is the network's state, or `None` where the state cannot be read now.
    pub fn poll<'a>(&self, channel_open: bool, state: Option<&'a NetworkState>) -> (r: PackagePoll<
        'a,
    >)
        requires
            state matches Some(s) ==> s.wf(),
        ensures
            r@ == polled(self.key, channel_open, readable(state)),
    {
        if !channel_open {
            return PackagePoll::ChannelClosed;
        }
        match state {
            None => PackagePoll::Pending,
            Some(network) => {
                if !network.initialized {
                    return PackagePoll::NetworkUninitialized;
                }
                match network.get_validation_package_results.get(&self.key) {
                    Some(Some(result)) => PackagePoll::Ready {
                        result,
                        clear: NetworkAction::ClearValidationPackageResult(self.key.clone()),
                    },
                    _ => PackagePoll::Pending,
                }
            },
        }
    }
}

/// A token that no other call in this process returns.
///
/// Calls `snowflake::ProcessUniqueId::new` and takes the text of the identifier. The crate
/// promises that no two identifiers of one process are equal; that is a promise about all
/// calls together, which this contract cannot state, so it states nothing. The call panics
/// only when the process has used up its identifiers, for which every one of `usize::MAX`
/// threads would have to ask for one.
#[verifier::external_body]
fn fresh_token() -> (token: String) {
    snowflake::ProcessUniqueId::new().to_string()
}

/// Names a request for the validation package of the entry of `header` with the token
/// `request_id`. Returns the waiting request, and the action that sends it.
pub fn request_validation_package(header: ChainHeader, request_id: String, waker_id: String) -> (r:
    (GetValidationPackageFuture, NetworkAction))
    ensures
        r.0.key.address == header.entry_address,
        r.0.key.id == request_id,
        r.0.id == waker_id,
        r.1 == NetworkAction::GetValidationPackage(r.0.key, header),
{
    let key = ValidationKey { address: header.entry_address.clone(), id: request_id };
    let action = NetworkAction::GetValidationPackage(key.clone(), header);
    (GetValidationPackageFuture { key, id: waker_id }, action)
}

/// Starts to get the validation package of the entry of `header` from its source. Returns the
/// waiting request, and the action that sends it.
///
/// The request gets a key of its own, with a token that is made for it.
pub fn get_validation_package(header: ChainHeader) -> (r: (
    GetValidationPackageFuture,
    NetworkAction,
))
    ensures
        r.0.key.address == header.entry_address,
        r.1 == NetworkAction::GetValidationPackage(r.0.key, header),
{
    let request_id = fresh_token();
    let waker_id = fresh_token();
    request_validation_package(header, request_id, waker_id)
}

/// What a poll of one request finds does not depend on what happens to another: after any
/// action that is not about the key `key`, a poll of `key` finds what it found before.
pub proof fn polls_do_not_interfere(
    key: ValidationKey,
    channel_open: bool,
    initialized: bool,
    results: Map<(Seq<char>, Seq<char>), Option<PackageResult>>,
    action: NetworkAction,
)
    requires
        match action {
            NetworkAction::GetValidationPackage(other, _) => other@ != key@,
            NetworkAction::HandleGetValidationPackage(other, _) => other@ != key@,
            NetworkAction::ClearValidationPackageResult(other) => other@ != key@,
            NetworkAction::RespondFetch(_, _) => true,
        },
    ensures
        polled(key, channel_open, Some((initialized, crate::network::reduced(results, action))))
            == polled(key, channel_open, Some((initialized, results))),
{
    crate::network::requests_do_not_interfere(results, action, key@);
}

/// Once the answer to a request is taken, the request is forgotten.
///
/// Where the network is set up and the slot of `key` holds an answer, a poll finds it and
/// hands out the action that clears the slot; and after that action the slot is not there.
pub proof fn taken_answer_is_cleared(
    key: ValidationKey,
    results: Map<(Seq<char>, Seq<char>), Option<PackageResult>>,
)
    requires
        results.contains_key(key@),
        results[key@] is Some,
    ensures
        polled(key, true, Some((true, results))) matches PollView::Ready { result, clear }
            && result == results[key@]->0 && !crate::network::reduced(results, clear).contains_key(
            key@,
        ),
{
}

} // verus!
