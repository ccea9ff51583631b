//! The part of the node's state that belongs to the network, as far as validation packages
//! go: which requests are open, and what came back for them.
//!
//! The state is changed in one way only: by an action that is handed to `NetworkState::reduce`.

use crate::address::Address;
use crate::aspect::{EntryAspect, FetchEntryData};
use crate::chain_header::ChainHeader;
use crate::error::{ErrorView, HcResult, HolochainError};
use crate::validation_data::ValidationPackage;
use vstd::prelude::*;

verus! {

/// The name of one request for a validation package: the address of the entry, and a token
/// that is made anew for every request. Two requests for the same entry differ in the token.
#[derive(Debug, PartialEq, Eq, Hash)]
pub struct ValidationKey {
    pub address: Address,
    pub id: String,
}

impl View for ValidationKey {
    type V = (Seq<char>, Seq<char>);

    open spec fn view(&self) -> (Seq<char>, Seq<char>) {
        (self.address@, self.id@)
    }
}

impl Clone for ValidationKey {
    fn clone(&self) -> (r: Self)
        ensures
            r == *self,
    {
        ValidationKey { address: self.address.clone(), id: self.id.clone() }
    }
}

impl ValidationKey {
    /// Whether two keys name the same request.
    pub fn same(&self, other: &ValidationKey) -> (r: bool)
        ensures
            r == (self@ == other@),
    {
        self.address.same(&other.address) && self.id == other.id
    }
}

/// The name of a query that the node has sent to the network: for an entry, or for the links
/// of a base. The token is made anew for every query.
#[derive(Clone, Debug, PartialEq, Eq)]
pub enum QueryKey {
    Entry { address: Address, id: String },
    Links { base_address: Address, link_type: String, tag: String, id: String },
}

/// A message that the node exchanges with one peer directly, as it was sent.
#[derive(Clone, Debug, PartialEq, Eq)]
pub struct DirectMessage {
    pub content: String,
}

/// What a request for a validation package came to: the package; nothing, where the peer
/// that answered is not the source of the entry; or an error.
pub type PackageResult = HcResult<Option<ValidationPackage>>;

/// A change of the network's state, or a message to the network.
#[derive(Debug, PartialEq, Eq)]
pub enum NetworkAction {
    /// Ask the source of the header's entry for the validation package, under the key.
    GetValidationPackage(ValidationKey, ChainHeader),
    /// The answer to the request with the key has come.
    HandleGetValidationPackage(ValidationKey, PackageResult),
    /// The answer to the request with the key has been taken: forget it.
    ClearValidationPackageResult(ValidationKey),
    /// Answer the peer's request with the aspects.
    RespondFetch(FetchEntryData, Vec<EntryAspect>),
}

/// The requests for validation packages that are open, each with its answer once it has
/// come. No key occurs twice.
#[derive(Clone, Debug, PartialEq, Eq)]
pub struct PackageResults {
    slots: Vec<(ValidationKey, Option<PackageResult>)>,
}

/// Whether the slot at `i` of `slots` is the one of the key `k`.
pub open spec fn is_slot_of(
    slots: Seq<(ValidationKey, Option<PackageResult>)>,
    i: int,
    k: (Seq<char>, Seq<char>),
) -> bool {
    0 <= i < slots.len() && slots[i].0@ == k
}

impl PackageResults {
    /// No key occurs twice. Every table that this library hands out is well formed.
    pub closed spec fn wf(&self) -> bool {
        forall|i: int, j: int|
            0 <= i < j < self.slots@.len() ==> (#[trigger] self.slots@[i]).0@ != (
            #[trigger] self.slots@[j]).0@
    }

    /// The open requests: each key with what is known of its answer, `None` as long as none
    /// has come.
    pub closed spec fn view(&self) -> Map<(Seq<char>, Seq<char>), Option<PackageResult>> {
        Map::new(
            |k: (Seq<char>, Seq<char>)| exists|i: int| is_slot_of(self.slots@, i, k),
            |k: (Seq<char>, Seq<char>)| self.slots@[choose|i: int| is_slot_of(self.slots@, i, k)].1,
        )
    }

    /// The keys of the requests that have no answer yet, each once, in no order that
    /// matters.
    pub closed spec fn unanswered(&self) -> Seq<(Seq<char>, Seq<char>)> {
        unanswered_of(self.slots@)
    }

    /// `unanswered` holds a key if and only if the request with that key is open and has no
    /// answer, and holds no key twice.
    pub proof fn unanswered_are_the_empty_slots(&self)
        requires
            self.wf(),
        ensures
            forall|k: (Seq<char>, Seq<char>)|
                self.unanswered().contains(k) <==> self@.contains_key(k) && self@[k] is None,
            self.unanswered().no_duplicates(),
    {
        lemma_unanswered(self.slots@);
        assert forall|k: (Seq<char>, Seq<char>)| self.unanswered().contains(k) <==> self@.contains_key(
            k,
        ) && self@[k] is None by {
            if self@.contains_key(k) {
                let c = choose|i: int| is_slot_of(self.slots@, i, k);
                assert forall|i: int| is_slot_of(self.slots@, i, k) implies i == c by {
                    if i < c {
                        assert(self.slots@[i].0@ != self.slots@[c].0@);
                    } else if c < i {
                        assert(self.slots@[c].0@ != self.slots@[i].0@);
                    }
                }
            }
        }
    }

    /// The addresses of the entries whose validation package is asked for and has not come.
    pub fn unanswered_addresses(&self) -> (r: Vec<Address>)
        ensures
            r@.len() == self.unanswered().len(),
            forall|i: int| 0 <= i < r@.len() ==> (#[trigger] r@[i])@ == self.unanswered()[i].0,
    {
        let mut out: Vec<Address> = Vec::new();
        let mut i: usize = 0;
        while i < self.slots.len()
            invariant
                i <= self.slots.len(),
                out@.len() == unanswered_of(self.slots@.take(i as int)).len(),
                forall|j: int|
                    0 <= j < out@.len() ==> (#[trigger] out@[j])@ == unanswered_of(
                        self.slots@.take(i as int),
                    )[j].0,
            decreases self.slots.len() - i,
        {
            proof {
                assert(self.slots@.take(i + 1).drop_last() =~= self.slots@.take(i as int));
            }
            if self.slots[i].1.is_none() {
                out.push(self.slots[i].0.address.clone());
            }
            i = i + 1;
        }
        proof {
            assert(self.slots@.take(self.slots@.len() as int) =~= self.slots@);
        }
        out
    }

    /// No open requests.
    pub fn new() -> (r: Self)
        ensures
            r.wf(),
            r@ == Map::<(Seq<char>, Seq<char>), Option<PackageResult>>::empty(),
    {
        let r = PackageResults { slots: Vec::new() };
        assert(r@ =~= Map::<(Seq<char>, Seq<char>), Option<PackageResult>>::empty());
        r
    }

    fn position(&self, key: &ValidationKey) -> (r: Option<usize>)
        ensures
            match r {
                Some(i) => is_slot_of(self.slots@, i as int, key@),
                None => forall|i: int| !is_slot_of(self.slots@, i, key@),
            },
    {
        let mut i: usize = 0;
        while i < self.slots.len()
            invariant
                i <= self.slots.len(),
                forall|k: int| 0 <= k < i ==> !is_slot_of(self.slots@, k, key@),
            decreases self.slots.len() - i,
        {
            if self.slots[i].0.same(key) {
                return Some(i);
            }
            i = i + 1;
        }
        None
    }

    /// What is known of the answer to the request `key`: `None` where no such request is
    /// open.
    pub fn get(&self, key: &ValidationKey) -> (r: Option<&Option<PackageResult>>)
        requires
            self.wf(),
        ensures
            match r {
                Some(slot) => self@.contains_key(key@) && *slot == self@[key@],
                None => !self@.contains_key(key@),
            },
    {
        match self.position(key) {
            Some(i) => {
                proof {
                    let j = choose|j: int| is_slot_of(self.slots@, j, key@);
                    assert(j == i);
                }
                Some(&self.slots[i].1)
            },
            None => None,
        }
    }

    /// Sets what is known of the answer to the request `key`, and opens the request if it is
    /// not open.
    pub fn put(&mut self, key: ValidationKey, slot: Option<PackageResult>)
        requires
            old(self).wf(),
        ensures
            final(self).wf(),
            final(self)@ == old(self)@.insert(key@, slot),
    {
        let ghost before = self.slots@;
        let ghost k = key@;
        let found = self.position(&key);
        let ghost gone: Option<int> = match found {
            Some(i) => Some(i as int),
            None => None,
        };
        if let Some(i) = found {
            self.slots.remove(i);
        }
        self.slots.push((key, slot));
        proof {
            let after = self.slots@;
            let last = after.len() - 1;
            assert(is_slot_of(after, last, k));
            assert forall|j: int| 0 <= j < last implies 0 <= origin(gone, j) < before.len()
                && after[j] == before[origin(gone, j)] && (#[trigger] after[j]).0@ != k by {
                let j0 = origin(gone, j);
                assert(!is_slot_of(before, j0, k) || gone == Some(j0));
                if gone is Some && j0 != gone->0 {
                    assert(before[j0].0@ != before[gone->0].0@);
                }
            }
            assert forall|a: int, b: int| 0 <= a < b < after.len() implies (#[trigger] after[a]).0@
                != (#[trigger] after[b]).0@ by {
                if b < last {
                    assert(before[origin(gone, a)].0@ != before[origin(gone, b)].0@);
                }
            }
            assert forall|q: (Seq<char>, Seq<char>)| #[trigger]
                final(self)@.contains_key(q) <==> old(self)@.insert(k, slot).contains_key(q) by {
                if q != k {
                    if exists|j: int| is_slot_of(after, j, q) {
                        let j = choose|j: int| is_slot_of(after, j, q);
                        assert(is_slot_of(before, origin(gone, j), q));
                    }
                    if exists|j: int| is_slot_of(before, j, q) {
                        let j = choose|j: int| is_slot_of(before, j, q);
                        let j1 = target(gone, j);
                        assert(origin(gone, j1) == j);
                        assert(is_slot_of(after, j1, q));
                    }
                }
            }
            assert forall|q: (Seq<char>, Seq<char>)| #[trigger]
                final(self)@.contains_key(q) implies final(self)@[q] == old(self)@.insert(
                k,
                slot,
            )[q] by {
                let j = choose|j: int| is_slot_of(after, j, q);
                if q == k {
                    assert(j == last);
                } else {
                    let j0 = origin(gone, j);
                    assert(is_slot_of(before, j0, q));
                    let c = choose|c: int| is_slot_of(before, c, q);
                    assert(c == j0);
                }
            }
            assert(final(self)@ =~= old(self)@.insert(k, slot));
        }
    }

    /// Forgets the request `key` and its answer.
    pub fn clear(&mut self, key: &ValidationKey)
        requires
            old(self).wf(),
        ensures
            final(self).wf(),
            final(self)@ == old(self)@.remove(key@),
    {
        let ghost before = self.slots@;
        let ghost k = key@;
        let found = self.position(key);
        let ghost gone: Option<int> = match found {
            Some(i) => Some(i as int),
            None => None,
        };
        if let Some(i) = found {
            self.slots.remove(i);
        }
        proof {
            let after = self.slots@;
            assert forall|j: int| 0 <= j < after.len() implies 0 <= origin(gone, j) < before.len()
                && after[j] == before[origin(gone, j)] && (#[trigger] after[j]).0@ != k by {
                let j0 = origin(gone, j);
                assert(!is_slot_of(before, j0, k) || gone == Some(j0));
                if gone is Some && j0 != gone->0 {
                    assert(before[j0].0@ != before[gone->0].0@);
                }
            }
            assert forall|a: int, b: int| 0 <= a < b < after.len() implies (#[trigger] after[a]).0@
                != (#[trigger] after[b]).0@ by {
                assert(before[origin(gone, a)].0@ != before[origin(gone, b)].0@);
            }
            assert forall|q: (Seq<char>, Seq<char>)| #[trigger]
                final(self)@.contains_key(q) <==> old(self)@.remove(k).contains_key(q) by {
                if exists|j: int| is_slot_of(after, j, q) {
                    let j = choose|j: int| is_slot_of(after, j, q);
                    assert(is_slot_of(before, origin(gone, j), q));
                }
                if q != k && exists|j: int| is_slot_of(before, j, q) {
                    let j = choose|j: int| is_slot_of(before, j, q);
                    let j1 = target(gone, j);
                    assert(origin(gone, j1) == j);
                    assert(is_slot_of(after, j1, q));
                }
            }
            assert forall|q: (Seq<char>, Seq<char>)| #[trigger]
                final(self)@.contains_key(q) implies final(self)@[q] == old(self)@.remove(k)[q] by {
                let j = choose|j: int| is_slot_of(after, j, q);
                let j0 = origin(gone, j);
                assert(is_slot_of(before, j0, q));
                let c = choose|c: int| is_slot_of(before, c, q);
                assert(c == j0);
            }
            assert(final(self)@ =~= old(self)@.remove(k));
        }
    }
}

/// The keys of the slots of `slots` that are empty, in their order.
spec fn unanswered_of(slots: Seq<(ValidationKey, Option<PackageResult>)>) -> Seq<
    (Seq<char>, Seq<char>),
>
    decreases slots.len(),
{
    if slots.len() == 0 {
        Seq::empty()
    } else if slots.last().1 is None {
        unanswered_of(slots.drop_last()).push(slots.last().0@)
    } else {
        unanswered_of(slots.drop_last())
    }
}

proof fn lemma_unanswered(slots: Seq<(ValidationKey, Option<PackageResult>)>)
    requires
        forall|i: int, j: int|
            0 <= i < j < slots.len() ==> (#[trigger] slots[i]).0@ != (#[trigger] slots[j]).0@,
    ensures
        forall|k: (Seq<char>, Seq<char>)|
            unanswered_of(slots).contains(k) <==> exists|i: int|
                is_slot_of(slots, i, k) && slots[i].1 is None,
        unanswered_of(slots).no_duplicates(),
    decreases slots.len(),
{
    if slots.len() > 0 {
        let front = slots.drop_last();
        let n = slots.len() - 1;
        let all = unanswered_of(slots);
        let before = unanswered_of(front);
        assert forall|i: int, j: int| 0 <= i < j < front.len() implies (#[trigger] front[i]).0@ != (
        #[trigger] front[j]).0@ by {
            assert(slots[i].0@ != slots[j].0@);
        }
        lemma_unanswered(front);
        assert forall|k: (Seq<char>, Seq<char>)| all.contains(k) <==> exists|i: int|
            is_slot_of(slots, i, k) && slots[i].1 is None by {
            if all.contains(k) {
                let a = choose|a: int| 0 <= a < all.len() && all[a] == k;
                if a < before.len() {
                    assert(before[a] == k);
                    assert(before.contains(k));
                    let i = choose|i: int| is_slot_of(front, i, k) && front[i].1 is None;
                    assert(is_slot_of(slots, i, k) && slots[i].1 is None);
                } else {
                    assert(is_slot_of(slots, n, k) && slots[n].1 is None);
                }
            }
            if exists|i: int| is_slot_of(slots, i, k) && slots[i].1 is None {
                let i = choose|i: int| is_slot_of(slots, i, k) && slots[i].1 is None;
                if i < n {
                    assert(is_slot_of(front, i, k) && front[i].1 is None);
                    assert(before.contains(k));
                    let a = choose|a: int| 0 <= a < before.len() && before[a] == k;
                    assert(all[a] == k);
                } else {
                    assert(all[all.len() - 1] == k);
                }
            }
        }
        if slots[n].1 is None {
            let k = slots[n].0@;
            if before.contains(k) {
                let i = choose|i: int| is_slot_of(front, i, k) && front[i].1 is None;
                assert(slots[i].0@ != slots[n].0@);
            }
            assert forall|a: int, b: int| 0 <= a < all.len() && 0 <= b < all.len() && a != b implies all[a]
                != all[b] by {
                if a < before.len() && b < before.len() {
                    assert(before[a] != before[b]);
                } else if a < before.len() {
                    assert(before.contains(before[a]));
                } else {
                    assert(before.contains(before[b]));
                }
            }
        }
    }
}

/// Where the slot that stands at `j` after the slot at `gone` was taken out stood before.
spec fn origin(gone: Option<int>, j: int) -> int {
    match gone {
        Some(i) => if j < i {
            j
        } else {
            j + 1
        },
        None => j,
    }
}

/// Where the slot that stood at `j` stands after the slot at `gone` was taken out.
spec fn target(gone: Option<int>, j: int) -> int {
    match gone {
        Some(i) => if j < i {
            j
        } else {
            j - 1
        },
        None => j,
    }
}

/// The open requests `results` after `action`.
///
/// A request opens its slot, empty. The answer fills the slot. Clearing removes the slot.
/// An answer to a peer's fetch changes nothing here.
pub open spec fn reduced(
    results: Map<(Seq<char>, Seq<char>), Option<PackageResult>>,
    action: NetworkAction,
) -> Map<(Seq<char>, Seq<char>), Option<PackageResult>> {
    match action {
        NetworkAction::GetValidationPackage(key, _) => results.insert(key@, None),
        NetworkAction::HandleGetValidationPackage(key, result) => results.insert(
            key@,
            Some(result),
        ),
        NetworkAction::ClearValidationPackageResult(key) => results.remove(key@),
        NetworkAction::RespondFetch(_, _) => results,
    }
}

/// The network's part of the node's state.
#[derive(Clone, Debug, PartialEq, Eq)]
pub struct NetworkState {
    /// Whether the network has been set up.
    pub initialized: bool,
    /// The open requests for validation packages.
    pub get_validation_package_results: PackageResults,
    /// The queries that the node has sent, each with its answer, serialized, once it has
    /// come.
    pub get_query_results: Vec<(QueryKey, Option<HcResult<String>>)>,
    /// The direct messages that wait for their answer, each under the token it was sent
    /// with.
    pub direct_message_connections: Vec<(String, DirectMessage)>,
}

impl NetworkState {
    /// Whether the state is well formed: its table of requests is.
    pub open spec fn wf(&self) -> bool {
        self.get_validation_package_results.wf()
    }

    /// The state of a network that has not been set up, with no open requests.
    pub fn new() -> (r: Self)
        ensures
            r.wf(),
            !r.initialized,
            r.get_validation_package_results@ == Map::<
                (Seq<char>, Seq<char>),
                Option<PackageResult>,
            >::empty(),
            r.get_query_results@.len() == 0,
            r.direct_message_connections@.len() == 0,
    {
        NetworkState {
            initialized: false,
            get_validation_package_results: PackageResults::new(),
            get_query_results: Vec::new(),
            direct_message_connections: Vec::new(),
        }
    }

    /// `Ok` if the network has been set up, else the error that says that it has not.
    pub fn initialized(&self) -> (r: HcResult<()>)
        ensures
            self.initialized ==> r is Ok,
            !self.initialized ==> (r matches Err(e) && e@ == ErrorView::NetworkUninitialized),
    {
        if self.initialized {
            Ok(())
        } else {
            Err(HolochainError::NetworkUninitialized)
        }
    }

    /// Applies `action` to the state.
    pub fn reduce(&mut self, action: NetworkAction)
        requires
            old(self).wf(),
        ensures
            final(self).wf(),
            final(self).initialized == old(self).initialized,
            final(self).get_query_results == old(self).get_query_results,
            final(self).direct_message_connections == old(self).direct_message_connections,
            final(self).get_validation_package_results@ == reduced(
                old(self).get_validation_package_results@,
                action,
            ),
    {
        match action {
            NetworkAction::GetValidationPackage(key, _) => {
                self.get_validation_package_results.put(key, None);
            },
            NetworkAction::HandleGetValidationPackage(key, result) => {
                self.get_validation_package_results.put(key, Some(result));
            },
            NetworkAction::ClearValidationPackageResult(key) => {
                self.get_validation_package_results.clear(&key);
            },
            NetworkAction::RespondFetch(_, _) => {},
        }
    }
}

/// Requests with different keys do not touch each other: whatever `action` does to the
/// request `key`, every request with another key stays as it was, open or not, with the
/// same answer.
pub proof fn requests_do_not_interfere(
    results: Map<(Seq<char>, Seq<char>), Option<PackageResult>>,
    action: NetworkAction,
    other: (Seq<char>, Seq<char>),
)
    requires
        match action {
            NetworkAction::GetValidationPackage(key, _) => key@ != other,
            NetworkAction::HandleGetValidationPackage(key, _) => key@ != other,
            NetworkAction::ClearValidationPackageResult(key) => key@ != other,
            NetworkAction::RespondFetch(_, _) => true,
        },
    ensures
        reduced(results, action).contains_key(other) == results.contains_key(other),
        results.contains_key(other) ==> reduced(results, action)[other] == results[other],
{
}

/// Two keys for the same entry differ as soon as their tokens differ.
pub proof fn keys_differ_by_token(a: ValidationKey, b: ValidationKey)
    requires
        a.id@ != b.id@,
    ensures
        a@ != b@,
{
}

} // verus!
