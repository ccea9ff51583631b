//! The validations that wait: for entries that they depend on, or for their turn.
//!
//! A validation that cannot be completed is queued. The scheduler promotes it when it runs
//! it again, completes it when it has succeeded, and expires it when its time is up. At most
//! one validation of an entry by one workflow waits in the queue, and at most one is in
//! process.

use crate::address::Address;
use crate::chain_header::EntryWithHeader;
use vstd::prelude::*;

verus! {

/// The workflow that holds an entry for the network and asked for the validation.
#[derive(Clone, Copy, Debug, PartialEq, Eq, Structural, Hash)]
pub enum ValidatingWorkflow {
    HoldEntry,
    HoldLink,
    RemoveLink,
    UpdateEntry,
    RemoveEntry,
}

/// A validation that waits: the workflow that asked for it, the entry with its header, the
/// addresses of the entries that it was found to depend on, and the number of attempts made.
#[derive(Clone, Debug, PartialEq, Eq)]
pub struct PendingValidation {
    pub workflow: ValidatingWorkflow,
    pub entry_with_header: EntryWithHeader,
    pub dependencies: Vec<Address>,
    pub attempt: u64,
}

/// A waiting validation with the time at which it is given up, in milliseconds since the
/// epoch. Without a time it is tried for ever.
#[derive(Clone, Debug, PartialEq, Eq)]
pub struct PendingValidationWithTimeout {
    pub pending: PendingValidation,
    pub timeout: Option<u64>,
}

/// What names a waiting validation: the address of its entry, and its workflow.
#[derive(Debug, PartialEq, Eq)]
pub struct PendingKey {
    pub address: Address,
    pub workflow: ValidatingWorkflow,
}

impl View for PendingKey {
    type V = (Seq<char>, ValidatingWorkflow);

    open spec fn view(&self) -> (Seq<char>, ValidatingWorkflow) {
        (self.address@, self.workflow)
    }
}

/// The key of a waiting validation.
pub open spec fn key_of(p: PendingValidationWithTimeout) -> (Seq<char>, ValidatingWorkflow) {
    (p.pending.entry_with_header.entry.address@, p.pending.workflow)
}

/// Whether the validation at `i` of `s` has the key `k`.
pub open spec fn is_at(
    s: Seq<PendingValidationWithTimeout>,
    i: int,
    k: (Seq<char>, ValidatingWorkflow),
) -> bool {
    0 <= i < s.len() && key_of(s[i]) == k
}

/// Whether a validation of `s` has the key `k`.
pub open spec fn has_key(s: Seq<PendingValidationWithTimeout>, k: (Seq<char>, ValidatingWorkflow)) -> bool {
    exists|i: int| is_at(s, i, k)
}

/// Where in `s` the validation with the key `k` stands, if there is one.
pub open spec fn index_of(s: Seq<PendingValidationWithTimeout>, k: (Seq<char>, ValidatingWorkflow)) -> int {
    choose|i: int| is_at(s, i, k)
}

/// Whether no two validations of `s` have the same key.
pub open spec fn distinct_keys(s: Seq<PendingValidationWithTimeout>) -> bool {
    forall|i: int, j: int| 0 <= i < j < s.len() ==> key_of(#[trigger] s[i]) != key_of(#[trigger] s[j])
}

/// The earlier of two times at which a validation is given up, where no time is later than
/// every time.
pub open spec fn earliest(a: Option<u64>, b: Option<u64>) -> Option<u64> {
    match (a, b) {
        (Some(x), Some(y)) => if x <= y {
            a
        } else {
            b
        },
        (Some(_), None) => a,
        _ => b,
    }
}

/// The queue `s` after `pending` was queued with `timeout`.
///
/// If a validation with the same key waits in the queue already, it stays where it is and as
/// it is, but for its time: that becomes the earlier of its own and `timeout`. Else `pending`
/// goes to the end of the queue.
pub open spec fn enqueued(
    s: Seq<PendingValidationWithTimeout>,
    pending: PendingValidation,
    timeout: Option<u64>,
) -> Seq<PendingValidationWithTimeout> {
    let new = PendingValidationWithTimeout { pending, timeout };
    if has_key(s, key_of(new)) {
        let i = index_of(s, key_of(new));
        s.update(
            i,
            PendingValidationWithTimeout {
                pending: s[i].pending,
                timeout: earliest(s[i].timeout, timeout),
            },
        )
    } else {
        s.push(new)
    }
}

/// `s` without the validation with the key `k`, if there is one.
pub open spec fn without(
    s: Seq<PendingValidationWithTimeout>,
    k: (Seq<char>, ValidatingWorkflow),
) -> Seq<PendingValidationWithTimeout> {
    if has_key(s, k) {
        s.remove(index_of(s, k))
    } else {
        s
    }
}

/// Whether the validation `p` is given up at the time `now`: it has a time, and that is not
/// after `now`.
pub open spec fn is_due(p: PendingValidationWithTimeout, now: u64) -> bool {
    p.timeout matches Some(t) && t <= now
}

/// The validations of `s` that are given up at `now`, in their order.
pub open spec fn due(s: Seq<PendingValidationWithTimeout>, now: u64) -> Seq<
    PendingValidationWithTimeout,
>
    decreases s.len(),
{
    if s.len() == 0 {
        Seq::empty()
    } else if is_due(s.last(), now) {
        due(s.drop_last(), now).push(s.last())
    } else {
        due(s.drop_last(), now)
    }
}

/// The validations of `s` that are not given up at `now`, in their order.
pub open spec fn not_due(s: Seq<PendingValidationWithTimeout>, now: u64) -> Seq<
    PendingValidationWithTimeout,
>
    decreases s.len(),
{
    if s.len() == 0 {
        Seq::empty()
    } else if is_due(s.last(), now) {
        not_due(s.drop_last(), now)
    } else {
        not_due(s.drop_last(), now).push(s.last())
    }
}

/// The validations of `s` without their times.
pub open spec fn pendings_of(s: Seq<PendingValidationWithTimeout>) -> Seq<PendingValidation> {
    Seq::new(s.len(), |i: int| s[i].pending)
}

/// The waiting validations of a node: those that are queued, and those that the scheduler
/// has taken from the queue and is running. Both are in the order in which they came in.
#[derive(Clone, Debug, PartialEq, Eq)]
pub struct PendingValidations {
    queued: Vec<PendingValidationWithTimeout>,
    in_process: Vec<PendingValidationWithTimeout>,
}

fn find(s: &Vec<PendingValidationWithTimeout>, address: &Address, workflow: ValidatingWorkflow) -> (r:
    Option<usize>)
    ensures
        match r {
            Some(i) => is_at(s@, i as int, (address@, workflow)),
            None => !has_key(s@, (address@, workflow)),
        },
{
    let mut i: usize = 0;
    while i < s.len()
        invariant
            i <= s.len(),
            forall|k: int| 0 <= k < i ==> !is_at(s@, k, (address@, workflow)),
        decreases s.len() - i,
    {
        if s[i].pending.entry_with_header.entry.address.same(address) && s[i].pending.workflow
            == workflow {
            return Some(i);
        }
        i = i + 1;
    }
    None
}

proof fn lemma_unique_index(
    s: Seq<PendingValidationWithTimeout>,
    i: int,
    k: (Seq<char>, ValidatingWorkflow),
)
    requires
        distinct_keys(s),
        is_at(s, i, k),
    ensures
        has_key(s, k),
        index_of(s, k) == i,
{
    let j = index_of(s, k);
    assert(is_at(s, j, k));
    if j < i {
        assert(key_of(s[j]) != key_of(s[i]));
    } else if i < j {
        assert(key_of(s[i]) != key_of(s[j]));
    }
}

proof fn lemma_remove_keeps_distinct(s: Seq<PendingValidationWithTimeout>, i: int)
    requires
        distinct_keys(s),
        0 <= i < s.len(),
    ensures
        distinct_keys(s.remove(i)),
        !has_key(s.remove(i), key_of(s[i])),
{
    let r = s.remove(i);
    assert forall|a: int, b: int| 0 <= a < b < r.len() implies key_of(#[trigger] r[a]) != key_of(
        #[trigger] r[b],
    ) by {
        let a0 = if a < i { a } else { a + 1 };
        let b0 = if b < i { b } else { b + 1 };
        assert(key_of(s[a0]) != key_of(s[b0]));
    }
    assert forall|a: int| !is_at(r, a, key_of(s[i])) by {
        if 0 <= a < r.len() {
            let a0 = if a < i { a } else { a + 1 };
            if a0 < i {
                assert(key_of(s[a0]) != key_of(s[i]));
            } else {
                assert(key_of(s[i]) != key_of(s[a0]));
            }
        }
    }
}

proof fn lemma_push_keeps_distinct(s: Seq<PendingValidationWithTimeout>, p: PendingValidationWithTimeout)
    requires
        distinct_keys(s),
        !has_key(s, key_of(p)),
    ensures
        distinct_keys(s.push(p)),
{
    let r = s.push(p);
    assert forall|a: int, b: int| 0 <= a < b < r.len() implies key_of(#[trigger] r[a]) != key_of(
        #[trigger] r[b],
    ) by {
        if b < s.len() {
            assert(key_of(s[a]) != key_of(s[b]));
        } else {
            assert(!is_at(s, a, key_of(p)));
        }
    }
}

/// Queueing keeps the queue in order: the validations that waited stay at their places with
/// their keys, and at most one is added, at the end. What was queued waits in the queue
/// afterwards, and no key waits twice.
pub proof fn queueing_keeps_the_order(
    s: Seq<PendingValidationWithTimeout>,
    pending: PendingValidation,
    timeout: Option<u64>,
)
    requires
        distinct_keys(s),
    ensures
        s.len() <= enqueued(s, pending, timeout).len() <= s.len() + 1,
        forall|i: int|
            0 <= i < s.len() ==> key_of(#[trigger] enqueued(s, pending, timeout)[i]) == key_of(
                s[i],
            ),
        has_key(
            enqueued(s, pending, timeout),
            key_of(PendingValidationWithTimeout { pending, timeout }),
        ),
        distinct_keys(enqueued(s, pending, timeout)),
{
    let new = PendingValidationWithTimeout { pending, timeout };
    let after = enqueued(s, pending, timeout);
    if has_key(s, key_of(new)) {
        let i = index_of(s, key_of(new));
        assert(is_at(after, i, key_of(new)));
        assert forall|a: int, b: int| 0 <= a < b < after.len() implies key_of(#[trigger] after[a])
            != key_of(#[trigger] after[b]) by {
            assert(key_of(after[a]) == key_of(s[a]));
            assert(key_of(after[b]) == key_of(s[b]));
        }
    } else {
        assert(is_at(after, s.len() as int, key_of(new)));
        lemma_push_keeps_distinct(s, new);
    }
}

/// Giving up splits the validations: each of them is either given up or kept, and those that
/// are kept are not due.
pub proof fn giving_up_splits(s: Seq<PendingValidationWithTimeout>, now: u64)
    ensures
        due(s, now).len() + not_due(s, now).len() == s.len(),
        forall|i: int| 0 <= i < due(s, now).len() ==> is_due(#[trigger] due(s, now)[i], now),
        forall|i: int|
            0 <= i < not_due(s, now).len() ==> !is_due(#[trigger] not_due(s, now)[i], now),
    decreases s.len(),
{
    if s.len() > 0 {
        giving_up_splits(s.drop_last(), now);
    }
}

/// What `not_due` keeps are validations of `s`, so it keeps no key twice if `s` has none
/// twice.
proof fn lemma_not_due_keeps_distinct(s: Seq<PendingValidationWithTimeout>, now: u64)
    requires
        distinct_keys(s),
    ensures
        distinct_keys(not_due(s, now)),
        forall|k: (Seq<char>, ValidatingWorkflow)| has_key(not_due(s, now), k) ==> has_key(s, k),
    decreases s.len(),
{
    if s.len() > 0 {
        let front = s.drop_last();
        let kept_front = not_due(front, now);
        let kept = not_due(s, now);
        assert forall|a: int, b: int| 0 <= a < b < front.len() implies key_of(#[trigger] front[a])
            != key_of(#[trigger] front[b]) by {
            assert(key_of(s[a]) != key_of(s[b]));
        }
        lemma_not_due_keeps_distinct(front, now);
        assert forall|k: (Seq<char>, ValidatingWorkflow)| has_key(kept, k) implies has_key(
            s,
            k,
        ) by {
            let i = choose|i: int| is_at(kept, i, k);
            if i < kept_front.len() {
                assert(is_at(kept_front, i, k));
                assert(has_key(kept_front, k));
                assert(has_key(front, k));
                let j = choose|j: int| is_at(front, j, k);
                assert(is_at(s, j, k));
            } else {
                assert(is_at(s, s.len() - 1, k));
            }
        }
        if !is_due(s.last(), now) {
            if has_key(kept_front, key_of(s.last())) {
                assert(has_key(front, key_of(s.last())));
                let j = choose|j: int| is_at(front, j, key_of(s.last()));
                assert(key_of(s[j]) != key_of(s[s.len() - 1]));
            }
            lemma_push_keeps_distinct(kept_front, s.last());
        }
    }
}

/// Splits `items` at the time `now`: returns those that are not given up, and adds the
/// others, without their times, to `given_up`.
fn split_due(items: Vec<PendingValidationWithTimeout>, now: u64, given_up: &mut Vec<PendingValidation>) -> (kept:
    Vec<PendingValidationWithTimeout>)
    ensures
        kept@ == not_due(items@, now),
        final(given_up)@ == old(given_up)@ + pendings_of(due(items@, now)),
{
    let ghost whole = items@;
    let ghost base = given_up@;
    let mut kept: Vec<PendingValidationWithTimeout> = Vec::new();
    proof {
        assert(given_up@ =~= base + pendings_of(due(whole.take(0), now)));
    }
    for item in it: items
        invariant
            it.seq() == whole,
            kept@ == not_due(whole.take(it.index() as int), now),
            given_up@ == base + pendings_of(due(whole.take(it.index() as int), now)),
    {
        proof {
            let i = it.index() as int;
            assert(whole.take(i + 1).drop_last() =~= whole.take(i));
        }
        let ghost so_far = due(whole.take(it.index() as int), now);
        let is_due_now = match item.timeout {
            Some(t) => t <= now,
            None => false,
        };
        if is_due_now {
            let PendingValidationWithTimeout { pending, timeout: _ } = item;
            given_up.push(pending);
            proof {
                assert(given_up@ =~= base + pendings_of(so_far.push(item)));
            }
        } else {
            kept.push(item);
        }
    }
    proof {
        assert(whole.take(whole.len() as int) =~= whole);
    }
    kept
}

impl PendingValidations {
    /// No key occurs twice in the queue, nor among the validations in process. Every
    /// registry that this library hands out is well formed.
    pub closed spec fn wf(&self) -> bool {
        distinct_keys(self.queued@) && distinct_keys(self.in_process@)
    }

    /// The queue, the validation that waits longest first.
    pub closed spec fn queued(&self) -> Seq<PendingValidationWithTimeout> {
        self.queued@
    }

    /// The validations in process, the one that was promoted first first.
    pub closed spec fn in_process(&self) -> Seq<PendingValidationWithTimeout> {
        self.in_process@
    }

    /// What `wf` says, over the two sequences.
    pub proof fn wf_means_distinct_keys(&self)
        ensures
            self.wf() <==> distinct_keys(self.queued()) && distinct_keys(self.in_process()),
    {
    }

    /// A registry in which nothing waits.
    pub fn new() -> (r: Self)
        ensures
            r.wf(),
            r.queued() == Seq::<PendingValidationWithTimeout>::empty(),
            r.in_process() == Seq::<PendingValidationWithTimeout>::empty(),
    {
        PendingValidations { queued: Vec::new(), in_process: Vec::new() }
    }

    /// The queue, the validation that waits longest first.
    pub fn queued_holding_workflows(&self) -> (r: &Vec<PendingValidationWithTimeout>)
        ensures
            r@ == self.queued(),
    {
        &self.queued
    }

    /// The validations in process, the one that was promoted first first.
    pub fn in_process_holding_workflows(&self) -> (r: &Vec<PendingValidationWithTimeout>)
        ensures
            r@ == self.in_process(),
    {
        &self.in_process
    }

    /// Takes the registry apart: the queue, and the validations in process.
    pub fn into_parts(self) -> (r: (
        Vec<PendingValidationWithTimeout>,
        Vec<PendingValidationWithTimeout>,
    ))
        ensures
            r.0@ == self.queued(),
            r.1@ == self.in_process(),
    {
        let PendingValidations { queued, in_process } = self;
        (queued, in_process)
    }

    /// Queues `pending`, to be given up at `timeout`.
    pub fn enqueue(&mut self, pending: PendingValidation, timeout: Option<u64>)
        requires
            old(self).wf(),
        ensures
            final(self).wf(),
            final(self).queued() == enqueued(old(self).queued(), pending, timeout),
            final(self).in_process() == old(self).in_process(),
    {
        let ghost before = self.queued@;
        let ghost k = (pending.entry_with_header.entry.address@, pending.workflow);
        match find(&self.queued, &pending.entry_with_header.entry.address, pending.workflow) {
            Some(i) => {
                proof {
                    lemma_unique_index(before, i as int, k);
                }
                let old_one = self.queued.remove(i);
                let kept = match (old_one.timeout, timeout) {
                    (Some(x), Some(y)) => if x <= y {
                        Some(x)
                    } else {
                        Some(y)
                    },
                    (Some(x), None) => Some(x),
                    (None, t) => t,
                };
                let merged = PendingValidationWithTimeout { pending: old_one.pending, timeout: kept };
                self.queued.insert(i, merged);
                proof {
                    assert(self.queued@ =~= before.update(i as int, merged));
                    let after = self.queued@;
                    assert forall|a: int, b: int| 0 <= a < b < after.len() implies key_of(
                        #[trigger] after[a],
                    ) != key_of(#[trigger] after[b]) by {
                        assert(key_of(after[a]) == key_of(before[a]));
                        assert(key_of(after[b]) == key_of(before[b]));
                    }
                }
            },
            None => {
                let new = PendingValidationWithTimeout { pending, timeout };
                proof {
                    lemma_push_keeps_distinct(before, new);
                }
                self.queued.push(new);
            },
        }
    }

    /// Moves the validation with the key `key` from the queue to the validations in process,
    /// and returns it. Returns `None`, and changes nothing, if no such validation is queued.
    ///
    /// A validation with the same key that was in process already makes way for it.
    pub fn promote(&mut self, key: &PendingKey) -> (r: Option<&PendingValidation>)
        requires
            old(self).wf(),
        ensures
            final(self).wf(),
            !has_key(old(self).queued(), key@) ==> r is None && final(self).queued() == old(
                self,
            ).queued() && final(self).in_process() == old(self).in_process(),
            has_key(old(self).queued(), key@) ==> {
                let i = index_of(old(self).queued(), key@);
                &&& r matches Some(p) && *p == old(self).queued()[i].pending
                &&& final(self).queued() == old(self).queued().remove(i)
                &&& final(self).in_process() == without(old(self).in_process(), key@).push(
                    old(self).queued()[i],
                )
            },
    {
        let ghost queue = self.queued@;
        let ghost running = self.in_process@;
        match find(&self.queued, &key.address, key.workflow) {
            Some(i) => {
                proof {
                    lemma_unique_index(queue, i as int, key@);
                    lemma_remove_keeps_distinct(queue, i as int);
                }
                let item = self.queued.remove(i);
                match find(&self.in_process, &key.address, key.workflow) {
                    Some(j) => {
                        proof {
                            lemma_unique_index(running, j as int, key@);
                            lemma_remove_keeps_distinct(running, j as int);
                        }
                        self.in_process.remove(j);
                    },
                    None => {},
                }
                proof {
                    lemma_push_keeps_distinct(self.in_process@, item);
                }
                self.in_process.push(item);
                let last = self.in_process.len() - 1;
                Some(&self.in_process[last].pending)
            },
            None => None,
        }
    }

    /// Takes the validation with the key `key` from the validations in process, if it is
    /// there.
    pub fn complete(&mut self, key: &PendingKey)
        requires
            old(self).wf(),
        ensures
            final(self).wf(),
            final(self).queued() == old(self).queued(),
            final(self).in_process() == without(old(self).in_process(), key@),
    {
        let ghost running = self.in_process@;
        match find(&self.in_process, &key.address, key.workflow) {
            Some(j) => {
                proof {
                    lemma_unique_index(running, j as int, key@);
                    lemma_remove_keeps_distinct(running, j as int);
                }
                self.in_process.remove(j);
            },
            None => {},
        }
    }

    /// Gives up the validations whose time is not after `now`: takes them from the queue and
    /// from the validations in process, and returns them, those from the queue first, each
    /// group in its order. The caller reports each of them as
    /// `HolochainError::ValidationTimeout`.
    pub fn expire(&mut self, now: u64) -> (r: Vec<PendingValidation>)
        requires
            old(self).wf(),
        ensures
            final(self).wf(),
            final(self).queued() == not_due(old(self).queued(), now),
            final(self).in_process() == not_due(old(self).in_process(), now),
            r@ == pendings_of(due(old(self).queued(), now)) + pendings_of(
                due(old(self).in_process(), now),
            ),
    {
        let mut given_up: Vec<PendingValidation> = Vec::new();
        let mut queue: Vec<PendingValidationWithTimeout> = Vec::new();
        let mut running: Vec<PendingValidationWithTimeout> = Vec::new();
        proof {
            lemma_not_due_keeps_distinct(self.queued@, now);
            lemma_not_due_keeps_distinct(self.in_process@, now);
        }
        core::mem::swap(&mut self.queued, &mut queue);
        core::mem::swap(&mut self.in_process, &mut running);
        let mut kept_queue = split_due(queue, now, &mut given_up);
        let mut kept_running = split_due(running, now, &mut given_up);
        core::mem::swap(&mut self.queued, &mut kept_queue);
        core::mem::swap(&mut self.in_process, &mut kept_running);
        proof {
            assert(given_up@ =~= pendings_of(due(old(self).queued(), now)) + pendings_of(
                due(old(self).in_process(), now),
            ));
        }
        given_up
    }
}

} // verus!
