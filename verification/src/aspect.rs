//! Aspects: what the table holds and serves of an entry.

use crate::address::Address;
use crate::chain_header::ChainHeader;
use crate::entry::{Entry, Link};
use vstd::prelude::*;

verus! {

/// What an aspect asserts of its entry.
#[derive(Clone, Debug, PartialEq, Eq)]
pub enum AspectBody {
    /// The entry itself, with the header it was authored under.
    Content(Entry, ChainHeader),
    /// Another header for the same entry.
    Header(ChainHeader),
    /// A link that starts at the entry.
    LinkAdd(Link, ChainHeader),
    /// The removal of a link that starts at the entry, with the addresses of the link entries
    /// that added it.
    LinkRemove(Link, Vec<Address>, ChainHeader),
    /// The entry that replaces the entry.
    Update(Entry, ChainHeader),
    /// The deletion of the entry.
    Deletion(ChainHeader),
}

/// An aspect of an entry, with its own address. Two aspects with the same address are the
/// same aspect.
#[derive(Clone, Debug, PartialEq, Eq)]
pub struct EntryAspect {
    pub address: Address,
    pub body: AspectBody,
}

/// A peer's request for the aspects of an entry.
///
/// `aspect_address_list` names the aspects that the peer asks for. It is carried along and
/// not looked at: the answer holds every aspect that the node has.
#[derive(Clone, Debug, PartialEq, Eq)]
pub struct FetchEntryData {
    pub space_address: Address,
    pub entry_address: Address,
    pub request_id: String,
    pub provider_agent_id: Address,
    pub aspect_address_list: Option<Vec<Address>>,
}

/// Whether one of `aspects` has the address `a`.
pub open spec fn holds_aspect(aspects: Seq<EntryAspect>, a: Seq<char>) -> bool {
    exists|i: int| 0 <= i < aspects.len() && (#[trigger] aspects[i]).address@ == a
}

/// Whether no two of `aspects` have the same address.
pub open spec fn distinct_aspects(aspects: Seq<EntryAspect>) -> bool {
    forall|i: int, j: int|
        0 <= i < j < aspects.len() ==> (#[trigger] aspects[i]).address@ != (
        #[trigger] aspects[j]).address@
}

/// `aspects` with `aspect` at its end, unless an aspect with that address is among them
/// already.
pub open spec fn with_aspect(aspects: Seq<EntryAspect>, aspect: EntryAspect) -> Seq<EntryAspect> {
    if holds_aspect(aspects, aspect.address@) {
        aspects
    } else {
        aspects.push(aspect)
    }
}

/// `aspects` with each of `more` added in turn, as `with_aspect` adds one.
pub open spec fn with_aspects(aspects: Seq<EntryAspect>, more: Seq<EntryAspect>) -> Seq<
    EntryAspect,
>
    decreases more.len(),
{
    if more.len() == 0 {
        aspects
    } else {
        with_aspect(with_aspects(aspects, more.drop_last()), more.last())
    }
}

/// Adding aspects keeps those that were there, in their places, adds no address twice, and
/// adds exactly the addresses of `more`: an address is among the result if and only if it was
/// among `aspects` or is among `more`. Every aspect of the result is one of `aspects` or one
/// of `more`.
pub proof fn with_aspects_is_the_union(aspects: Seq<EntryAspect>, more: Seq<EntryAspect>)
    ensures
        aspects.len() <= with_aspects(aspects, more).len() <= aspects.len() + more.len(),
        forall|i: int| 0 <= i < aspects.len() ==> with_aspects(aspects, more)[i] == aspects[i],
        distinct_aspects(aspects) ==> distinct_aspects(with_aspects(aspects, more)),
        forall|a: Seq<char>|
            holds_aspect(with_aspects(aspects, more), a) <==> holds_aspect(aspects, a)
                || holds_aspect(more, a),
        forall|i: int|
            0 <= i < with_aspects(aspects, more).len() ==> aspects.contains(
                #[trigger] with_aspects(aspects, more)[i],
            ) || more.contains(with_aspects(aspects, more)[i]),
    decreases more.len(),
{
    let all = with_aspects(aspects, more);
    if more.len() > 0 {
        let front = more.drop_last();
        let before = with_aspects(aspects, front);
        with_aspects_is_the_union(aspects, front);
        assert forall|a: Seq<char>| holds_aspect(all, a) <==> holds_aspect(aspects, a)
            || holds_aspect(more, a) by {
            if holds_aspect(all, a) && !holds_aspect(aspects, a) {
                let i = choose|i: int| 0 <= i < all.len() && (#[trigger] all[i]).address@ == a;
                if i < before.len() {
                    let j = choose|j: int|
                        0 <= j < front.len() && (#[trigger] front[j]).address@ == a;
                    assert(more[j].address@ == a);
                } else {
                    assert(more[more.len() - 1].address@ == a);
                }
            }
            if holds_aspect(aspects, a) {
                let i = choose|i: int|
                    0 <= i < aspects.len() && (#[trigger] aspects[i]).address@ == a;
                assert(all[i].address@ == a);
            }
            if holds_aspect(more, a) {
                let j = choose|j: int| 0 <= j < more.len() && (#[trigger] more[j]).address@ == a;
                if j < front.len() {
                    assert(front[j].address@ == a);
                }
                if holds_aspect(before, a) {
                    let i = choose|i: int|
                        0 <= i < before.len() && (#[trigger] before[i]).address@ == a;
                    assert(all[i].address@ == a);
                } else {
                    assert(all[all.len() - 1].address@ == a);
                }
            }
        }
        assert forall|i: int| 0 <= i < all.len() implies aspects.contains(#[trigger] all[i])
            || more.contains(all[i]) by {
            if i < before.len() && !aspects.contains(before[i]) {
                let j = choose|j: int| 0 <= j < front.len() && front[j] == before[i];
                assert(more[j] == all[i]);
            }
        }
    }
}

/// Whether one of `aspects` has the address of `aspect`.
pub fn contains_aspect(aspects: &Vec<EntryAspect>, aspect: &EntryAspect) -> (r: bool)
    ensures
        r == holds_aspect(aspects@, aspect.address@),
{
    let mut i: usize = 0;
    while i < aspects.len()
        invariant
            i <= aspects.len(),
            forall|k: int| 0 <= k < i ==> (#[trigger] aspects@[k]).address@ != aspect.address@,
        decreases aspects.len() - i,
    {
        if aspects[i].address.same(&aspect.address) {
            return true;
        }
        i = i + 1;
    }
    false
}

/// Adds each of `more` to `aspects`, in turn, unless an aspect with its address is among
/// them already.
pub fn add_aspects(aspects: &mut Vec<EntryAspect>, more: Vec<EntryAspect>)
    ensures
        final(aspects)@ == with_aspects(old(aspects)@, more@),
{
    let ghost whole = more@;
    let ghost before = aspects@;
    for aspect in it: more
        invariant
            it.seq() == whole,
            aspects@ == with_aspects(before, whole.take(it.index() as int)),
    {
        proof {
            let i = it.index() as int;
            assert(whole.take(i + 1).drop_last() =~= whole.take(i));
        }
        if !contains_aspect(aspects, &aspect) {
            aspects.push(aspect);
        }
    }
    proof {
        assert(whole.take(whole.len() as int) =~= whole);
    }
}

} // verus!
