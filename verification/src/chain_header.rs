//! Chain headers: the signed records that bind an entry to its author's source chain.

use crate::address::{Address, Timestamp};
use crate::entry::{Entry, EntryType, EntryWithMeta};
use vstd::prelude::*;
use vstd::string::*;

verus! {

/// An agent's claim to have authored an entry: the agent's address and its signature.
#[derive(Debug, PartialEq, Eq)]
pub struct Provenance {
    pub source: Address,
    pub signature: String,
}

impl Clone for Provenance {
    fn clone(&self) -> (r: Self)
        ensures
            r == *self,
    {
        Provenance { source: self.source.clone(), signature: self.signature.clone() }
    }
}

impl Provenance {
    /// The claim of the agent `source` with the signature `signature`.
    pub fn new(source: Address, signature: &str) -> (r: Self)
        ensures
            r.source == source,
            r.signature@ == signature@,
    {
        Provenance { source, signature: String::from_str(signature) }
    }
}

/// The header of an entry in a source chain.
///
/// `address` is the address of the header itself, `entry_address` the one it claims for its
/// entry, `link` the address of the header before it in the chain, if there is one.
#[derive(Clone, Debug, PartialEq, Eq)]
pub struct ChainHeader {
    pub address: Address,
    pub entry_type: EntryType,
    pub entry_address: Address,
    pub timestamp: Timestamp,
    pub link: Option<Address>,
    pub provenances: Vec<Provenance>,
}

/// An entry together with the header that was made for it.
#[derive(Clone, Debug, PartialEq, Eq)]
pub struct EntryWithHeader {
    pub entry: Entry,
    pub header: ChainHeader,
}

/// An entry as the table holds it, with all the headers known for it, oldest first.
#[derive(Clone, Debug, PartialEq, Eq)]
pub struct EntryWithMetaAndHeader {
    pub entry_with_meta: EntryWithMeta,
    pub headers: Vec<ChainHeader>,
}

/// The headers of `headers` that were signed strictly before `t`, in their order.
pub open spec fn headers_before(headers: Seq<ChainHeader>, t: Timestamp) -> Seq<ChainHeader>
    decreases headers.len(),
{
    if headers.len() == 0 {
        Seq::empty()
    } else if headers.last().timestamp.is_before(t) {
        headers_before(headers.drop_last(), t).push(headers.last())
    } else {
        headers_before(headers.drop_last(), t)
    }
}

/// Every header that `headers_before` keeps was signed strictly before `t` and is one of
/// `headers`; and every header of `headers` that was signed strictly before `t` is kept.
pub proof fn headers_before_keeps_exactly_the_older(headers: Seq<ChainHeader>, t: Timestamp)
    ensures
        headers_before(headers, t).len() <= headers.len(),
        forall|i: int|
            0 <= i < headers_before(headers, t).len() ==> (#[trigger] headers_before(
                headers,
                t,
            )[i]).timestamp.is_before(t) && headers.contains(headers_before(headers, t)[i]),
        forall|j: int|
            0 <= j < headers.len() && (#[trigger] headers[j]).timestamp.is_before(t)
                ==> headers_before(headers, t).contains(headers[j]),
    decreases headers.len(),
{
    if headers.len() > 0 {
        let front = headers.drop_last();
        let kept = headers_before(headers, t);
        let kept_front = headers_before(front, t);
        headers_before_keeps_exactly_the_older(front, t);
        assert forall|i: int| 0 <= i < kept.len() implies (#[trigger] kept[i]).timestamp.is_before(
            t,
        ) && headers.contains(kept[i]) by {
            if i < kept_front.len() {
                assert(kept[i] == kept_front[i]);
                let k = choose|k: int| 0 <= k < front.len() && front[k] == kept_front[i];
                assert(headers[k] == kept[i]);
            } else {
                assert(kept[i] == headers[headers.len() - 1]);
            }
        }
        assert forall|j: int|
            0 <= j < headers.len() && (#[trigger] headers[j]).timestamp.is_before(
                t,
            ) implies kept.contains(headers[j]) by {
            if j < front.len() {
                assert(front[j] == headers[j]);
                assert(kept_front.contains(front[j]));
                let k = choose|k: int| 0 <= k < kept_front.len() && kept_front[k] == front[j];
                assert(kept[k] == headers[j]);
            } else {
                assert(kept[kept.len() - 1] == headers[j]);
            }
        }
    }
}

/// Removes from `headers` those that were not signed strictly before `t`, and keeps the
/// others in their order.
pub fn retain_headers_before(headers: Vec<ChainHeader>, t: &Timestamp) -> (kept: Vec<ChainHeader>)
    ensures
        kept@ == headers_before(headers@, *t),
{
    let ghost whole = headers@;
    let mut kept: Vec<ChainHeader> = Vec::new();
    for header in it: headers
        invariant
            it.seq() == whole,
            kept@ == headers_before(whole.take(it.index() as int), *t),
    {
        proof {
            let i = it.index() as int;
            assert(whole.take(i + 1).drop_last() =~= whole.take(i));
        }
        if header.timestamp.before(t) {
            kept.push(header);
        }
    }
    proof {
        assert(whole.take(whole.len() as int) =~= whole);
    }
    kept
}

} // verus!
