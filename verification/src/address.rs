//! Content addresses and header timestamps.

use crate::text::{joined, listed};
use vstd::prelude::*;
use vstd::string::*;

verus! {

/// The address of a piece of content: the text form of its hash.
///
/// An address is opaque to this library. It is compared, copied and handed on, never computed
/// here. Its view is the sequence of its characters.
#[derive(Debug, PartialEq, Eq, PartialOrd, Ord, Hash)]
pub struct Address {
    pub hash: String,
}

impl View for Address {
    type V = Seq<char>;

    open spec fn view(&self) -> Seq<char> {
        self.hash@
    }
}

impl Clone for Address {
    fn clone(&self) -> (r: Self)
        ensures
            r == *self,
    {
        Address { hash: self.hash.clone() }
    }
}

impl Address {
    /// The address whose text is `hash`.
    pub fn new(hash: &str) -> (r: Self)
        ensures
            r@ == hash@,
    {
        Address { hash: String::from_str(hash) }
    }

    /// Whether two addresses have the same text.
    pub fn same(&self, other: &Address) -> (r: bool)
        ensures
            r == (self@ == other@),
    {
        self.hash == other.hash
    }

    /// The text of the address.
    pub fn to_string(&self) -> (r: String)
        ensures
            r@ == self@,
    {
        self.hash.clone()
    }
}

/// The views of a sequence of addresses, in the same order.
pub open spec fn address_views(s: Seq<Address>) -> Seq<Seq<char>> {
    Seq::new(s.len(), |i: int| s[i]@)
}

/// Joins the texts of `addresses` with `separator` between each two.
pub fn join_addresses(addresses: &Vec<Address>, separator: &str) -> (r: String)
    ensures
        r@ == joined(address_views(addresses@), separator@),
{
    let mut out = String::new();
    let mut i: usize = 0;
    while i < addresses.len()
        invariant
            i <= addresses.len(),
            out@ == joined(address_views(addresses@).take(i as int), separator@),
        decreases addresses.len() - i,
    {
        proof {
            let all = address_views(addresses@);
            assert(all.take(i + 1).drop_last() =~= all.take(i as int));
        }
        if i > 0 {
            out.append(separator);
        }
        out.append(addresses[i].hash.as_str());
        i = i + 1;
    }
    proof {
        let all = address_views(addresses@);
        assert(all.take(addresses.len() as int) =~= all);
    }
    out
}

/// Writes `addresses` as a list: joined with a comma and a blank, in square brackets.
pub fn list_addresses(addresses: &Vec<Address>) -> (r: String)
    ensures
        r@ == listed(address_views(addresses@)),
{
    let mut out = String::from_str("[");
    let inner = join_addresses(addresses, ", ");
    out.append(inner.as_str());
    out.append("]");
    out
}

/// The moment a header was signed: whole seconds since the epoch, and the nanoseconds within
/// the second. Timestamps are ordered by the seconds first, then by the nanoseconds.
#[derive(Clone, Copy, Debug, PartialEq, Eq, Structural, PartialOrd, Ord, Hash)]
pub struct Timestamp {
    pub seconds: i64,
    pub nanos: u32,
}

impl Timestamp {
    /// The timestamp of `seconds` and `nanos`.
    pub fn new(seconds: i64, nanos: u32) -> (r: Self)
        ensures
            r.seconds == seconds,
            r.nanos == nanos,
    {
        Timestamp { seconds, nanos }
    }

    /// `self` lies strictly before `other`.
    pub open spec fn is_before(self, other: Timestamp) -> bool {
        self.seconds < other.seconds || (self.seconds == other.seconds && self.nanos < other.nanos)
    }

    /// Whether `self` lies strictly before `other`.
    pub fn before(&self, other: &Timestamp) -> (r: bool)
        ensures
            r == self.is_before(*other),
    {
        self.seconds < other.seconds || (self.seconds == other.seconds && self.nanos < other.nanos)
    }
}

/// No timestamp lies before itself, and of two that differ one lies before the other; the order
/// is transitive.
pub proof fn timestamps_are_totally_ordered(a: Timestamp, b: Timestamp, c: Timestamp)
    ensures
        !a.is_before(a),
        a == b || a.is_before(b) || b.is_before(a),
        !(a.is_before(b) && b.is_before(a)),
        a.is_before(b) && b.is_before(c) ==> a.is_before(c),
{
}

} // verus!
