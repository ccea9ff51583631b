//! What a validation is given besides the entry itself.

use crate::address::Address;
use crate::chain_header::{headers_before, retain_headers_before, ChainHeader};
use crate::entry::Entry;
use vstd::prelude::*;

verus! {

/// Everything the rules of an application may need to judge an entry: the entry's header and,
/// where the rules ask for them, the entries and the headers of the author's source chain.
#[derive(Clone, Debug, PartialEq, Eq)]
pub struct ValidationPackage {
    pub chain_header: ChainHeader,
    pub source_chain_entries: Option<Vec<Entry>>,
    pub source_chain_headers: Option<Vec<ChainHeader>>,
    pub custom: Option<String>,
}

/// A validation package, with the headers of the source chain as a sequence.
pub struct PackageView {
    pub chain_header: ChainHeader,
    pub source_chain_entries: Option<Vec<Entry>>,
    pub source_chain_headers: Option<Seq<ChainHeader>>,
    pub custom: Option<String>,
}

impl View for ValidationPackage {
    type V = PackageView;

    open spec fn view(&self) -> PackageView {
        PackageView {
            chain_header: self.chain_header,
            source_chain_entries: self.source_chain_entries,
            source_chain_headers: match self.source_chain_headers {
                Some(headers) => Some(headers@),
                None => None,
            },
            custom: self.custom,
        }
    }
}

impl ValidationPackage {
    /// The package that holds only the header `chain_header`.
    pub fn only_header(chain_header: ChainHeader) -> (r: Self)
        ensures
            r@ == (PackageView {
                chain_header,
                source_chain_entries: None,
                source_chain_headers: None,
                custom: None,
            }),
    {
        ValidationPackage {
            chain_header,
            source_chain_entries: None,
            source_chain_headers: None,
            custom: None,
        }
    }
}

/// A validation package and the agents that are the sources of the entry.
#[derive(Clone, Debug, PartialEq, Eq)]
pub struct ValidationData {
    pub package: ValidationPackage,
    pub sources: Vec<Address>,
}

/// Validation data, with its package as a `PackageView`.
pub struct DataView {
    pub package: PackageView,
    pub sources: Vec<Address>,
}

impl View for ValidationData {
    type V = DataView;

    open spec fn view(&self) -> DataView {
        DataView { package: self.package@, sources: self.sources }
    }
}

/// What the rules of an application are asked to judge: the creation of an entry, the
/// replacement of an old entry by a new one, or the deletion of an old entry.
#[derive(Clone, Debug, PartialEq, Eq)]
pub enum EntryValidationData {
    Create { entry: Entry, validation_data: ValidationData },
    Modify {
        new_entry: Entry,
        old_entry: Entry,
        old_entry_header: ChainHeader,
        validation_data: ValidationData,
    },
    Delete { old_entry: Entry, old_entry_header: ChainHeader, validation_data: ValidationData },
}

/// `EntryValidationData`, with its validation data as a `DataView`.
pub enum EntryValidationView {
    Create { entry: Entry, validation_data: DataView },
    Modify {
        new_entry: Entry,
        old_entry: Entry,
        old_entry_header: ChainHeader,
        validation_data: DataView,
    },
    Delete { old_entry: Entry, old_entry_header: ChainHeader, validation_data: DataView },
}

impl View for EntryValidationData {
    type V = EntryValidationView;

    open spec fn view(&self) -> EntryValidationView {
        match *self {
            EntryValidationData::Create { entry, validation_data } => EntryValidationView::Create {
                entry,
                validation_data: validation_data@,
            },
            EntryValidationData::Modify {
                new_entry,
                old_entry,
                old_entry_header,
                validation_data,
            } => EntryValidationView::Modify {
                new_entry,
                old_entry,
                old_entry_header,
                validation_data: validation_data@,
            },
            EntryValidationData::Delete {
                old_entry,
                old_entry_header,
                validation_data,
            } => EntryValidationView::Delete {
                old_entry,
                old_entry_header,
                validation_data: validation_data@,
            },
        }
    }
}

/// The validation data `d` without the source chain headers that were not signed strictly
/// before the header of the entry. Nothing else in it is changed.
pub open spec fn pruned(d: DataView) -> DataView {
    DataView {
        package: PackageView {
            chain_header: d.package.chain_header,
            source_chain_entries: d.package.source_chain_entries,
            source_chain_headers: match d.package.source_chain_headers {
                Some(headers) => Some(headers_before(headers, d.package.chain_header.timestamp)),
                None => None,
            },
            custom: d.package.custom,
        },
        sources: d.sources,
    }
}

/// Whether every source chain header of `d` was signed strictly before the header of the
/// entry.
pub open spec fn holds_only_older_headers(d: DataView) -> bool {
    d.package.source_chain_headers matches Some(headers) ==> forall|i: int|
        0 <= i < headers.len() ==> (#[trigger] headers[i]).timestamp.is_before(
            d.package.chain_header.timestamp,
        )
}

/// Pruned validation data holds only headers older than the entry's own, and pruning it
/// again changes nothing.
pub proof fn pruned_holds_only_older_headers(d: DataView)
    ensures
        holds_only_older_headers(pruned(d)),
        pruned(pruned(d)) == pruned(d),
{
    match d.package.source_chain_headers {
        Some(headers) => {
            let t = d.package.chain_header.timestamp;
            crate::chain_header::headers_before_keeps_exactly_the_older(headers, t);
            headers_before_is_idempotent(headers, t);
        },
        None => {},
    }
}

/// Keeping the older headers of what `headers_before` kept keeps all of it.
pub proof fn headers_before_is_idempotent(
    headers: Seq<ChainHeader>,
    t: crate::address::Timestamp,
)
    ensures
        headers_before(headers_before(headers, t), t) == headers_before(headers, t),
    decreases headers.len(),
{
    if headers.len() > 0 {
        headers_before_is_idempotent(headers.drop_last(), t);
        if headers.last().timestamp.is_before(t) {
            let kept = headers_before(headers, t);
            assert(kept.drop_last() =~= headers_before(headers.drop_last(), t));
        }
    }
}

/// Removes from the validation data the source chain headers that were not signed strictly
/// before the header of the entry.
pub fn prune_source_chain_headers(data: ValidationData) -> (r: ValidationData)
    ensures
        r@ == pruned(data@),
{
    let ValidationData { package, sources } = data;
    let ValidationPackage { chain_header, source_chain_entries, source_chain_headers, custom } =
        package;
    let kept = match source_chain_headers {
        Some(headers) => Some(retain_headers_before(headers, &chain_header.timestamp)),
        None => None,
    };
    ValidationData {
        package: ValidationPackage {
            chain_header,
            source_chain_entries,
            source_chain_headers: kept,
            custom,
        },
        sources,
    }
}

} // verus!
