//! Preparing what the rules of an application are asked to judge.
//!
//! To judge the replacement of an entry, or its deletion, the rules are given the old entry
//! and its header too. The node has to fetch them first, which takes time and can fail. So the
//! work is done in two steps: `entry_to_validation_data` either finishes at once or names the
//! address to fetch, and `PendingValidationData::resolve` finishes with what the fetch brought.

use crate::address::Address;
use crate::chain_header::{ChainHeader, EntryWithMetaAndHeader};
use crate::entry::{Entry, EntryBody, EntryWithMeta};
use crate::error::{error_text, ErrorView, HcResult, HolochainError};
use crate::validation::{ValidationError, ValidationErrorView};
use crate::validation_data::{DataView, EntryValidationData, EntryValidationView, ValidationData};
use vstd::prelude::*;
use vstd::string::*;

verus! {

/// What a fetch of an entry with its headers comes to: the entry as it is held and the latest
/// of its headers, or the reason why there is none.
pub open spec fn latest_of(fetched: HcResult<Option<EntryWithMetaAndHeader>>) -> Result<
    (EntryWithMeta, ChainHeader),
    ErrorView,
> {
    match fetched {
        Err(e) => Err(e@),
        Ok(None) => Err(ErrorView::ErrorGeneric("Could not get chain"@)),
        Ok(Some(found)) => if found.headers@.len() == 0 {
            Err(ErrorView::ErrorGeneric("Could not get last entry from chain"@))
        } else {
            Ok((found.entry_with_meta, found.headers@.last()))
        },
    }
}

/// From what a fetch of an entry brought, the entry and the latest of its headers.
///
/// A failed fetch is handed on as it is. A fetch that found nothing, or an entry without a
/// header, is an error.
pub fn get_entry_with_header(fetched: HcResult<Option<EntryWithMetaAndHeader>>) -> (r: HcResult<
    (EntryWithMeta, ChainHeader),
>)
    ensures
        match latest_of(fetched) {
            Ok(pair) => r matches Ok(p) && p == pair,
            Err(e) => r matches Err(f) && f@ == e,
        },
{
    match fetched {
        Err(e) => Err(e),
        Ok(None) => Err(HolochainError::new("Could not get chain")),
        Ok(Some(found)) => {
            let EntryWithMetaAndHeader { entry_with_meta, headers } = found;
            let mut headers = headers;
            match headers.pop() {
                Some(latest) => Ok((entry_with_meta, latest)),
                None => Err(HolochainError::new("Could not get last entry from chain")),
            }
        },
    }
}

/// Which old entry a validation waits for.
#[derive(Clone, Copy, Debug, PartialEq, Eq, Structural)]
pub enum Awaited {
    /// The entry that an application entry replaces.
    Replaced,
    /// The entry that a deletion deletes.
    Deleted,
}

/// A validation whose data waits for an old entry to be fetched.
#[derive(Clone, Debug, PartialEq, Eq)]
pub struct PendingValidationData {
    pub awaited: Awaited,
    pub entry: Entry,
    pub validation_data: ValidationData,
}

/// A `PendingValidationData`, with its validation data as a `DataView`.
pub struct PendingView {
    pub awaited: Awaited,
    pub entry: Entry,
    pub validation_data: DataView,
}

impl View for PendingValidationData {
    type V = PendingView;

    open spec fn view(&self) -> PendingView {
        PendingView {
            awaited: self.awaited,
            entry: self.entry,
            validation_data: self.validation_data@,
        }
    }
}

/// What `entry_to_validation_data` comes to: the finished data or the reason why there is
/// none, or the address of the old entry that has to be fetched first.
#[derive(Debug, PartialEq, Eq)]
pub enum ValidationDataRequest {
    Ready(Result<EntryValidationData, ValidationError>),
    Fetch { address: Address, pending: PendingValidationData },
}

/// What a `ValidationDataRequest` says.
pub enum RequestView {
    Ready(Result<EntryValidationView, ValidationErrorView>),
    Fetch { address: Address, pending: PendingView },
}

impl View for ValidationDataRequest {
    type V = RequestView;

    open spec fn view(&self) -> RequestView {
        match *self {
            ValidationDataRequest::Ready(Ok(data)) => RequestView::Ready(Ok(data@)),
            ValidationDataRequest::Ready(Err(e)) => RequestView::Ready(Err(e@)),
            ValidationDataRequest::Fetch { address, pending } => RequestView::Fetch {
                address,
                pending: pending@,
            },
        }
    }
}

/// The data for the rules of an application that judge `entry`, as far as it can be told
/// without a fetch.
///
/// - An application entry that replaces none (`link` is `None`) is a creation.
/// - An application entry that replaces the entry at `link` waits for that entry.
/// - A deletion waits for the entry that it deletes.
/// - A capability grant is a creation.
/// - For every other kind there is no such data.
pub open spec fn requested(entry: Entry, link: Option<Address>, data: DataView) -> RequestView {
    match entry.body {
        EntryBody::App(_, _) => match link {
            Some(address) => RequestView::Fetch {
                address,
                pending: PendingView { awaited: Awaited::Replaced, entry, validation_data: data },
            },
            None => RequestView::Ready(
                Ok(EntryValidationView::Create { entry, validation_data: data }),
            ),
        },
        EntryBody::Deletion(address) => RequestView::Fetch {
            address,
            pending: PendingView { awaited: Awaited::Deleted, entry, validation_data: data },
        },
        EntryBody::CapTokenGrant => RequestView::Ready(
            Ok(EntryValidationView::Create { entry, validation_data: data }),
        ),
        _ => RequestView::Ready(Err(ValidationErrorView::NotImplemented)),
    }
}

/// Starts to prepare the data for the rules of an application that judge `entry`.
/// `maybe_link_update_delete` is the address of the entry that `entry` replaces, if it
/// replaces one.
pub fn entry_to_validation_data(
    entry: Entry,
    maybe_link_update_delete: Option<Address>,
    validation_data: ValidationData,
) -> (r: ValidationDataRequest)
    ensures
        r@ == requested(entry, maybe_link_update_delete, validation_data@),
{
    match &entry.body {
        EntryBody::App(_, _) => match maybe_link_update_delete {
            Some(address) => ValidationDataRequest::Fetch {
                address,
                pending: PendingValidationData {
                    awaited: Awaited::Replaced,
                    entry,
                    validation_data,
                },
            },
            None => ValidationDataRequest::Ready(
                Ok(EntryValidationData::Create { entry, validation_data }),
            ),
        },
        EntryBody::Deletion(deleted) => {
            let address = deleted.clone();
            ValidationDataRequest::Fetch {
                address,
                pending: PendingValidationData {
                    awaited: Awaited::Deleted,
                    entry,
                    validation_data,
                },
            }
        },
        EntryBody::CapTokenGrant => ValidationDataRequest::Ready(
            Ok(EntryValidationData::Create { entry, validation_data }),
        ),
        _ => ValidationDataRequest::Ready(Err(ValidationError::NotImplemented)),
    }
}

/// How the text of a failure to find an old entry begins.
pub open spec fn not_found_prefix(awaited: Awaited) -> Seq<char> {
    match awaited {
        Awaited::Replaced => "Could not find App Entry during validation: "@,
        Awaited::Deleted => "Could not find Delete Entry during validation: "@,
    }
}

/// The data for the rules of an application, once the fetch of the old entry has ended.
///
/// - With the old entry and its latest header, the data is a modification or a deletion.
/// - A fetch that timed out is handed on as the timeout it is, so that it can be tried again.
/// - Any other failure to get the old entry and a header of it fails the validation; the text
///   ends with the description of the failure.
pub open spec fn resolved(
    pending: PendingView,
    fetched: HcResult<Option<EntryWithMetaAndHeader>>,
) -> Result<EntryValidationView, ValidationErrorView> {
    match latest_of(fetched) {
        Ok((old, header)) => Ok(
            match pending.awaited {
                Awaited::Replaced => EntryValidationView::Modify {
                    new_entry: pending.entry,
                    old_entry: old.entry,
                    old_entry_header: header,
                    validation_data: pending.validation_data,
                },
                Awaited::Deleted => EntryValidationView::Delete {
                    old_entry: old.entry,
                    old_entry_header: header,
                    validation_data: pending.validation_data,
                },
            },
        ),
        Err(ErrorView::Timeout(wait)) => Err(ValidationErrorView::Error(ErrorView::Timeout(wait))),
        Err(e) => Err(ValidationErrorView::Fail(not_found_prefix(pending.awaited) + error_text(e))),
    }
}

impl PendingValidationData {
    /// Finishes the data with what the fetch of the old entry brought.
    pub fn resolve(self, fetched: HcResult<Option<EntryWithMetaAndHeader>>) -> (r: Result<
        EntryValidationData,
        ValidationError,
    >)
        ensures
            match resolved(self@, fetched) {
                Ok(data) => r matches Ok(d) && d@ == data,
                Err(e) => r matches Err(f) && f@ == e,
            },
    {
        let PendingValidationData { awaited, entry, validation_data } = self;
        match get_entry_with_header(fetched) {
            Ok((old, header)) => {
                let EntryWithMeta { entry: old_entry, crud_status: _, maybe_link_update_delete: _ } =
                    old;
                match awaited {
                    Awaited::Replaced => Ok(
                        EntryValidationData::Modify {
                            new_entry: entry,
                            old_entry,
                            old_entry_header: header,
                            validation_data,
                        },
                    ),
                    Awaited::Deleted => Ok(
                        EntryValidationData::Delete {
                            old_entry,
                            old_entry_header: header,
                            validation_data,
                        },
                    ),
                }
            },
            Err(HolochainError::Timeout(wait)) => Err(
                ValidationError::Error(HolochainError::Timeout(wait)),
            ),
            Err(e) => {
                let mut text = match awaited {
                    Awaited::Replaced => String::from_str(
                        "Could not find App Entry during validation: ",
                    ),
                    Awaited::Deleted => String::from_str(
                        "Could not find Delete Entry during validation: ",
                    ),
                };
                let description = e.to_string();
                text.append(description.as_str());
                Err(ValidationError::Fail(text))
            },
        }
    }
}

} // verus!
