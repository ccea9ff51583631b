//! Entries: the units of data that agents author and the table holds.

use crate::address::Address;
use vstd::prelude::*;
use vstd::string::*;

verus! {

/// The kind of an entry. Application entries carry the name of their type; the others are the
/// system's own kinds.
#[derive(Clone, Debug, PartialEq, Eq)]
pub enum EntryType {
    App(String),
    Dna,
    AgentId,
    Deletion,
    LinkAdd,
    LinkRemove,
    LinkList,
    ChainHeader,
    ChainMigrate,
    CapTokenClaim,
    CapTokenGrant,
}

/// The name under which a kind of entry is shown: the type's own name for an application
/// entry, a reserved name that starts with `%` for a system entry.
pub open spec fn entry_type_name(t: EntryType) -> Seq<char> {
    match t {
        EntryType::App(name) => name@,
        EntryType::Dna => "%dna"@,
        EntryType::AgentId => "%agent_id"@,
        EntryType::Deletion => "%deletion"@,
        EntryType::LinkAdd => "%link_add"@,
        EntryType::LinkRemove => "%link_remove"@,
        EntryType::LinkList => "%link_list"@,
        EntryType::ChainHeader => "%chain_header"@,
        EntryType::ChainMigrate => "%chain_migrate"@,
        EntryType::CapTokenClaim => "%cap_token_claim"@,
        EntryType::CapTokenGrant => "%cap_token_grant"@,
    }
}

impl EntryType {
    /// The name under which the kind is shown.
    pub fn to_string(&self) -> (r: String)
        ensures
            r@ == entry_type_name(*self),
    {
        match self {
            EntryType::App(name) => name.clone(),
            EntryType::Dna => String::from_str("%dna"),
            EntryType::AgentId => String::from_str("%agent_id"),
            EntryType::Deletion => String::from_str("%deletion"),
            EntryType::LinkAdd => String::from_str("%link_add"),
            EntryType::LinkRemove => String::from_str("%link_remove"),
            EntryType::LinkList => String::from_str("%link_list"),
            EntryType::ChainHeader => String::from_str("%chain_header"),
            EntryType::ChainMigrate => String::from_str("%chain_migrate"),
            EntryType::CapTokenClaim => String::from_str("%cap_token_claim"),
            EntryType::CapTokenGrant => String::from_str("%cap_token_grant"),
        }
    }

    /// Whether the kind is the DNA entry, the first of every chain.
    pub fn is_dna(&self) -> (r: bool)
        ensures
            r == (*self is Dna),
    {
        match self {
            EntryType::Dna => true,
            _ => false,
        }
    }
}

/// A link from a base entry to a target entry, with the type and the tag it was made under.
#[derive(Clone, Debug, PartialEq, Eq)]
pub struct Link {
    pub base: Address,
    pub target: Address,
    pub link_type: String,
    pub tag: String,
}

/// What an entry holds, by kind. Of each kind only that is kept which validation, holding or
/// the state dump reads; the rest of the entry is in `Entry::content`.
#[derive(Clone, Debug, PartialEq, Eq)]
pub enum EntryBody {
    Dna,
    /// An application entry: the name of its type, and its value.
    App(String, String),
    /// An agent's identity: the nickname, and the public signing key.
    AgentId(String, String),
    LinkAdd(Link),
    /// The link to remove, and the addresses of the link entries that added it.
    LinkRemove(Link, Vec<Address>),
    /// The address of the entry that is deleted.
    Deletion(Address),
    CapTokenGrant,
    CapTokenClaim,
    ChainHeader,
    ChainMigrate,
    LinkList,
}

/// An entry, with the address of its canonical serialization.
///
/// The address is the hash of `content`; the node computes it when it reads the entry, and
/// this library compares it against what headers claim.
#[derive(Clone, Debug, PartialEq, Eq)]
pub struct Entry {
    pub address: Address,
    pub content: String,
    pub body: EntryBody,
}

/// The kind of an entry with the body `b`.
pub open spec fn body_type(b: EntryBody) -> EntryType {
    match b {
        EntryBody::Dna => EntryType::Dna,
        EntryBody::App(name, _) => EntryType::App(name),
        EntryBody::AgentId(_, _) => EntryType::AgentId,
        EntryBody::LinkAdd(_) => EntryType::LinkAdd,
        EntryBody::LinkRemove(_, _) => EntryType::LinkRemove,
        EntryBody::Deletion(_) => EntryType::Deletion,
        EntryBody::CapTokenGrant => EntryType::CapTokenGrant,
        EntryBody::CapTokenClaim => EntryType::CapTokenClaim,
        EntryBody::ChainHeader => EntryType::ChainHeader,
        EntryBody::ChainMigrate => EntryType::ChainMigrate,
        EntryBody::LinkList => EntryType::LinkList,
    }
}

impl Entry {
    /// An application entry of the type `entry_type` with the value `value`, whose content is
    /// `content` and whose address is `address`.
    pub fn app(entry_type: &str, value: &str, content: &str, address: Address) -> (r: Self)
        ensures
            r.address == address,
            r.content@ == content@,
            r.body matches EntryBody::App(t, v) && t@ == entry_type@ && v@ == value@,
    {
        Entry {
            address,
            content: String::from_str(content),
            body: EntryBody::App(String::from_str(entry_type), String::from_str(value)),
        }
    }

    /// The kind of the entry.
    pub open spec fn spec_entry_type(&self) -> EntryType {
        body_type(self.body)
    }

    /// The kind of the entry.
    pub fn entry_type(&self) -> (r: EntryType)
        ensures
            r == self.spec_entry_type(),
    {
        match &self.body {
            EntryBody::Dna => EntryType::Dna,
            EntryBody::App(name, _) => EntryType::App(name.clone()),
            EntryBody::AgentId(_, _) => EntryType::AgentId,
            EntryBody::LinkAdd(_) => EntryType::LinkAdd,
            EntryBody::LinkRemove(_, _) => EntryType::LinkRemove,
            EntryBody::Deletion(_) => EntryType::Deletion,
            EntryBody::CapTokenGrant => EntryType::CapTokenGrant,
            EntryBody::CapTokenClaim => EntryType::CapTokenClaim,
            EntryBody::ChainHeader => EntryType::ChainHeader,
            EntryBody::ChainMigrate => EntryType::ChainMigrate,
            EntryBody::LinkList => EntryType::LinkList,
        }
    }
}

/// How an entry stands in the table after the changes made to it.
#[derive(Clone, Copy, Debug, PartialEq, Eq, Structural)]
pub enum CrudStatus {
    Live,
    Rejected,
    Deleted,
    Modified,
    Locked,
}

/// An entry as the table holds it: with its standing, and the address of the entry that
/// replaced or deleted it, if one did.
#[derive(Clone, Debug, PartialEq, Eq)]
pub struct EntryWithMeta {
    pub entry: Entry,
    pub crud_status: CrudStatus,
    pub maybe_link_update_delete: Option<Address>,
}

} // verus!
