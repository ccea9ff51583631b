//! A picture of the node's state for diagnosis.
//!
//! The picture is made from a copy of the state that the caller took under one read of it. It
//! owns everything it shows, so nothing that happens to the state afterwards changes it.

use crate::address::Address;
use crate::chain_header::EntryWithHeader;
use crate::entry::{entry_type_name, Entry, EntryBody};
use crate::error::{ErrorView, HcResult, HolochainError};
use crate::network::{DirectMessage, NetworkState, QueryKey};
use crate::pending::{PendingValidationWithTimeout, PendingValidations};
use vstd::prelude::*;
use vstd::string::*;

verus! {

/// A call of a function of the application.
#[derive(Debug, PartialEq, Eq)]
pub struct ZomeFnCall {
    pub id: String,
    pub zome_name: String,
    pub fn_name: String,
    pub parameters: String,
}

impl Clone for ZomeFnCall {
    fn clone(&self) -> (r: Self)
        ensures
            r == *self,
    {
        ZomeFnCall {
            id: self.id.clone(),
            zome_name: self.zome_name.clone(),
            fn_name: self.fn_name.clone(),
            parameters: self.parameters.clone(),
        }
    }
}

impl View for ZomeFnCall {
    type V = (Seq<char>, Seq<char>, Seq<char>, Seq<char>);

    open spec fn view(&self) -> (Seq<char>, Seq<char>, Seq<char>, Seq<char>) {
        (self.id@, self.zome_name@, self.fn_name@, self.parameters@)
    }
}

impl ZomeFnCall {
    /// Whether two calls are the same call.
    pub fn same(&self, other: &ZomeFnCall) -> (r: bool)
        ensures
            r == (self@ == other@),
    {
        self.id == other.id && self.zome_name == other.zome_name && self.fn_name == other.fn_name
            && self.parameters == other.parameters
    }
}

/// One fact of the table's index: that `entity` has `attribute` with `value`, as the
/// `index`-th fact recorded.
#[derive(Clone, Debug, PartialEq, Eq)]
pub struct EntityAttributeValueIndex {
    pub entity: Address,
    pub attribute: String,
    pub value: Address,
    pub index: i64,
}

/// What a state dump is to show besides what it always shows.
#[derive(Clone, Copy, Debug, PartialEq, Eq, Structural)]
pub struct DumpOptions {
    /// Whether the dump shows the whole index of the table.
    pub include_eavis: bool,
}

/// A copy of the node's state, as much of it as a dump shows.
#[derive(Clone, Debug, PartialEq, Eq)]
pub struct StateSnapshot {
    /// The agent's source chain, as the chain is walked, every header with its entry.
    pub source_chain: Vec<EntryWithHeader>,
    /// The calls that wait to be run.
    pub queued_zome_calls: Vec<ZomeFnCall>,
    /// The calls that are running.
    pub running_zome_calls: Vec<ZomeFnCall>,
    /// What is recorded of the calls that are running: the call, and its record, serialized.
    pub hdk_function_calls: Vec<(ZomeFnCall, String)>,
    /// The calls that have ended, each with its result.
    pub zome_call_results: Vec<(ZomeFnCall, HcResult<String>)>,
    /// The network's part of the state.
    pub network: NetworkState,
    /// The validations that wait.
    pub pending: PendingValidations,
    /// What the node holds for the network: for each entry, the addresses of its aspects.
    pub held_aspects: Vec<(Address, Vec<Address>)>,
    /// The index of the table, where the caller read it.
    pub eavis: Vec<EntityAttributeValueIndex>,
}

/// A picture of the node's state.
#[derive(Clone, Debug, PartialEq, Eq)]
pub struct StateDump {
    pub queued_calls: Vec<ZomeFnCall>,
    pub running_calls: Vec<(ZomeFnCall, Option<String>)>,
    pub call_results: Vec<(ZomeFnCall, HcResult<String>)>,
    pub query_flows: Vec<QueryKey>,
    pub validation_package_flows: Vec<Address>,
    pub direct_message_flows: Vec<(String, DirectMessage)>,
    pub queued_holding_workflows: Vec<PendingValidationWithTimeout>,
    pub in_process_holding_workflows: Vec<PendingValidationWithTimeout>,
    pub held_aspects: Vec<(Address, Vec<Address>)>,
    pub source_chain: Vec<(EntryWithHeader, Address)>,
    pub eavis: Option<Vec<EntityAttributeValueIndex>>,
}

/// The source chain as a dump shows it: in the reverse of the order in which it was walked,
/// without the DNA, every entry and header with the address of the header.
pub open spec fn chain_dump(chain: Seq<EntryWithHeader>) -> Seq<(EntryWithHeader, Address)>
    decreases chain.len(),
{
    if chain.len() == 0 {
        Seq::empty()
    } else if chain.last().entry.body is Dna {
        chain_dump(chain.drop_last())
    } else {
        seq![(chain.last(), chain.last().header.address)] + chain_dump(chain.drop_last())
    }
}

/// The keys of the queries that have no answer yet, in their order.
pub open spec fn open_queries(results: Seq<(QueryKey, Option<HcResult<String>>)>) -> Seq<QueryKey>
    decreases results.len(),
{
    if results.len() == 0 {
        Seq::empty()
    } else if results.last().1 is None {
        open_queries(results.drop_last()).push(results.last().0)
    } else {
        open_queries(results.drop_last())
    }
}

/// What is recorded of `call`: the record of the first of `records` from `from` on that is
/// for this call, if there is one.
pub open spec fn record_of(records: Seq<(ZomeFnCall, String)>, call: ZomeFnCall, from: int) -> Option<
    String,
>
    decreases records.len() - from,
{
    if from < 0 || from >= records.len() {
        None
    } else if records[from].0@ == call@ {
        Some(records[from].1)
    } else {
        record_of(records, call, from + 1)
    }
}

/// The running calls as a dump shows them: each with what is recorded of it.
pub open spec fn running_dump(running: Seq<ZomeFnCall>, records: Seq<(ZomeFnCall, String)>) -> Seq<
    (ZomeFnCall, Option<String>),
> {
    Seq::new(running.len(), |i: int| (running[i], record_of(records, running[i], 0)))
}

/// Whether `dump` is the picture of `snapshot` under `options`.
///
/// - The source chain is shown as `chain_dump` says.
/// - The calls that wait and the calls that have ended are shown as they are; the calls that
///   are running, each with what is recorded of it.
/// - Of the queries, the keys of those without an answer are shown. Of the requests for
///   validation packages, the addresses of the entries of those without an answer. The
///   direct messages are shown as they are.
/// - The waiting validations and what the node holds are shown as they are.
/// - The index of the table is shown if `options` asks for it.
pub open spec fn is_dump_of(dump: StateDump, snapshot: StateSnapshot, options: DumpOptions) -> bool {
    let unanswered = snapshot.network.get_validation_package_results.unanswered();
    &&& dump.source_chain@ == chain_dump(snapshot.source_chain@)
    &&& dump.queued_calls == snapshot.queued_zome_calls
    &&& dump.running_calls@ == running_dump(
        snapshot.running_zome_calls@,
        snapshot.hdk_function_calls@,
    )
    &&& dump.call_results == snapshot.zome_call_results
    &&& dump.query_flows@ == open_queries(snapshot.network.get_query_results@)
    &&& dump.validation_package_flows@.len() == unanswered.len()
    &&& forall|i: int|
        0 <= i < unanswered.len() ==> (#[trigger] dump.validation_package_flows@[i])@
            == unanswered[i].0
    &&& dump.direct_message_flows == snapshot.network.direct_message_connections
    &&& dump.queued_holding_workflows@ == snapshot.pending.queued()
    &&& dump.in_process_holding_workflows@ == snapshot.pending.in_process()
    &&& dump.held_aspects == snapshot.held_aspects
    &&& if options.include_eavis {
        dump.eavis == Some(snapshot.eavis)
    } else {
        dump.eavis is None
    }
}

fn dump_chain(chain: Vec<EntryWithHeader>) -> (r: Vec<(EntryWithHeader, Address)>)
    ensures
        r@ == chain_dump(chain@),
{
    let ghost whole = chain@;
    let mut chain = chain;
    let mut out: Vec<(EntryWithHeader, Address)> = Vec::new();
    while chain.len() > 0
        invariant
            out@ + chain_dump(chain@) == chain_dump(whole),
        decreases chain.len(),
    {
        let ghost before = out@;
        let ghost rest = chain@;
        let shown = chain.pop();
        match shown {
            Some(entry_with_header) => {
                if !entry_with_header.entry.entry_type().is_dna() {
                    let address = entry_with_header.header.address.clone();
                    out.push((entry_with_header, address));
                    proof {
                        assert(out@ + chain_dump(chain@) =~= before + chain_dump(rest));
                    }
                }
            },
            None => {},
        }
    }
    proof {
        assert(out@ + chain_dump(chain@) =~= out@);
    }
    out
}

fn dump_queries(results: Vec<(QueryKey, Option<HcResult<String>>)>) -> (r: Vec<QueryKey>)
    ensures
        r@ == open_queries(results@),
{
    let ghost whole = results@;
    let mut out: Vec<QueryKey> = Vec::new();
    for result in it: results
        invariant
            it.seq() == whole,
            out@ == open_queries(whole.take(it.index() as int)),
    {
        proof {
            let i = it.index() as int;
            assert(whole.take(i + 1).drop_last() =~= whole.take(i));
        }
        let (key, answer) = result;
        if answer.is_none() {
            out.push(key);
        }
    }
    proof {
        assert(whole.take(whole.len() as int) =~= whole);
    }
    out
}

fn find_record(records: &Vec<(ZomeFnCall, String)>, call: &ZomeFnCall) -> (r: Option<String>)
    ensures
        r == record_of(records@, *call, 0),
{
    let mut i: usize = 0;
    while i < records.len()
        invariant
            i <= records.len(),
            record_of(records@, *call, 0) == record_of(records@, *call, i as int),
        decreases records.len() - i,
    {
        if records[i].0.same(call) {
            return Some(records[i].1.clone());
        }
        i = i + 1;
    }
    None
}

fn dump_running(running: Vec<ZomeFnCall>, records: &Vec<(ZomeFnCall, String)>) -> (r: Vec<
    (ZomeFnCall, Option<String>),
>)
    ensures
        r@ == running_dump(running@, records@),
{
    let ghost whole = running@;
    let mut out: Vec<(ZomeFnCall, Option<String>)> = Vec::new();
    for call in it: running
        invariant
            it.seq() == whole,
            out@ == running_dump(whole.take(it.index() as int), records@),
    {
        let ghost before = out@;
        let record = find_record(records, &call);
        out.push((call, record));
        proof {
            let i = it.index() as int;
            assert(out@ =~= running_dump(whole.take(i + 1), records@));
        }
    }
    proof {
        assert(whole.take(whole.len() as int) =~= whole);
    }
    out
}

impl StateDump {
    /// The picture of `snapshot` under `options`.
    pub fn new(snapshot: StateSnapshot, options: DumpOptions) -> (r: StateDump)
        ensures
            is_dump_of(r, snapshot, options),
    {
        let StateSnapshot {
            source_chain,
            queued_zome_calls,
            running_zome_calls,
            hdk_function_calls,
            zome_call_results,
            network,
            pending,
            held_aspects,
            eavis,
        } = snapshot;
        let source_chain = dump_chain(source_chain);
        let running_calls = dump_running(running_zome_calls, &hdk_function_calls);
        let validation_package_flows =
            network.get_validation_package_results.unanswered_addresses();
        let NetworkState {
            initialized: _,
            get_validation_package_results: _,
            get_query_results,
            direct_message_connections,
        } = network;
        let query_flows = dump_queries(get_query_results);
        let (queued_holding_workflows, in_process_holding_workflows) = pending.into_parts();
        let eavis = if options.include_eavis {
            Some(eavis)
        } else {
            None
        };
        StateDump {
            queued_calls: queued_zome_calls,
            running_calls,
            call_results: zome_call_results,
            query_flows,
            validation_package_flows,
            direct_message_flows: direct_message_connections,
            queued_holding_workflows,
            in_process_holding_workflows,
            held_aspects,
            source_chain,
            eavis,
        }
    }
}

/// What `from` returns is stated in the `ensures` of `from` itself, as a relation between
/// the picture and the state.
impl vstd::std_specs::convert::FromSpecImpl<StateSnapshot> for StateDump {
    open spec fn obeys_from_spec() -> bool {
        false
    }

    open spec fn from_spec(snapshot: StateSnapshot) -> Self {
        choose|dump: StateDump| is_dump_of(dump, snapshot, DumpOptions { include_eavis: false })
    }
}

impl From<StateSnapshot> for StateDump {
    /// The picture of `snapshot` without the index of the table.
    fn from(snapshot: StateSnapshot) -> (r: StateDump)
        ensures
            is_dump_of(r, snapshot, DumpOptions { include_eavis: false }),
    {
        StateDump::new(snapshot, DumpOptions { include_eavis: false })
    }
}

/// What the store holds at an address: the content as it is stored, and the entry that it
/// is, where it can be read as one.
#[derive(Clone, Debug, PartialEq, Eq)]
pub struct StoredContent {
    pub raw: String,
    pub entry: Option<Entry>,
}

/// How a link is shown: its type and tag, and on a line of its own its base and target.
pub open spec fn link_text(link: crate::entry::Link) -> Seq<char> {
    "("@ + link.link_type@ + "#"@ + link.tag@ + ")\n\t"@ + link.base@ + " => "@ + link.target@
}

/// The type and the content of a stored entry, as they are shown.
///
/// The DNA is not shown. Of an agent, the nickname is shown; of a link that is added or
/// removed, the link; of an application entry, the name of its type and its value; of every
/// other entry, its content. Content that is no entry is shown as it is, under the type
/// `UNKNOWN`.
pub open spec fn shown(content: StoredContent) -> (Seq<char>, Seq<char>) {
    match content.entry {
        Some(entry) => match entry.body {
            EntryBody::Dna => (entry_type_name(entry.spec_entry_type()), "DNA omitted"@),
            EntryBody::AgentId(nick, _) => (entry_type_name(entry.spec_entry_type()), nick@),
            EntryBody::LinkAdd(link) => (entry_type_name(entry.spec_entry_type()), link_text(link)),
            EntryBody::LinkRemove(link, _) => (
                entry_type_name(entry.spec_entry_type()),
                link_text(link),
            ),
            EntryBody::App(name, value) => (name@, value@),
            _ => (entry_type_name(entry.spec_entry_type()), entry.content@),
        },
        None => ("UNKNOWN"@, content.raw@),
    }
}

/// What a read of the store at an address comes to: the type and the content to show, or the
/// error. Where the store holds nothing at the address, the entry is not found.
pub open spec fn content_and_type(fetched: HcResult<Option<StoredContent>>) -> Result<
    (Seq<char>, Seq<char>),
    ErrorView,
> {
    match fetched {
        Err(e) => Err(e@),
        Ok(None) => Err(ErrorView::EntryNotFoundLocally),
        Ok(Some(content)) => Ok(shown(content)),
    }
}

fn show_link(link: &crate::entry::Link) -> (r: String)
    ensures
        r@ == link_text(*link),
{
    let mut text = String::from_str("(");
    text.append(link.link_type.as_str());
    text.append("#");
    text.append(link.tag.as_str());
    text.append(")\n\t");
    text.append(link.base.hash.as_str());
    text.append(" => ");
    text.append(link.target.hash.as_str());
    text
}

/// From what a read of the store at an address brought, the type and the content of the
/// entry there, as they are shown.
pub fn address_to_content_and_type(fetched: HcResult<Option<StoredContent>>) -> (r: HcResult<
    (String, String),
>)
    ensures
        match content_and_type(fetched) {
            Ok(pair) => r matches Ok(p) && p.0@ == pair.0 && p.1@ == pair.1,
            Err(e) => r matches Err(f) && f@ == e,
        },
{
    match fetched {
        Err(e) => Err(e),
        Ok(None) => Err(HolochainError::EntryNotFoundLocally),
        Ok(Some(content)) => {
            let StoredContent { raw, entry } = content;
            match entry {
                Some(entry) => {
                    let entry_type = entry.entry_type().to_string();
                    let Entry { address: _, content, body } = entry;
                    match body {
                        EntryBody::Dna => Ok((entry_type, String::from_str("DNA omitted"))),
                        EntryBody::AgentId(nick, _) => Ok((entry_type, nick)),
                        EntryBody::LinkAdd(link) => Ok((entry_type, show_link(&link))),
                        EntryBody::LinkRemove(link, _) => Ok((entry_type, show_link(&link))),
                        EntryBody::App(name, value) => Ok((name, value)),
                        _ => Ok((entry_type, content)),
                    }
                },
                None => Ok((String::from_str("UNKNOWN"), raw)),
            }
        },
    }
}

} // verus!
