//! The job that writes a picture of the node's state to the log.
//!
//! The picture is a text for a person to read. It is made from a `StateDump` and, for every
//! entry of the source chain, from the line that shows what the store holds of it.

use crate::address::{address_views, join_addresses, list_addresses, Address};
use crate::chain_header::{ChainHeader, EntryWithHeader};
use crate::entry::entry_type_name;
use crate::error::{error_text, HcResult};
use crate::log::{LogLevel, LogRecord};
use crate::network::{DirectMessage, QueryKey};
use crate::pending::{PendingValidationWithTimeout, ValidatingWorkflow};
use crate::state_dump::{
    address_to_content_and_type, content_and_type, StateDump, StoredContent, ZomeFnCall,
};
use crate::text::{
    append_decimal, append_signed_decimal, decimal, join, joined, list, listed, signed_decimal,
    string_views,
};
use vstd::prelude::*;
use vstd::string::*;

verus! {

/// The addresses of the agents that signed a header, in the order of their signatures.
pub open spec fn sources_of(h: ChainHeader) -> Seq<Seq<char>> {
    Seq::new(h.provenances@.len(), |i: int| h.provenances@[i].source@)
}

/// How a header is shown: its type, the time it was signed as seconds and nanoseconds, the
/// agents that signed it, its own address and the address of the header before it.
pub open spec fn header_text(h: ChainHeader) -> Seq<char> {
    "===========Header===========\nType: "@ + entry_type_name(h.entry_type) + "\nTimestamp: "@
        + signed_decimal(h.timestamp.seconds as int) + "s "@ + decimal(h.timestamp.nanos as nat)
        + "ns\nSources: "@ + joined(sources_of(h), ", "@) + "\nHeader address: "@ + h.address@
        + "\nPrev. address: "@ + (match h.link {
        Some(link) => link@,
        None => "None"@,
    }) + "\n----------Content----------"@
}

/// The text that shows the header `h`.
pub fn header_to_string(h: &ChainHeader) -> (r: String)
    ensures
        r@ == header_text(*h),
{
    let mut sources: Vec<String> = Vec::new();
    let mut i: usize = 0;
    while i < h.provenances.len()
        invariant
            i <= h.provenances.len(),
            sources@.len() == i,
            forall|j: int| 0 <= j < i ==> (#[trigger] sources@[j])@ == h.provenances@[j].source@,
        decreases h.provenances.len() - i,
    {
        sources.push(h.provenances[i].source.to_string());
        i = i + 1;
    }
    proof {
        assert(string_views(sources@) =~= sources_of(*h));
    }
    let mut text = String::from_str("===========Header===========\nType: ");
    let entry_type = h.entry_type.to_string();
    text.append(entry_type.as_str());
    text.append("\nTimestamp: ");
    append_signed_decimal(&mut text, h.timestamp.seconds);
    text.append("s ");
    append_decimal(&mut text, h.timestamp.nanos as u64);
    text.append("ns\nSources: ");
    let signers = join(&sources, ", ");
    text.append(signers.as_str());
    text.append("\nHeader address: ");
    text.append(h.address.hash.as_str());
    text.append("\nPrev. address: ");
    match &h.link {
        Some(link) => text.append(link.hash.as_str()),
        None => text.append("None"),
    }
    text.append("\n----------Content----------");
    text
}

/// The line that shows what the store holds at `address`.
pub open spec fn content_line(address: Seq<char>, fetched: HcResult<Option<StoredContent>>) -> Seq<
    char,
> {
    match content_and_type(fetched) {
        Ok((content_type, content)) => "* ["@ + content_type + "] "@ + address + ": "@ + content,
        Err(e) => "* [UNKNOWN] "@ + address + ": Error trying to get type/content: "@ + error_text(
            e,
        ),
    }
}

/// The line that shows what the store holds at `address`, from what a read of the store
/// there brought.
pub fn address_to_content_string(address: &Address, fetched: HcResult<Option<StoredContent>>) -> (r:
    String)
    ensures
        r@ == content_line(address@, fetched),
{
    match address_to_content_and_type(fetched) {
        Ok((content_type, content)) => {
            let mut line = String::from_str("* [");
            line.append(content_type.as_str());
            line.append("] ");
            line.append(address.hash.as_str());
            line.append(": ");
            line.append(content.as_str());
            line
        },
        Err(e) => {
            let mut line = String::from_str("* [UNKNOWN] ");
            line.append(address.hash.as_str());
            line.append(": Error trying to get type/content: ");
            let text = e.to_string();
            line.append(text.as_str());
            line
        },
    }
}

/// The name of a workflow.
pub open spec fn workflow_name(w: ValidatingWorkflow) -> Seq<char> {
    match w {
        ValidatingWorkflow::HoldEntry => "HoldEntryWorkflow"@,
        ValidatingWorkflow::HoldLink => "HoldLinkWorkflow"@,
        ValidatingWorkflow::RemoveLink => "RemoveLinkWorkflow"@,
        ValidatingWorkflow::UpdateEntry => "UpdateEntryWorkflow"@,
        ValidatingWorkflow::RemoveEntry => "RemoveEntryWorkflow"@,
    }
}

/// How a waiting validation is shown: its workflow, the type and the address of its entry,
/// the entries it depends on, and the time at which it is given up.
pub open spec fn pending_text(p: PendingValidationWithTimeout) -> Seq<char> {
    "<"@ + workflow_name(p.pending.workflow) + "("@ + entry_type_name(
        p.pending.entry_with_header.header.entry_type,
    ) + ")> "@ + p.pending.entry_with_header.entry.address@ + ": depends on : "@ + listed(
        address_views(p.pending.dependencies@),
    ) + ", timeout: "@ + (match p.timeout {
        Some(t) => decimal(t as nat),
        None => "Never"@,
    })
}

fn pending_to_string(p: &PendingValidationWithTimeout) -> (r: String)
    ensures
        r@ == pending_text(*p),
{
    let mut text = String::from_str("<");
    match p.pending.workflow {
        ValidatingWorkflow::HoldEntry => text.append("HoldEntryWorkflow"),
        ValidatingWorkflow::HoldLink => text.append("HoldLinkWorkflow"),
        ValidatingWorkflow::RemoveLink => text.append("RemoveLinkWorkflow"),
        ValidatingWorkflow::UpdateEntry => text.append("UpdateEntryWorkflow"),
        ValidatingWorkflow::RemoveEntry => text.append("RemoveEntryWorkflow"),
    }
    text.append("(");
    let entry_type = p.pending.entry_with_header.header.entry_type.to_string();
    text.append(entry_type.as_str());
    text.append(")> ");
    text.append(p.pending.entry_with_header.entry.address.hash.as_str());
    text.append(": depends on : ");
    let dependencies = list_addresses(&p.pending.dependencies);
    text.append(dependencies.as_str());
    text.append(", timeout: ");
    match p.timeout {
        Some(t) => append_decimal(&mut text, t),
        None => text.append("Never"),
    }
    proof {
        assert(text@ =~= pending_text(*p));
    }
    text
}

/// The texts of the waiting validations `s`, in their order.
pub open spec fn pending_texts(s: Seq<PendingValidationWithTimeout>) -> Seq<Seq<char>> {
    Seq::new(s.len(), |i: int| pending_text(s[i]))
}

fn pending_lines(s: &Vec<PendingValidationWithTimeout>) -> (r: Vec<String>)
    ensures
        string_views(r@) == pending_texts(s@),
{
    let mut lines: Vec<String> = Vec::new();
    let mut i: usize = 0;
    while i < s.len()
        invariant
            i <= s.len(),
            lines@.len() == i,
            forall|j: int| 0 <= j < i ==> (#[trigger] lines@[j])@ == pending_text(s@[j]),
        decreases s.len() - i,
    {
        lines.push(pending_to_string(&s[i]));
        i = i + 1;
    }
    proof {
        assert(string_views(lines@) =~= pending_texts(s@));
    }
    lines
}

/// How what the node holds of one entry is shown: the address of the entry, and on a line
/// each the addresses of its aspects.
pub open spec fn holding_text(held: (Address, Vec<Address>)) -> Seq<char> {
    "["@ + held.0@ + "]:\n\t"@ + joined(address_views(held.1@), "\n\t"@)
}

/// The texts of what the node holds, in its order.
pub open spec fn holding_texts(s: Seq<(Address, Vec<Address>)>) -> Seq<Seq<char>> {
    Seq::new(s.len(), |i: int| holding_text(s[i]))
}

fn holding_lines(s: &Vec<(Address, Vec<Address>)>) -> (r: Vec<String>)
    ensures
        string_views(r@) == holding_texts(s@),
{
    let mut lines: Vec<String> = Vec::new();
    let mut i: usize = 0;
    while i < s.len()
        invariant
            i <= s.len(),
            lines@.len() == i,
            forall|j: int| 0 <= j < i ==> (#[trigger] lines@[j])@ == holding_text(s@[j]),
        decreases s.len() - i,
    {
        let mut text = String::from_str("[");
        text.append(s[i].0.hash.as_str());
        text.append("]:\n\t");
        let aspects = join_addresses(&s[i].1, "\n\t");
        text.append(aspects.as_str());
        lines.push(text);
        i = i + 1;
    }
    proof {
        assert(string_views(lines@) =~= holding_texts(s@));
    }
    lines
}

/// How a call is shown: its zome and function, its parameters, and its token.
pub open spec fn call_text(call: ZomeFnCall) -> Seq<char> {
    call.zome_name@ + "/"@ + call.fn_name@ + "("@ + call.parameters@ + ")#"@ + call.id@
}

fn call_to_string(call: &ZomeFnCall) -> (r: String)
    ensures
        r@ == call_text(*call),
{
    let mut text = call.zome_name.clone();
    text.append("/");
    text.append(call.fn_name.as_str());
    text.append("(");
    text.append(call.parameters.as_str());
    text.append(")#");
    text.append(call.id.as_str());
    text
}

/// The texts of the calls `s`, in their order.
pub open spec fn call_texts(s: Seq<ZomeFnCall>) -> Seq<Seq<char>> {
    Seq::new(s.len(), |i: int| call_text(s[i]))
}

/// How a running call is shown: the call, and what is recorded of it.
pub open spec fn running_text(running: (ZomeFnCall, Option<String>)) -> Seq<char> {
    call_text(running.0) + " => "@ + (match running.1 {
        Some(record) => record@,
        None => "None"@,
    })
}

/// The texts of the running calls `s`, in their order.
pub open spec fn running_texts(s: Seq<(ZomeFnCall, Option<String>)>) -> Seq<Seq<char>> {
    Seq::new(s.len(), |i: int| running_text(s[i]))
}

/// How a call that has ended is shown: the call, and its result or the description of its
/// error.
pub open spec fn result_text(ended: (ZomeFnCall, HcResult<String>)) -> Seq<char> {
    call_text(ended.0) + " => "@ + (match ended.1 {
        Ok(value) => value@,
        Err(e) => "Err("@ + error_text(e@) + ")"@,
    })
}

/// The texts of the calls that have ended `s`, in their order.
pub open spec fn result_texts(s: Seq<(ZomeFnCall, HcResult<String>)>) -> Seq<Seq<char>> {
    Seq::new(s.len(), |i: int| result_text(s[i]))
}

fn call_lines(s: &Vec<ZomeFnCall>) -> (r: Vec<String>)
    ensures
        string_views(r@) == call_texts(s@),
{
    let mut lines: Vec<String> = Vec::new();
    let mut i: usize = 0;
    while i < s.len()
        invariant
            i <= s.len(),
            lines@.len() == i,
            forall|j: int| 0 <= j < i ==> (#[trigger] lines@[j])@ == call_text(s@[j]),
        decreases s.len() - i,
    {
        lines.push(call_to_string(&s[i]));
        i = i + 1;
    }
    proof {
        assert(string_views(lines@) =~= call_texts(s@));
    }
    lines
}

fn running_lines(s: &Vec<(ZomeFnCall, Option<String>)>) -> (r: Vec<String>)
    ensures
        string_views(r@) == running_texts(s@),
{
    let mut lines: Vec<String> = Vec::new();
    let mut i: usize = 0;
    while i < s.len()
        invariant
            i <= s.len(),
            lines@.len() == i,
            forall|j: int| 0 <= j < i ==> (#[trigger] lines@[j])@ == running_text(s@[j]),
        decreases s.len() - i,
    {
        let mut text = call_to_string(&s[i].0);
        text.append(" => ");
        match &s[i].1 {
            Some(record) => text.append(record.as_str()),
            None => text.append("None"),
        }
        lines.push(text);
        i = i + 1;
    }
    proof {
        assert(string_views(lines@) =~= running_texts(s@));
    }
    lines
}

fn result_lines(s: &Vec<(ZomeFnCall, HcResult<String>)>) -> (r: Vec<String>)
    ensures
        string_views(r@) == result_texts(s@),
{
    let mut lines: Vec<String> = Vec::new();
    let mut i: usize = 0;
    while i < s.len()
        invariant
            i <= s.len(),
            lines@.len() == i,
            forall|j: int| 0 <= j < i ==> (#[trigger] lines@[j])@ == result_text(s@[j]),
        decreases s.len() - i,
    {
        let mut text = call_to_string(&s[i].0);
        text.append(" => ");
        match &s[i].1 {
            Ok(value) => text.append(value.as_str()),
            Err(e) => {
                text.append("Err(");
                let description = e.to_string();
                text.append(description.as_str());
                text.append(")");
            },
        }
        lines.push(text);
        i = i + 1;
    }
    proof {
        assert(string_views(lines@) =~= result_texts(s@));
    }
    lines
}

/// How the key of a query is shown.
pub open spec fn query_text(key: QueryKey) -> Seq<char> {
    match key {
        QueryKey::Entry { address, id } => "Entry("@ + address@ + ", "@ + id@ + ")"@,
        QueryKey::Links { base_address, link_type, tag, id } => "Links("@ + base_address@ + ", "@
            + link_type@ + ", "@ + tag@ + ", "@ + id@ + ")"@,
    }
}

/// The texts of the keys `s`, in their order.
pub open spec fn query_texts(s: Seq<QueryKey>) -> Seq<Seq<char>> {
    Seq::new(s.len(), |i: int| query_text(s[i]))
}

fn query_lines(s: &Vec<QueryKey>) -> (r: Vec<String>)
    ensures
        string_views(r@) == query_texts(s@),
{
    let mut lines: Vec<String> = Vec::new();
    let mut i: usize = 0;
    while i < s.len()
        invariant
            i <= s.len(),
            lines@.len() == i,
            forall|j: int| 0 <= j < i ==> (#[trigger] lines@[j])@ == query_text(s@[j]),
        decreases s.len() - i,
    {
        let text = match &s[i] {
            QueryKey::Entry { address, id } => {
                let mut text = String::from_str("Entry(");
                text.append(address.hash.as_str());
                text.append(", ");
                text.append(id.as_str());
                text.append(")");
                text
            },
            QueryKey::Links { base_address, link_type, tag, id } => {
                let mut text = String::from_str("Links(");
                text.append(base_address.hash.as_str());
                text.append(", ");
                text.append(link_type.as_str());
                text.append(", ");
                text.append(tag.as_str());
                text.append(", ");
                text.append(id.as_str());
                text.append(")");
                text
            },
        };
        lines.push(text);
        i = i + 1;
    }
    proof {
        assert(string_views(lines@) =~= query_texts(s@));
    }
    lines
}

/// How a direct message is shown: the token it was sent with, and its content.
pub open spec fn message_text(message: (String, DirectMessage)) -> Seq<char> {
    message.0@ + ": "@ + message.1.content@
}

/// The texts of the direct messages `s`, in their order.
pub open spec fn message_texts(s: Seq<(String, DirectMessage)>) -> Seq<Seq<char>> {
    Seq::new(s.len(), |i: int| message_text(s[i]))
}

fn message_lines(s: &Vec<(String, DirectMessage)>) -> (r: Vec<String>)
    ensures
        string_views(r@) == message_texts(s@),
{
    let mut lines: Vec<String> = Vec::new();
    let mut i: usize = 0;
    while i < s.len()
        invariant
            i <= s.len(),
            lines@.len() == i,
            forall|j: int| 0 <= j < i ==> (#[trigger] lines@[j])@ == message_text(s@[j]),
        decreases s.len() - i,
    {
        let mut text = s[i].0.clone();
        text.append(": ");
        text.append(s[i].1.content.as_str());
        lines.push(text);
        i = i + 1;
    }
    proof {
        assert(string_views(lines@) =~= message_texts(s@));
    }
    lines
}

/// How one entry of the source chain is shown: its header, and the line of its content. The
/// line is the one of `content_lines` at the entry's place; where there is none, the content
/// counts as not found.
pub open spec fn chain_text(
    chain: Seq<(EntryWithHeader, Address)>,
    content_lines: Seq<String>,
    i: int,
) -> Seq<char> {
    header_text(chain[i].0.header) + "\n=> "@ + if i < content_lines.len() {
        content_lines[i]@
    } else {
        content_line(chain[i].0.header.entry_address@, Ok(None))
    }
}

/// The texts of the entries of the source chain, in their order.
pub open spec fn chain_texts(chain: Seq<(EntryWithHeader, Address)>, content_lines: Seq<String>) -> Seq<
    Seq<char>,
> {
    Seq::new(chain.len(), |i: int| chain_text(chain, content_lines, i))
}

fn chain_lines(chain: &Vec<(EntryWithHeader, Address)>, content_lines: &Vec<String>) -> (r: Vec<
    String,
>)
    ensures
        string_views(r@) == chain_texts(chain@, content_lines@),
{
    let mut lines: Vec<String> = Vec::new();
    let mut i: usize = 0;
    while i < chain.len()
        invariant
            i <= chain.len(),
            lines@.len() == i,
            forall|j: int|
                0 <= j < i ==> (#[trigger] lines@[j])@ == chain_text(chain@, content_lines@, j),
        decreases chain.len() - i,
    {
        let mut text = header_to_string(&chain[i].0.header);
        text.append("\n=> ");
        if i < content_lines.len() {
            text.append(content_lines[i].as_str());
        } else {
            let missing = address_to_content_string(&chain[i].0.header.entry_address, Ok(None));
            text.append(missing.as_str());
        }
        lines.push(text);
        i = i + 1;
    }
    proof {
        assert(string_views(lines@) =~= chain_texts(chain@, content_lines@));
    }
    lines
}

/// The part of a dump that shows the source chain: an entry after the other, with an empty
/// line between them.
pub open spec fn chain_section(dump: StateDump, content_lines: Seq<String>) -> Seq<char> {
    "\n=============STATE DUMP===============\nAgent's Source Chain:\n========\n\n"@ + joined(
        chain_texts(dump.source_chain@, content_lines),
        "\n\n"@,
    )
}

/// The part of a dump that shows the calls of the application: those that wait, those that
/// run, those that have ended.
pub open spec fn nucleus_section(dump: StateDump) -> Seq<char> {
    "\n\nNucleus:\n========\nQueued zome calls: "@ + listed(call_texts(dump.queued_calls@))
        + "\nRunning zome calls: "@ + listed(running_texts(dump.running_calls@))
        + "\nZome call results: "@ + listed(result_texts(dump.call_results@))
        + "\n--------------------\n"@
}

/// The part of a dump that shows the network: the queries and the requests for validation
/// packages that have no answer yet, and the direct messages.
pub open spec fn network_section(dump: StateDump) -> Seq<char> {
    "\nNetwork:\n--------\nRunning query flows: "@ + listed(query_texts(dump.query_flows@))
        + "\n------------------------\nRunning VALIDATION PACKAGE requests: "@ + listed(
        address_views(dump.validation_package_flows@),
    ) + "\n------------------------------------\nRunning DIRECT MESSAGES: "@ + listed(
        message_texts(dump.direct_message_flows@),
    ) + "\n"@
}

/// The part of a dump that shows the table: the validations that wait and those that are in
/// process, each group with its number and one validation on a line, and what the node
/// holds.
pub open spec fn table_section(dump: StateDump) -> Seq<char> {
    "\nDht:\n====\nQueued validations "@ + decimal(dump.queued_holding_workflows@.len()) + ":\n"@
        + joined(pending_texts(dump.queued_holding_workflows@), "\n"@)
        + "\n\nIn-process validations "@ + decimal(dump.in_process_holding_workflows@.len())
        + ":\n"@ + joined(pending_texts(dump.in_process_holding_workflows@), "\n"@)
        + "\n--------\nHolding:\n"@ + joined(holding_texts(dump.held_aspects@), "\n"@)
        + "\n--------\n    "@
}

/// The text of a state dump: the source chain, the calls of the application, the network,
/// and the table.
pub open spec fn dump_text(dump: StateDump, content_lines: Seq<String>) -> Seq<char> {
    chain_section(dump, content_lines) + nucleus_section(dump) + network_section(dump)
        + table_section(dump)
}

fn write_chain_section(dump: &StateDump, content_lines: &Vec<String>) -> (r: String)
    ensures
        r@ == chain_section(*dump, content_lines@),
{
    let source_chain = chain_lines(&dump.source_chain, content_lines);
    let mut text = String::from_str(
        "\n=============STATE DUMP===============\nAgent's Source Chain:\n========\n\n",
    );
    text.append(join(&source_chain, "\n\n").as_str());
    text
}

fn write_nucleus_section(dump: &StateDump) -> (r: String)
    ensures
        r@ == nucleus_section(*dump),
{
    let queued_calls = call_lines(&dump.queued_calls);
    let running_calls = running_lines(&dump.running_calls);
    let call_results = result_lines(&dump.call_results);
    let mut text = String::from_str("\n\nNucleus:\n========\nQueued zome calls: ");
    text.append(list(&queued_calls).as_str());
    text.append("\nRunning zome calls: ");
    text.append(list(&running_calls).as_str());
    text.append("\nZome call results: ");
    text.append(list(&call_results).as_str());
    text.append("\n--------------------\n");
    text
}

fn write_network_section(dump: &StateDump) -> (r: String)
    ensures
        r@ == network_section(*dump),
{
    let query_flows = query_lines(&dump.query_flows);
    let direct_messages = message_lines(&dump.direct_message_flows);
    let mut text = String::from_str("\nNetwork:\n--------\nRunning query flows: ");
    text.append(list(&query_flows).as_str());
    text.append("\n------------------------\nRunning VALIDATION PACKAGE requests: ");
    text.append(list_addresses(&dump.validation_package_flows).as_str());
    text.append("\n------------------------------------\nRunning DIRECT MESSAGES: ");
    text.append(list(&direct_messages).as_str());
    text.append("\n");
    text
}

fn write_table_section(dump: &StateDump) -> (r: String)
    ensures
        r@ == table_section(*dump),
{
    let queued = pending_lines(&dump.queued_holding_workflows);
    let in_process = pending_lines(&dump.in_process_holding_workflows);
    let holding = holding_lines(&dump.held_aspects);
    let mut text = String::from_str("\nDht:\n====\nQueued validations ");
    append_decimal(&mut text, dump.queued_holding_workflows.len() as u64);
    text.append(":\n");
    text.append(join(&queued, "\n").as_str());
    text.append("\n\nIn-process validations ");
    append_decimal(&mut text, dump.in_process_holding_workflows.len() as u64);
    text.append(":\n");
    text.append(join(&in_process, "\n").as_str());
    text.append("\n--------\nHolding:\n");
    text.append(join(&holding, "\n").as_str());
    text.append("\n--------\n    ");
    text
}

/// Makes the line of the log that shows `dump`. `content_lines` holds, for every entry of
/// the dump's source chain in its order, the line that `address_to_content_string` makes of
/// what the store holds at the address of the entry.
pub fn state_dump(dump: &StateDump, content_lines: &Vec<String>) -> (r: LogRecord)
    ensures
        r.level == LogLevel::Info,
        r.message@ == "debug/state_dump: "@ + dump_text(*dump, content_lines@),
{
    let mut text = String::from_str("debug/state_dump: ");
    text.append(write_chain_section(dump, content_lines).as_str());
    text.append(write_nucleus_section(dump).as_str());
    text.append(write_network_section(dump).as_str());
    text.append(write_table_section(dump).as_str());
    proof {
        assert(text@ =~= "debug/state_dump: "@ + dump_text(*dump, content_lines@));
    }
    LogRecord { level: LogLevel::Info, message: text }
}

} // verus!
