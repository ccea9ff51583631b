//! Answering a peer's request for the aspects of an entry.
//!
//! The node reads the aspects from its stores; this module puts together what the reads
//! brought. The content aspects come first. If they cannot be read, the answer is empty. The
//! meta aspects come from several reads, and one that fails takes nothing away from what the
//! others brought.

use crate::address::Address;
use crate::aspect::{
    add_aspects, distinct_aspects, holds_aspect, with_aspects, with_aspects_is_the_union,
    EntryAspect, FetchEntryData,
};
use crate::error::{error_text, HcResult, HolochainError};
use crate::log::{LogLevel, LogRecord};
use crate::network::NetworkAction;
use vstd::prelude::*;
use vstd::string::*;

verus! {

/// The aspects after each read of `reads` that did not fail has added what it brought, in
/// turn.
pub open spec fn with_reads(aspects: Seq<EntryAspect>, reads: Seq<HcResult<Vec<EntryAspect>>>) -> Seq<
    EntryAspect,
>
    decreases reads.len(),
{
    if reads.len() == 0 {
        aspects
    } else {
        let before = with_reads(aspects, reads.drop_last());
        match reads.last() {
            Ok(more) => with_aspects(before, more@),
            Err(_) => before,
        }
    }
}

/// The aspects that the node answers with: none if the content aspects could not be read,
/// else the content aspects and the meta aspects of every read that did not fail, each
/// address once, in the order in which they were read.
pub open spec fn fetched_aspects(
    content: HcResult<Vec<EntryAspect>>,
    meta: Seq<HcResult<Vec<EntryAspect>>>,
) -> Seq<EntryAspect> {
    match content {
        Ok(aspects) => with_reads(with_aspects(Seq::empty(), aspects@), meta),
        Err(_) => Seq::empty(),
    }
}

/// Whether a read of `reads` that did not fail brought an aspect with the address `a`.
pub open spec fn read_holds(reads: Seq<HcResult<Vec<EntryAspect>>>, a: Seq<char>) -> bool {
    exists|i: int|
        0 <= i < reads.len() && (#[trigger] reads[i]) is Ok && holds_aspect(reads[i]->Ok_0@, a)
}

/// Whether a read of `reads` that did not fail brought the aspect `x`.
pub open spec fn read_brought(reads: Seq<HcResult<Vec<EntryAspect>>>, x: EntryAspect) -> bool {
    exists|i: int|
        0 <= i < reads.len() && (#[trigger] reads[i]) is Ok && reads[i]->Ok_0@.contains(x)
}

/// Adding what the reads brought adds no address twice, and adds exactly the addresses that
/// the reads that did not fail brought. Every aspect of the result was there before or was
/// brought by such a read.
pub proof fn with_reads_is_the_union(
    aspects: Seq<EntryAspect>,
    reads: Seq<HcResult<Vec<EntryAspect>>>,
)
    ensures
        distinct_aspects(aspects) ==> distinct_aspects(with_reads(aspects, reads)),
        forall|a: Seq<char>|
            holds_aspect(with_reads(aspects, reads), a) <==> holds_aspect(aspects, a) || read_holds(
                reads,
                a,
            ),
        forall|i: int|
            0 <= i < with_reads(aspects, reads).len() ==> aspects.contains(
                #[trigger] with_reads(aspects, reads)[i],
            ) || read_brought(reads, with_reads(aspects, reads)[i]),
    decreases reads.len(),
{
    let all = with_reads(aspects, reads);
    if reads.len() > 0 {
        let front = reads.drop_last();
        let before = with_reads(aspects, front);
        let n = reads.len() - 1;
        with_reads_is_the_union(aspects, front);
        match reads.last() {
            Ok(more) => {
                with_aspects_is_the_union(before, more@);
            },
            Err(_) => {},
        }
        assert forall|a: Seq<char>| holds_aspect(all, a) <==> holds_aspect(aspects, a)
            || read_holds(reads, a) by {
            if read_holds(front, a) {
                let i = choose|i: int|
                    0 <= i < front.len() && (#[trigger] front[i]) is Ok && holds_aspect(
                        front[i]->Ok_0@,
                        a,
                    );
                assert(reads[i] is Ok && holds_aspect(reads[i]->Ok_0@, a));
            }
            if read_holds(reads, a) {
                let i = choose|i: int|
                    0 <= i < reads.len() && (#[trigger] reads[i]) is Ok && holds_aspect(
                        reads[i]->Ok_0@,
                        a,
                    );
                if i < n {
                    assert(front[i] is Ok && holds_aspect(front[i]->Ok_0@, a));
                }
            }
            if reads[n] is Ok && holds_aspect(reads[n]->Ok_0@, a) {
                assert(read_holds(reads, a));
            }
        }
        assert forall|i: int| 0 <= i < all.len() implies aspects.contains(#[trigger] all[i])
            || read_brought(reads, all[i]) by {
            let x = all[i];
            if before.contains(x) {
                let j = choose|j: int| 0 <= j < before.len() && before[j] == x;
                if read_brought(front, before[j]) {
                    let r = choose|r: int|
                        0 <= r < front.len() && (#[trigger] front[r]) is Ok
                            && front[r]->Ok_0@.contains(x);
                    assert(reads[r] is Ok && reads[r]->Ok_0@.contains(x));
                }
            } else {
                assert(reads[n] is Ok && reads[n]->Ok_0@.contains(x));
            }
        }
    }
}

/// The answer is complete and holds nothing twice.
///
/// If the content aspects could not be read, the answer is empty. Else an address is among
/// the answer if and only if it is among the content aspects or among the meta aspects of a
/// read that did not fail; no address is there twice; and every aspect of the answer is one
/// that was read.
pub proof fn fetch_is_complete(
    content: HcResult<Vec<EntryAspect>>,
    meta: Seq<HcResult<Vec<EntryAspect>>>,
)
    ensures
        distinct_aspects(fetched_aspects(content, meta)),
        content is Err ==> fetched_aspects(content, meta).len() == 0,
        content matches Ok(c) ==> forall|a: Seq<char>|
            holds_aspect(fetched_aspects(content, meta), a) <==> holds_aspect(c@, a) || read_holds(
                meta,
                a,
            ),
        content matches Ok(c) ==> forall|i: int|
            0 <= i < fetched_aspects(content, meta).len() ==> c@.contains(
                #[trigger] fetched_aspects(content, meta)[i],
            ) || read_brought(meta, fetched_aspects(content, meta)[i]),
{
    match content {
        Ok(c) => {
            let first = with_aspects(Seq::empty(), c@);
            with_aspects_is_the_union(Seq::empty(), c@);
            with_reads_is_the_union(first, meta);
            let all = fetched_aspects(content, meta);
            assert forall|a: Seq<char>| holds_aspect(all, a) <==> holds_aspect(c@, a)
                || read_holds(meta, a) by {
                assert(!holds_aspect(Seq::<EntryAspect>::empty(), a));
            }
            assert forall|i: int| 0 <= i < all.len() implies c@.contains(#[trigger] all[i])
                || read_brought(meta, all[i]) by {
                if first.contains(all[i]) {
                    let j = choose|j: int| 0 <= j < first.len() && first[j] == all[i];
                    assert(c@.contains(first[j]) || Seq::<EntryAspect>::empty().contains(first[j]));
                }
            }
        },
        Err(_) => {},
    }
}

/// The line that reports that the content aspects of the entry at `address` could not be
/// read.
pub open spec fn content_failure_message(address: Seq<char>, error: Seq<char>) -> Seq<char> {
    "net/handle_fetch_entry: Could not get content aspects of requested entry ("@ + address
        + "), error: "@ + error
}

/// The line that reports that meta aspects of the entry at `address` could not be read.
pub open spec fn meta_failure_message(address: Seq<char>, error: Seq<char>) -> Seq<char> {
    "net/handle_fetch_entry: Error getting meta aspects for entry ("@ + address + "), error: "@
        + error
}

/// The lines that report the failed reads among `reads`, in their order.
pub open spec fn meta_failures(address: Seq<char>, reads: Seq<HcResult<Vec<EntryAspect>>>) -> Seq<
    (LogLevel, Seq<char>),
>
    decreases reads.len(),
{
    if reads.len() == 0 {
        Seq::empty()
    } else {
        let before = meta_failures(address, reads.drop_last());
        match reads.last() {
            Ok(_) => before,
            Err(e) => before.push((LogLevel::Error, meta_failure_message(address, error_text(e@)))),
        }
    }
}

/// What is logged of the reads: a failure to read the content aspects, for debugging, and
/// then nothing else; or one error for every read of meta aspects that failed.
pub open spec fn fetch_log(
    address: Seq<char>,
    content: HcResult<Vec<EntryAspect>>,
    meta: Seq<HcResult<Vec<EntryAspect>>>,
) -> Seq<(LogLevel, Seq<char>)> {
    match content {
        Ok(_) => meta_failures(address, meta),
        Err(e) => seq![(LogLevel::Debug, content_failure_message(address, error_text(e@)))],
    }
}

/// The levels and the texts of `log`, in the same order.
pub open spec fn log_views(log: Seq<LogRecord>) -> Seq<(LogLevel, Seq<char>)> {
    Seq::new(log.len(), |i: int| (log[i].level, log[i].message@))
}

/// The aspects that the node holds of an entry, and what is to be logged of the reads.
#[derive(Clone, Debug, PartialEq, Eq)]
pub struct FetchedAspects {
    pub aspects: Vec<EntryAspect>,
    pub log: Vec<LogRecord>,
}

fn failure_record(level: LogLevel, prefix: &str, address: &Address, error: &HolochainError) -> (r:
    LogRecord)
    ensures
        r.level == level,
        r.message@ == prefix@ + address@ + "), error: "@ + error_text(error@),
{
    let mut message = String::from_str(prefix);
    message.append(address.hash.as_str());
    message.append("), error: ");
    let text = error.to_string();
    message.append(text.as_str());
    LogRecord { level, message }
}

/// Puts together the aspects of the entry at `address` from what the reads brought:
/// `content` from the read of the content aspects, `meta` from the reads of the meta
/// aspects, in the order in which they were made.
pub fn fetch_aspects_for_entry(
    address: &Address,
    content: HcResult<Vec<EntryAspect>>,
    meta: Vec<HcResult<Vec<EntryAspect>>>,
) -> (r: FetchedAspects)
    ensures
        r.aspects@ == fetched_aspects(content, meta@),
        log_views(r.log@) == fetch_log(address@, content, meta@),
{
    let mut aspects: Vec<EntryAspect> = Vec::new();
    let mut log: Vec<LogRecord> = Vec::new();
    match content {
        Ok(content_aspects) => {
            add_aspects(&mut aspects, content_aspects);
            let ghost first = aspects@;
            let ghost reads = meta@;
            for read in it: meta
                invariant
                    it.seq() == reads,
                    aspects@ == with_reads(first, reads.take(it.index() as int)),
                    log_views(log@) == meta_failures(address@, reads.take(it.index() as int)),
            {
                proof {
                    let i = it.index() as int;
                    assert(reads.take(i + 1).drop_last() =~= reads.take(i));
                }
                match read {
                    Ok(more) => {
                        add_aspects(&mut aspects, more);
                    },
                    Err(e) => {
                        let ghost before = log@;
                        let record = failure_record(
                            LogLevel::Error,
                            "net/handle_fetch_entry: Error getting meta aspects for entry (",
                            address,
                            &e,
                        );
                        log.push(record);
                        proof {
                            assert(log_views(log@) =~= log_views(before).push(
                                (record.level, record.message@),
                            ));
                        }
                    },
                }
            }
            proof {
                assert(reads.take(reads.len() as int) =~= reads);
            }
        },
        Err(e) => {
            let record = failure_record(
                LogLevel::Debug,
                "net/handle_fetch_entry: Could not get content aspects of requested entry (",
                address,
                &e,
            );
            log.push(record);
            proof {
                assert(log_views(log@) =~= seq![(record.level, record.message@)]);
            }
        },
    }
    FetchedAspects { aspects, log }
}

/// Answers the peer's request `get_dht_data` with the aspects that the reads brought.
/// Returns the action that sends the answer, and what is to be logged.
///
/// The answer holds every aspect that the node has of the entry, whatever aspects the request
/// names.
pub fn handle_fetch_entry(
    get_dht_data: FetchEntryData,
    content: HcResult<Vec<EntryAspect>>,
    meta: Vec<HcResult<Vec<EntryAspect>>>,
) -> (r: (NetworkAction, Vec<LogRecord>))
    ensures
        r.0 matches NetworkAction::RespondFetch(request, aspects) && request == get_dht_data
            && aspects@ == fetched_aspects(content, meta@),
        log_views(r.1@) == fetch_log(get_dht_data.entry_address@, content, meta@),
{
    let fetched = fetch_aspects_for_entry(&get_dht_data.entry_address, content, meta);
    let FetchedAspects { aspects, log } = fetched;
    (NetworkAction::RespondFetch(get_dht_data, aspects), log)
}

} // verus!
