use vstd::prelude::*;

use crate::db::accessory_list::{answers_read, write_step, AccessoryList, AccessoryListMember, ListState};
use crate::transport::http::{EventSubscriptions, ReadResponseObject, WriteObject, WriteResponseObject};

verus! {

/// The HTTP status of a response whose entries all succeeded, to a read.
pub const STATUS_OK: u16 = 200;

/// The HTTP status of a response whose entries all succeeded, to a write.
pub const STATUS_NO_CONTENT: u16 = 204;

/// The HTTP status of a response of which an entry failed.
pub const STATUS_MULTI_STATUS: u16 = 207;

/// Whether every entry of the response to a read carries the status 0.
pub open spec fn all_read(entries: Seq<ReadResponseObject>) -> bool {
    forall|i: int| 0 <= i < entries.len() ==> (#[trigger] entries[i]).status == Some(0i32)
}

/// Whether every entry of the response to a write carries the status 0.
pub open spec fn all_written(entries: Seq<WriteResponseObject>) -> bool {
    forall|i: int| 0 <= i < entries.len() ==> (#[trigger] entries[i]).status == 0
}

/// Whether the writes, applied one after the other, lead through the states of
/// `trace` with the entries of `answers`.
pub open spec fn writes_trace<M: AccessoryListMember>(
    trace: Seq<ListState<M>>,
    writes: Seq<WriteObject>,
    answers: Seq<WriteResponseObject>,
) -> bool {
    &&& trace.len() == writes.len() + 1
    &&& answers.len() == writes.len()
    &&& forall|i: int|
        0 <= i < writes.len() ==> write_step(trace[i], trace[i + 1], writes[i], #[trigger] answers[i])
}

/// Whether the writes, applied one after the other, lead from the state `first`
/// to the state `last` with the entries of `answers`.
pub open spec fn writes_lead<M: AccessoryListMember>(
    first: ListState<M>,
    last: ListState<M>,
    writes: Seq<WriteObject>,
    answers: Seq<WriteResponseObject>,
) -> bool {
    exists|trace: Seq<ListState<M>>|
        {
            &&& #[trigger] writes_trace(trace, writes, answers)
            &&& trace[0] == first
            &&& trace[writes.len() as int] == last
        }
}

/// Reads characteristics, each given by accessory id and instance id.
///
/// The entries answer the reads in their order. The status is 200 where every
/// entry carries the status 0, and 207 otherwise.
pub fn get_characteristics<M: AccessoryListMember>(
    list: &AccessoryList<M>,
    ids: &Vec<(u64, u64)>,
    meta: bool,
    perms: bool,
    hap_type: bool,
    ev: bool,
) -> (response: (u16, Vec<ReadResponseObject>))
    ensures
        response.1@.len() == ids@.len(),
        forall|i: int|
            0 <= i < ids@.len() ==> answers_read(
                list.members(),
                #[trigger] response.1@[i],
                ids@[i].0,
                ids@[i].1,
                meta,
                perms,
                hap_type,
                ev,
            ),
        response.0 == if all_read(response.1@) {
            STATUS_OK
        } else {
            STATUS_MULTI_STATUS
        },
{
    let mut entries: Vec<ReadResponseObject> = Vec::new();
    let mut all_ok = true;
    let mut i: usize = 0;
    while i < ids.len()
        invariant
            i <= ids.len(),
            entries@.len() == i,
            all_ok == all_read(entries@),
            forall|t: int|
                0 <= t < i ==> answers_read(
                    list.members(),
                    #[trigger] entries@[t],
                    ids@[t].0,
                    ids@[t].1,
                    meta,
                    perms,
                    hap_type,
                    ev,
                ),
        decreases ids.len() - i,
    {
        let id = ids[i];
        let entry = list.read_characteristic(id.0, id.1, meta, perms, hap_type, ev);
        let ok = match entry.status {
            Some(status) => status == 0,
            None => false,
        };
        let ghost before = entries@;
        entries.push(entry);
        proof {
            if !ok {
                assert(entries@[i as int].status != Some(0i32));
            } else if !all_ok {
                let bad = choose|t: int| 0 <= t < before.len() && (#[trigger] before[t]).status != Some(0i32);
                assert(entries@[bad].status != Some(0i32));
            }
        }
        all_ok = all_ok && ok;
        i += 1;
    }
    let status: u16 = if all_ok {
        STATUS_OK
    } else {
        STATUS_MULTI_STATUS
    };
    (status, entries)
}

/// Writes characteristics on behalf of the session that holds
/// `event_subscriptions`.
///
/// The writes are applied one after the other, each as `write_characteristic`
/// does, and the entries answer them in their order. The status is 204 where
/// every entry carries the status 0, and 207 otherwise.
pub fn put_characteristics<M: AccessoryListMember>(
    list: &mut AccessoryList<M>,
    writes: &Vec<WriteObject>,
    event_subscriptions: &mut EventSubscriptions,
) -> (response: (u16, Vec<WriteResponseObject>))
    ensures
        final(list).wf(),
        writes_lead(
            old(list).state(old(event_subscriptions)@),
            final(list).state(final(event_subscriptions)@),
            writes@,
            response.1@,
        ),
        response.0 == if all_written(response.1@) {
            STATUS_NO_CONTENT
        } else {
            STATUS_MULTI_STATUS
        },
{
    proof {
        use_type_invariant(&*list);
    }
    let mut entries: Vec<WriteResponseObject> = Vec::new();
    let mut all_ok = true;
    let ghost mut trace: Seq<ListState<M>> = seq![list.state(event_subscriptions@)];
    let mut i: usize = 0;
    while i < writes.len()
        invariant
            i <= writes.len(),
            entries@.len() == i,
            trace.len() == i + 1,
            list.wf(),
            all_ok == all_written(entries@),
            trace[0] == old(list).state(old(event_subscriptions)@),
            trace[i as int] == list.state(event_subscriptions@),
            forall|t: int|
                0 <= t < i ==> write_step(trace[t], trace[t + 1], writes@[t], #[trigger] entries@[t]),
        decreases writes.len() - i,
    {
        let entry = list.write_characteristic(writes[i].clone(), event_subscriptions);
        let ok = entry.status == 0;
        let ghost before = entries@;
        entries.push(entry);
        proof {
            trace = trace.push(list.state(event_subscriptions@));
            if !ok {
                assert(entries@[i as int].status != 0);
            } else if !all_ok {
                let bad = choose|t: int| 0 <= t < before.len() && (#[trigger] before[t]).status != 0;
                assert(entries@[bad].status != 0);
            }
        }
        all_ok = all_ok && ok;
        i += 1;
    }
    proof {
        assert(writes_trace(trace, writes@, entries@));
    }
    let status: u16 = if all_ok {
        STATUS_NO_CONTENT
    } else {
        STATUS_MULTI_STATUS
    };
    (status, entries)
}

} // verus!
