use vstd::prelude::*;
use vstd::string::{StrSliceExecFns, StringExecFns};

use crate::characteristic::{coerce, respects_bounds, Characteristic, Value};
use crate::db::dispatch::{
    is_missing_response, is_read_response, lemma_write_keeps_form, missing_response, pending_after,
    read_response, subscriptions_after, write_outcome, write_to,
};
use crate::db::iid::{
    id_count, iid_at, iids_assigned, lemma_ids_before_by_lengths, lemma_iids_distinct, same_but_ids,
    service_numbered,
};
use crate::error::HapError;
use crate::event::{Dispatch, Emitter, Event};
use crate::json::{accessory_json, lemma_appended, lemma_nothing_appended, push_accessory};
use crate::service::Service;
use crate::transport::http::{
    lemma_reconciled_twice, EventSubscriptions, ReadResponseObject, Status, WriteObject,
    WriteResponseObject,
};
use crate::transport::registry::{registry_without_accessory, SubscriptionRegistry};

verus! {

/// `AccessoryListMember` is implemented by members of an `AccessoryList`.
pub trait AccessoryListMember {
    /// The accessory id; 0 before the accessory joins a list.
    spec fn spec_id(&self) -> u64;

    /// The services, in order.
    spec fn spec_services(&self) -> Seq<Service>;

    /// Returns the accessory id.
    fn get_id(&self) -> (id: u64)
        ensures
            id == self.spec_id(),
    ;

    /// Sets the accessory id.
    fn set_id(&mut self, id: u64)
        ensures
            final(self).spec_id() == id,
            final(self).spec_services() == old(self).spec_services(),
    ;

    /// Returns the services.
    fn get_services(&self) -> (services: &Vec<Service>)
        ensures
            services@ == self.spec_services(),
    ;

    /// Returns the services for a change.
    fn get_mut_services(&mut self) -> (services: &mut Vec<Service>)
        ensures
            services@ == old(self).spec_services(),
            final(self).spec_services() == final(services)@,
            final(self).spec_id() == old(self).spec_id(),
    ;

    /// Gives every service and characteristic its instance id, and every
    /// characteristic the accessory id.
    ///
    /// Fails with `HapError::IdSpaceExhausted`, and changes nothing, where the
    /// accessory needs more instance ids than there are.
    fn init_iids(&mut self, accessory_id: u64) -> (done: Result<(), HapError>)
        ensures
            final(self).spec_id() == old(self).spec_id(),
            done is Ok <==> id_count(old(self).spec_services()) <= u64::MAX,
            match done {
                Ok(_) => {
                    &&& iids_assigned(final(self).spec_services(), accessory_id)
                    &&& same_but_ids(old(self).spec_services(), final(self).spec_services())
                },
                Err(e) => e == HapError::IdSpaceExhausted && final(self).spec_services() == old(
                    self,
                ).spec_services(),
            },
    ;
}

/// What `add_accessory` hands back: the accessory id under which the accessory
/// stands in the list.
#[derive(Clone, Copy, Debug, PartialEq, Eq, Structural)]
pub struct AccessoryHandle {
    pub aid: u64,
}

/// The accessories of a list are in order under the counter `next_id`: every
/// accessory id is at least 1 and below the counter, no two accessories share
/// one, and in every accessory the instance ids are those of the walk, which are
/// pairwise distinct.
pub open spec fn members_wf<M: AccessoryListMember>(members: Seq<M>, next_id: u64) -> bool {
    &&& next_id >= 1
    &&& forall|i: int| 0 <= i < members.len() ==> 1 <= (#[trigger] members[i]).spec_id() < next_id
    &&& forall|i: int, j: int|
        0 <= i < members.len() && 0 <= j < members.len() && i != j ==> (#[trigger] members[i]).spec_id() != (
        #[trigger] members[j]).spec_id()
    &&& forall|i: int|
        0 <= i < members.len() ==> iids_assigned((#[trigger] members[i]).spec_services(), members[i].spec_id())
}

/// Where the accessory with the id `aid` stands; `None` where there is none.
pub open spec fn index_of_aid<M: AccessoryListMember>(members: Seq<M>, aid: u64) -> Option<int> {
    if exists|i: int| 0 <= i < members.len() && (#[trigger] members[i]).spec_id() == aid {
        Some(choose|i: int| 0 <= i < members.len() && (#[trigger] members[i]).spec_id() == aid)
    } else {
        None
    }
}

/// `after` is `before` once it has joined a list under the id `aid`.
pub open spec fn joined<M: AccessoryListMember>(before: M, after: M, aid: u64) -> bool {
    &&& after.spec_id() == aid
    &&& iids_assigned(after.spec_services(), aid)
    &&& same_but_ids(before.spec_services(), after.spec_services())
}

/// Whether the characteristic at `k` of the service at `j` of the accessory at
/// `i` is the one with the accessory id `aid` and the instance id `iid`.
pub open spec fn holds_at<M: AccessoryListMember>(
    members: Seq<M>,
    aid: u64,
    iid: u64,
    i: int,
    j: int,
    k: int,
) -> bool {
    &&& 0 <= i < members.len()
    &&& members[i].spec_id() == aid
    &&& 0 <= j < members[i].spec_services().len()
    &&& 0 <= k < members[i].spec_services()[j].characteristics.len()
    &&& members[i].spec_services()[j].characteristics[k].id == iid
}

/// Where the characteristic with the accessory id `aid` and the instance id `iid`
/// stands: the accessory, the service in it, and the characteristic in the
/// service. `None` where there is none.
pub open spec fn location<M: AccessoryListMember>(members: Seq<M>, aid: u64, iid: u64) -> Option<
    (int, int, int),
> {
    if exists|i: int, j: int, k: int| holds_at(members, aid, iid, i, j, k) {
        Some(choose|i: int, j: int, k: int| holds_at(members, aid, iid, i, j, k))
    } else {
        None
    }
}

/// The characteristic at a place.
pub open spec fn characteristic_at<M: AccessoryListMember>(
    members: Seq<M>,
    place: (int, int, int),
) -> Characteristic {
    members[place.0].spec_services()[place.1].characteristics[place.2]
}

/// `after` is `before` but for the characteristic at `k` of the service at `j`,
/// which is `c`.
pub open spec fn services_changed_at(
    before: Seq<Service>,
    after: Seq<Service>,
    j: int,
    k: int,
    c: Characteristic,
) -> bool {
    &&& after.len() == before.len()
    &&& forall|t: int| 0 <= t < before.len() && t != j ==> #[trigger] after[t] == before[t]
    &&& after[j].id == before[j].id
    &&& after[j].hap_type == before[j].hap_type
    &&& after[j].characteristics@ == before[j].characteristics@.update(k, c)
}

/// `after` is `before` but for the characteristic at `k` of the service at `j` of
/// the accessory at `i`, which is `c`.
pub open spec fn members_changed_at<M: AccessoryListMember>(
    before: Seq<M>,
    after: Seq<M>,
    i: int,
    j: int,
    k: int,
    c: Characteristic,
) -> bool {
    &&& after.len() == before.len()
    &&& forall|t: int| 0 <= t < before.len() && t != i ==> #[trigger] after[t] == before[t]
    &&& after[i].spec_id() == before[i].spec_id()
    &&& services_changed_at(before[i].spec_services(), after[i].spec_services(), j, k, c)
}

/// Whether `r` answers a read of the characteristic with the accessory id `aid`
/// and the instance id `iid`: where the accessories hold no such characteristic
/// it carries the status `ResourceDoesNotExist`; otherwise it is the answer of
/// that characteristic, as `is_read_response` says.
pub open spec fn answers_read<M: AccessoryListMember>(
    members: Seq<M>,
    r: ReadResponseObject,
    aid: u64,
    iid: u64,
    meta: bool,
    perms: bool,
    hap_type: bool,
    ev: bool,
) -> bool {
    match location(members, aid, iid) {
        Some(place) => is_read_response(
            r,
            characteristic_at(members, place),
            aid,
            iid,
            meta,
            perms,
            hap_type,
            ev,
        ),
        None => is_missing_response(r, aid, iid),
    }
}

/// What a list and the session that writes to it hold, as a mathematical value.
pub struct ListState<M> {
    /// The accessories, in the order in which they were added.
    pub members: Seq<M>,
    /// The accessory id that the next accessory gets.
    pub next_id: u64,
    /// The number of listeners of the emitter.
    pub listeners: u64,
    /// The events that wait in the emitter, oldest first.
    pub pending: Seq<Dispatch>,
    /// The subscriptions of the session.
    pub subscriptions: Seq<(u64, u64)>,
}

/// Whether the write `w` leads from the state `before` to the state `after` with
/// the answer `r`.
///
/// The answer names the ids of the write. Where the list holds no such
/// characteristic the status is `ResourceDoesNotExist` and nothing changes.
/// Otherwise the status, the characteristic, the subscriptions and the events
/// that wait are those of `write_outcome`, and nothing else changes.
pub open spec fn write_step<M: AccessoryListMember>(
    before: ListState<M>,
    after: ListState<M>,
    w: WriteObject,
    r: WriteResponseObject,
) -> bool {
    &&& r.aid == w.aid
    &&& r.iid == w.iid
    &&& after.next_id == before.next_id
    &&& after.listeners == before.listeners
    &&& match location(before.members, w.aid, w.iid) {
        Some(place) => {
            let outcome = write_outcome(characteristic_at(before.members, place), w);
            &&& r.status == outcome.status.code_spec()
            &&& members_changed_at(
                before.members,
                after.members,
                place.0,
                place.1,
                place.2,
                outcome.characteristic,
            )
            &&& after.subscriptions == subscriptions_after(before.subscriptions, w.aid, w.iid, outcome)
            &&& after.pending == pending_after(before.pending, before.listeners, w.aid, w.iid, outcome)
        },
        None => {
            &&& r.status == Status::ResourceDoesNotExist.code_spec()
            &&& after.members == before.members
            &&& after.subscriptions == before.subscriptions
            &&& after.pending == before.pending
        },
    }
}

/// In a list that is in order, at most one place holds a characteristic with a
/// given accessory id and instance id.
pub proof fn lemma_location_unique<M: AccessoryListMember>(
    members: Seq<M>,
    next_id: u64,
    aid: u64,
    iid: u64,
    a: (int, int, int),
    b: (int, int, int),
)
    requires
        members_wf(members, next_id),
        holds_at(members, aid, iid, a.0, a.1, a.2),
        holds_at(members, aid, iid, b.0, b.1, b.2),
    ensures
        a == b,
{
    lemma_iids_distinct(members[a.0].spec_services(), aid, a.1, a.2, b.1, b.2);
}

/// A change of one characteristic that keeps its ids keeps a list in order.
pub proof fn lemma_change_keeps_wf<M: AccessoryListMember>(
    before: Seq<M>,
    after: Seq<M>,
    next_id: u64,
    i: int,
    j: int,
    k: int,
    c: Characteristic,
)
    requires
        members_wf(before, next_id),
        0 <= i < before.len(),
        0 <= j < before[i].spec_services().len(),
        0 <= k < before[i].spec_services()[j].characteristics.len(),
        members_changed_at(before, after, i, j, k, c),
        c.id == before[i].spec_services()[j].characteristics[k].id,
        c.accessory_id == before[i].spec_services()[j].characteristics[k].accessory_id,
    ensures
        members_wf(after, next_id),
{
    let old_services = before[i].spec_services();
    let new_services = after[i].spec_services();
    let aid = before[i].spec_id();
    assert forall|t: int| 0 <= t < after.len() implies iids_assigned(
        (#[trigger] after[t]).spec_services(),
        after[t].spec_id(),
    ) by {
        if t == i {
            assert forall|u: int| 0 <= u < new_services.len() implies #[trigger] service_numbered(
                new_services,
                aid,
                u,
            ) by {
                assert(service_numbered(old_services, aid, u));
                lemma_ids_before_by_lengths(old_services, new_services, u);
            }
        }
    }
}

/// The first `n` accessories in JSON, with commas between them.
pub open spec fn members_json<M: AccessoryListMember>(members: Seq<M>, n: int) -> Seq<char>
    decreases n,
{
    if n <= 0 {
        Seq::empty()
    } else if n == 1 {
        accessory_json(members[0].spec_id(), members[0].spec_services())
    } else {
        members_json(members, n - 1) + ","@ + accessory_json(
            members[n - 1].spec_id(),
            members[n - 1].spec_services(),
        )
    }
}

/// The accessory database in JSON: an object with the one member `accessories`,
/// an array of the accessories in their order.
pub open spec fn list_json<M: AccessoryListMember>(members: Seq<M>) -> Seq<char> {
    "{\"accessories\":["@ + members_json(members, members.len() as int) + "]}"@
}

/// In a list that is in order no two accessories share an accessory id, and in
/// no accessory two of the services and characteristics share an instance id.
pub proof fn lemma_ids_unique<M: AccessoryListMember>(members: Seq<M>, next_id: u64)
    requires
        members_wf(members, next_id),
    ensures
        forall|a: int, b: int|
            0 <= a < members.len() && 0 <= b < members.len() && a != b ==> (#[trigger] members[a]).spec_id() != (
            #[trigger] members[b]).spec_id(),
        forall|i: int, j1: int, k1: int, j2: int, k2: int|
            {
                &&& 0 <= i < members.len()
                &&& 0 <= j1 < members[i].spec_services().len()
                &&& 0 <= j2 < members[i].spec_services().len()
                &&& 0 <= k1 <= members[i].spec_services()[j1].characteristics.len()
                &&& 0 <= k2 <= members[i].spec_services()[j2].characteristics.len()
                &&& (j1 != j2 || k1 != k2)
            } ==> #[trigger] iid_at(members[i].spec_services(), j1, k1) != #[trigger] iid_at(
                members[i].spec_services(),
                j2,
                k2,
            ),
{
    assert forall|i: int, j1: int, k1: int, j2: int, k2: int|
        {
            &&& 0 <= i < members.len()
            &&& 0 <= j1 < members[i].spec_services().len()
            &&& 0 <= j2 < members[i].spec_services().len()
            &&& 0 <= k1 <= members[i].spec_services()[j1].characteristics.len()
            &&& 0 <= k2 <= members[i].spec_services()[j2].characteristics.len()
            &&& (j1 != j2 || k1 != k2)
        } implies #[trigger] iid_at(members[i].spec_services(), j1, k1) != #[trigger] iid_at(
        members[i].spec_services(),
        j2,
        k2,
    ) by {
        lemma_iids_distinct(members[i].spec_services(), members[i].spec_id(), j1, k1, j2, k2);
    }
}

/// In a list that is in order no accessory carries the id of the counter or a
/// greater one: the id that the next accessory gets was never handed out.
pub proof fn lemma_next_id_is_fresh<M: AccessoryListMember>(members: Seq<M>, next_id: u64, aid: u64)
    requires
        members_wf(members, next_id),
        aid >= next_id,
    ensures
        index_of_aid(members, aid) is None,
{
}

/// Where no accessory carries the id `aid`, no characteristic is found under it.
pub proof fn lemma_no_accessory_no_characteristic<M: AccessoryListMember>(
    members: Seq<M>,
    aid: u64,
    iid: u64,
)
    requires
        index_of_aid(members, aid) is None,
    ensures
        location(members, aid, iid) is None,
{
    assert forall|i: int, j: int, k: int| !holds_at(members, aid, iid, i, j, k) by {
        if holds_at(members, aid, iid, i, j, k) {
            assert(members[i].spec_id() == aid);
        }
    }
}

/// The value that the write `w` publishes in a list with these accessories;
/// `None` where it changes no value.
pub open spec fn published_by<M: AccessoryListMember>(members: Seq<M>, w: WriteObject) -> Option<Value> {
    match location(members, w.aid, w.iid) {
        Some(place) => write_outcome(characteristic_at(members, place), w).published,
        None => None,
    }
}

/// The event of a changed value, as it waits in the emitter.
pub open spec fn change_of(w: WriteObject, value: Value, listeners: u64) -> Dispatch {
    Dispatch { event: Event::CharacteristicValueChanged { aid: w.aid, iid: w.iid, value }, listeners }
}

/// Where two writes follow each other and each changes a value, the two events
/// wait in the emitter behind those that waited before, the event of the first
/// write before the event of the second.
pub proof fn lemma_events_in_order<M: AccessoryListMember>(
    s0: ListState<M>,
    s1: ListState<M>,
    s2: ListState<M>,
    w1: WriteObject,
    r1: WriteResponseObject,
    w2: WriteObject,
    r2: WriteResponseObject,
)
    requires
        write_step(s0, s1, w1, r1),
        write_step(s1, s2, w2, r2),
        published_by(s0.members, w1) is Some,
        published_by(s1.members, w2) is Some,
    ensures
        s2.pending == s0.pending.push(
            change_of(w1, published_by(s0.members, w1).unwrap(), s0.listeners),
        ).push(change_of(w2, published_by(s1.members, w2).unwrap(), s0.listeners)),
{
}

/// Every characteristic of the accessories holds a value that its format stores
/// and its bounds admit.
pub open spec fn members_conform<M: AccessoryListMember>(members: Seq<M>) -> bool {
    forall|i: int, j: int|
        0 <= i < members.len() && 0 <= j < members[i].spec_services().len() ==> (
        #[trigger] members[i].spec_services()[j]).wf()
}

/// A write leaves every value in the form that its format stores and within its
/// bounds.
pub proof fn lemma_write_keeps_values_in_form<M: AccessoryListMember>(
    before: ListState<M>,
    after: ListState<M>,
    w: WriteObject,
    r: WriteResponseObject,
)
    requires
        write_step(before, after, w, r),
        members_conform(before.members),
    ensures
        members_conform(after.members),
{
    if let Some(place) = location(before.members, w.aid, w.iid) {
        lemma_write_keeps_form(characteristic_at(before.members, place), w);
    }
}

/// A change of one characteristic that keeps its ids leaves every
/// characteristic where it stood.
pub proof fn lemma_change_keeps_location<M: AccessoryListMember>(
    before: Seq<M>,
    after: Seq<M>,
    next_id: u64,
    place: (int, int, int),
    c: Characteristic,
    aid: u64,
    iid: u64,
)
    requires
        members_wf(before, next_id),
        location(before, aid, iid) == Some(place),
        members_changed_at(before, after, place.0, place.1, place.2, c),
        c.id == characteristic_at(before, place).id,
        c.accessory_id == characteristic_at(before, place).accessory_id,
    ensures
        members_wf(after, next_id),
        location(after, aid, iid) == Some(place),
        characteristic_at(after, place) == c,
{
    let (i, j, k) = place;
    lemma_change_keeps_wf(before, after, next_id, i, j, k, c);
    let there = choose|a: int, b: int, d: int| holds_at(after, aid, iid, a, b, d);
    lemma_location_unique(after, next_id, aid, iid, place, there);
}

/// A write that switches the notifications for a characteristic on, applied
/// twice, leaves the subscriptions of the session after the second write as they
/// were after the first; likewise one that switches them off.
pub proof fn lemma_subscribing_twice<M: AccessoryListMember>(
    s0: ListState<M>,
    s1: ListState<M>,
    s2: ListState<M>,
    w1: WriteObject,
    r1: WriteResponseObject,
    w2: WriteObject,
    r2: WriteResponseObject,
)
    requires
        members_wf(s0.members, s0.next_id),
        s0.subscriptions.no_duplicates(),
        write_step(s0, s1, w1, r1),
        write_step(s1, s2, w2, r2),
        w1.ev is Some,
        w2.ev == w1.ev,
        w2.aid == w1.aid,
        w2.iid == w1.iid,
    ensures
        s2.subscriptions == s1.subscriptions,
{
    match location(s0.members, w1.aid, w1.iid) {
        Some(place) => {
            let c = characteristic_at(s0.members, place);
            let first = write_outcome(c, w1);
            lemma_change_keeps_location(
                s0.members,
                s1.members,
                s0.next_id,
                place,
                first.characteristic,
                w1.aid,
                w1.iid,
            );
            lemma_reconciled_twice(s0.subscriptions, (w1.aid, w1.iid), w1.ev.unwrap());
        },
        None => {},
    }
}

/// Returns where the characteristic with the instance id `iid` stands among the
/// services: the service, and the characteristic in it.
fn find_in_services(services: &Vec<Service>, iid: u64) -> (found: Option<(usize, usize)>)
    ensures
        match found {
            Some((j, k)) => {
                &&& j < services.len()
                &&& k < services@[j as int].characteristics.len()
                &&& services@[j as int].characteristics[k as int].id == iid
            },
            None => forall|j: int, k: int|
                0 <= j < services.len() && 0 <= k < services@[j].characteristics.len()
                    ==> (#[trigger] services@[j].characteristics[k]).id != iid,
        },
{
    let mut j: usize = 0;
    while j < services.len()
        invariant
            j <= services.len(),
            forall|t: int, k: int|
                0 <= t < j && 0 <= k < services@[t].characteristics.len()
                    ==> (#[trigger] services@[t].characteristics[k]).id != iid,
        decreases services.len() - j,
    {
        let characteristics = services[j].get_characteristics();
        let mut k: usize = 0;
        while k < characteristics.len()
            invariant
                k <= characteristics.len(),
                j < services.len(),
                *characteristics == services@[j as int].characteristics,
                forall|u: int| 0 <= u < k ==> (#[trigger] characteristics@[u]).id != iid,
            decreases characteristics.len() - k,
        {
            if characteristics[k].id == iid {
                return Some((j, k));
            }
            k += 1;
        }
        j += 1;
    }
    None
}

/// Returns where the characteristic with the accessory id `aid` and the instance
/// id `iid` stands.
fn find_characteristic<M: AccessoryListMember>(members: &Vec<M>, aid: u64, iid: u64) -> (found: Option<
    (usize, usize, usize),
>)
    requires
        exists|next_id: u64| members_wf(members@, next_id),
    ensures
        match found {
            Some((i, j, k)) => {
                &&& holds_at(members@, aid, iid, i as int, j as int, k as int)
                &&& location(members@, aid, iid) == Some((i as int, j as int, k as int))
            },
            None => location(members@, aid, iid) is None,
        },
{
    let ghost next_id = choose|next_id: u64| members_wf(members@, next_id);
    match find_member(members, aid) {
        Some(i) => {
            match find_in_services(members[i].get_services(), iid) {
                Some((j, k)) => {
                    proof {
                        let here = (i as int, j as int, k as int);
                        let there = choose|a: int, b: int, c: int| holds_at(members@, aid, iid, a, b, c);
                        lemma_location_unique(members@, next_id, aid, iid, here, there);
                    }
                    Some((i, j, k))
                },
                None => None,
            }
        },
        None => None,
    }
}

/// Returns where the accessory with the id `aid` stands.
fn find_member<M: AccessoryListMember>(members: &Vec<M>, aid: u64) -> (found: Option<usize>)
    requires
        exists|next_id: u64| members_wf(members@, next_id),
    ensures
        match found {
            Some(i) => i < members.len() && members@[i as int].spec_id() == aid && index_of_aid(members@, aid)
                == Some(i as int),
            None => index_of_aid(members@, aid) is None,
        },
{
    let mut i: usize = 0;
    while i < members.len()
        invariant
            i <= members.len(),
            exists|next_id: u64| members_wf(members@, next_id),
            forall|t: int| 0 <= t < i ==> (#[trigger] members@[t]).spec_id() != aid,
        decreases members.len() - i,
    {
        if members[i].get_id() == aid {
            return Some(i);
        }
        i += 1;
    }
    None
}

/// `AccessoryList` owns the accessories of a server and hands out their ids.
pub struct AccessoryList<M: AccessoryListMember> {
    accessories: Vec<M>,
    event_emitter: Emitter,
    id_count: u64,
}

impl<M: AccessoryListMember> AccessoryList<M> {
    /// The accessories, in the order in which they were added.
    pub closed spec fn members(&self) -> Seq<M> {
        self.accessories@
    }

    /// The accessory id that the next accessory gets.
    pub closed spec fn next_id(&self) -> u64 {
        self.id_count
    }

    /// The emitter that takes the events of the list.
    pub closed spec fn emitter(&self) -> Emitter {
        self.event_emitter
    }

    /// What the list holds, beside the subscriptions of a session.
    pub open spec fn state(&self, subscriptions: Seq<(u64, u64)>) -> ListState<M> {
        ListState {
            members: self.members(),
            next_id: self.next_id(),
            listeners: self.emitter().listeners(),
            pending: self.emitter().pending(),
            subscriptions,
        }
    }

    /// The accessories are in order under the counter: see `members_wf`.
    #[verifier::type_invariant]
    pub open spec fn wf(&self) -> bool {
        members_wf(self.members(), self.next_id())
    }

    /// Creates a new `AccessoryList`.
    pub fn new(event_emitter: Emitter) -> (list: AccessoryList<M>)
        ensures
            list.wf(),
            list.members() == Seq::<M>::empty(),
            list.next_id() == 1,
            list.emitter() == event_emitter,
    {
        AccessoryList { accessories: Vec::new(), event_emitter, id_count: 1 }
    }

    /// Returns the accessories, in the order in which they were added.
    pub fn accessories(&self) -> (accessories: &Vec<M>)
        ensures
            self.wf(),
            accessories@ == self.members(),
    {
        proof {
            use_type_invariant(self);
        }
        &self.accessories
    }

    /// Returns the accessory behind a handle; `None` where the list holds no
    /// accessory with the id of the handle.
    pub fn get_accessory(&self, accessory: &AccessoryHandle) -> (found: Option<&M>)
        ensures
            self.wf(),
            match index_of_aid(self.members(), accessory.aid) {
                Some(i) => found == Some(&self.members()[i]),
                None => found is None,
            },
    {
        proof {
            use_type_invariant(self);
        }
        match find_member(&self.accessories, accessory.aid) {
            Some(i) => Some(&self.accessories[i]),
            None => None,
        }
    }

    /// Returns the emitter that takes the events of the list.
    pub fn event_emitter(&self) -> (emitter: &Emitter)
        ensures
            *emitter == self.emitter(),
    {
        &self.event_emitter
    }

    /// Registers a listener with the emitter of the list and returns its token;
    /// `None` where no token is left.
    pub fn add_listener(&mut self) -> (token: Option<u64>)
        ensures
            final(self).wf(),
            final(self).members() == old(self).members(),
            final(self).next_id() == old(self).next_id(),
            final(self).emitter().pending() == old(self).emitter().pending(),
            match token {
                Some(t) => t == old(self).emitter().listeners() && final(self).emitter().listeners() == t + 1,
                None => old(self).emitter().listeners() == u64::MAX && final(self).emitter().listeners()
                    == u64::MAX,
            },
    {
        proof {
            use_type_invariant(&*self);
        }
        let mut event_emitter = Emitter::new();
        std::mem::swap(&mut self.event_emitter, &mut event_emitter);
        let token = event_emitter.add_listener();
        self.event_emitter = event_emitter;
        token
    }

    /// Emits an event through the emitter of the list: it waits, behind those
    /// emitted before it, for the listeners that are registered now.
    pub fn emit(&mut self, event: Event)
        ensures
            final(self).wf(),
            final(self).members() == old(self).members(),
            final(self).next_id() == old(self).next_id(),
            final(self).emitter().listeners() == old(self).emitter().listeners(),
            final(self).emitter().pending() == old(self).emitter().pending().push(
                (Dispatch { event, listeners: old(self).emitter().listeners() }),
            ),
    {
        proof {
            use_type_invariant(&*self);
        }
        let mut event_emitter = Emitter::new();
        std::mem::swap(&mut self.event_emitter, &mut event_emitter);
        event_emitter.emit(event);
        self.event_emitter = event_emitter;
    }

    /// Takes the oldest event that waits in the emitter of the list, with the
    /// listeners to call.
    pub fn next_dispatch(&mut self) -> (next: Option<Dispatch>)
        ensures
            final(self).wf(),
            final(self).members() == old(self).members(),
            final(self).next_id() == old(self).next_id(),
            final(self).emitter().listeners() == old(self).emitter().listeners(),
            match next {
                Some(d) => old(self).emitter().pending().len() > 0 && d == old(self).emitter().pending()[0]
                    && final(self).emitter().pending() == old(self).emitter().pending().drop_first(),
                None => old(self).emitter().pending().len() == 0 && final(self).emitter().pending() == old(
                    self,
                ).emitter().pending(),
            },
    {
        proof {
            use_type_invariant(&*self);
        }
        let mut event_emitter = Emitter::new();
        std::mem::swap(&mut self.event_emitter, &mut event_emitter);
        let next = event_emitter.next_dispatch();
        self.event_emitter = event_emitter;
        next
    }

    /// Adds an Accessory to the `AccessoryList` and returns a handle to the added
    /// Accessory.
    ///
    /// The accessory gets the next accessory id, and its services and
    /// characteristics get their instance ids. An accessory that carries an
    /// accessory id was added before and is refused with
    /// `HapError::DuplicateAccessory`; where no id is left for the accessory or for
    /// its parts, the error is `HapError::IdSpaceExhausted`. A refusal leaves the list
    /// as it was.
    pub fn add_accessory(&mut self, accessory: M) -> (added: Result<AccessoryHandle, HapError>)
        ensures
            final(self).wf(),
            final(self).emitter() == old(self).emitter(),
            added is Ok <==> {
                &&& accessory.spec_id() == 0
                &&& old(self).next_id() < u64::MAX
                &&& id_count(accessory.spec_services()) <= u64::MAX
            },
            match added {
                Ok(handle) => {
                    &&& handle.aid == old(self).next_id()
                    &&& final(self).next_id() == old(self).next_id() + 1
                    &&& final(self).members().len() == old(self).members().len() + 1
                    &&& final(self).members().drop_last() == old(self).members()
                    &&& joined(accessory, final(self).members().last(), handle.aid)
                },
                Err(e) => {
                    &&& final(self).members() == old(self).members()
                    &&& final(self).next_id() == old(self).next_id()
                    &&& e == if accessory.spec_id() != 0 {
                        HapError::DuplicateAccessory
                    } else {
                        HapError::IdSpaceExhausted
                    }
                },
            },
    {
        proof {
            use_type_invariant(&*self);
        }
        let mut a = accessory;
        if a.get_id() != 0 {
            return Err(HapError::DuplicateAccessory);
        }
        if self.id_count == u64::MAX {
            return Err(HapError::IdSpaceExhausted);
        }
        let aid: u64 = self.id_count;
        a.set_id(aid);
        match a.init_iids(aid) {
            Ok(_) => {},
            Err(_) => {
                return Err(HapError::IdSpaceExhausted);
            },
        }
        let mut accessories: Vec<M> = Vec::new();
        std::mem::swap(&mut self.accessories, &mut accessories);
        self.id_count = aid + 1;
        accessories.push(a);
        self.accessories = accessories;
        Ok(AccessoryHandle { aid })
    }

    /// Takes a handle to an Accessory and removes the Accessory from the
    /// `AccessoryList`, together with the subscriptions to its characteristics.
    ///
    /// Fails with `HapError::NotFound`, and changes nothing, where no accessory of the
    /// list has the id of the handle.
    pub fn remove_accessory(
        &mut self,
        accessory: &AccessoryHandle,
        subscriptions: &mut SubscriptionRegistry,
    ) -> (removed: Result<(), HapError>)
        ensures
            final(self).wf(),
            final(self).emitter() == old(self).emitter(),
            final(self).next_id() == old(self).next_id(),
            match index_of_aid(old(self).members(), accessory.aid) {
                Some(i) => {
                    &&& removed is Ok
                    &&& final(self).members() == old(self).members().remove(i)
                    &&& index_of_aid(final(self).members(), accessory.aid) is None
                    &&& final(subscriptions)@ == registry_without_accessory(old(subscriptions)@, accessory.aid)
                },
                None => {
                    &&& removed == Err::<(), HapError>(HapError::NotFound)
                    &&& final(self).members() == old(self).members()
                    &&& final(subscriptions)@ == old(subscriptions)@
                },
            },
    {
        proof {
            use_type_invariant(&*self);
        }
        match find_member(&self.accessories, accessory.aid) {
            Some(i) => {
                let mut accessories: Vec<M> = Vec::new();
                std::mem::swap(&mut self.accessories, &mut accessories);
                let ghost before = accessories@;
                accessories.remove(i);
                proof {
                    let after = accessories@;
                    assert forall|t: int| 0 <= t < after.len() implies #[trigger] after[t] == before[if t < i {
                        t
                    } else {
                        t + 1
                    }] by {}
                }
                self.accessories = accessories;
                subscriptions.drop_accessory(accessory.aid);
                Ok(())
            },
            None => Err(HapError::NotFound),
        }
    }

    /// Reads a characteristic.
    ///
    /// The answer names the ids that were asked for. Where the list holds no such
    /// characteristic it carries the status `ResourceDoesNotExist`; otherwise it
    /// is the answer of that characteristic: see `answers_read`. The list stays
    /// as it is.
    pub fn read_characteristic(
        &self,
        aid: u64,
        iid: u64,
        meta: bool,
        perms: bool,
        hap_type: bool,
        ev: bool,
    ) -> (r: ReadResponseObject)
        ensures
            self.wf(),
            answers_read(self.members(), r, aid, iid, meta, perms, hap_type, ev),
    {
        proof {
            use_type_invariant(self);
        }
        match find_characteristic(&self.accessories, aid, iid) {
            Some((i, j, k)) => {
                let services = self.accessories[i].get_services();
                read_response(&services[j].characteristics[k], aid, iid, meta, perms, hap_type, ev)
            },
            None => missing_response(aid, iid),
        }
    }

    /// Writes to a characteristic on behalf of the session that holds
    /// `event_subscriptions`.
    ///
    /// The answer names the ids of the write. Where the list holds no such
    /// characteristic it carries the status `ResourceDoesNotExist` and nothing
    /// changes. Otherwise the characteristic, the subscriptions and the events
    /// that wait in the emitter change as `write_outcome` says, and nothing else
    /// does: see `write_step`.
    pub fn write_characteristic(
        &mut self,
        write_object: WriteObject,
        event_subscriptions: &mut EventSubscriptions,
    ) -> (r: WriteResponseObject)
        ensures
            final(self).wf(),
            write_step(
                old(self).state(old(event_subscriptions)@),
                final(self).state(final(event_subscriptions)@),
                write_object,
                r,
            ),
    {
        proof {
            use_type_invariant(&*self);
        }
        let aid: u64 = write_object.aid;
        let iid: u64 = write_object.iid;
        match find_characteristic(&self.accessories, aid, iid) {
            Some((i, j, k)) => {
                let mut accessories: Vec<M> = Vec::new();
                std::mem::swap(&mut self.accessories, &mut accessories);
                let mut event_emitter = Emitter::new();
                std::mem::swap(&mut self.event_emitter, &mut event_emitter);
                let ghost before = accessories@;
                let ghost outcome = write_outcome(characteristic_at(before, (i as int, j as int, k as int)), write_object);
                let services = accessories[i].get_mut_services();
                let status = write_to(
                    &mut services[j].characteristics[k],
                    write_object,
                    event_subscriptions,
                    &mut event_emitter,
                );
                proof {
                    assert(members_changed_at(
                        before,
                        accessories@,
                        i as int,
                        j as int,
                        k as int,
                        outcome.characteristic,
                    ));
                    lemma_change_keeps_wf(
                        before,
                        accessories@,
                        self.id_count,
                        i as int,
                        j as int,
                        k as int,
                        outcome.characteristic,
                    );
                }
                self.event_emitter = event_emitter;
                self.accessories = accessories;
                WriteResponseObject { iid, aid, status: status.code() }
            },
            None => WriteResponseObject { iid, aid, status: Status::ResourceDoesNotExist.code() },
        }
    }

    /// Sets the value of a characteristic on behalf of its accessory, whatever the
    /// permissions of the characteristic are.
    ///
    /// Where the list holds no such characteristic the result is
    /// `HapError::NotFound`; where the format or the bounds of the characteristic
    /// refuse the value it is `HapError::InvalidValue`; either way nothing
    /// changes. Otherwise the value is stored as the format coerces it, the result
    /// says whether it differs from the value that was stored before, and where it
    /// does the change waits in the emitter behind the events emitted before it.
    pub fn set_value(&mut self, accessory: &AccessoryHandle, iid: u64, value: Value) -> (set: Result<
        bool,
        HapError,
    >)
        ensures
            final(self).wf(),
            final(self).next_id() == old(self).next_id(),
            final(self).emitter().listeners() == old(self).emitter().listeners(),
            match location(old(self).members(), accessory.aid, iid) {
                Some(place) => match characteristic_at(old(self).members(), place).accepted(value) {
                    Some(stored) => {
                        let c = characteristic_at(old(self).members(), place);
                        let changed = stored@ != c.value@;
                        &&& set == Ok::<bool, HapError>(changed)
                        &&& members_changed_at(
                            old(self).members(),
                            final(self).members(),
                            place.0,
                            place.1,
                            place.2,
                            (Characteristic { value: stored, ..c }),
                        )
                        &&& final(self).emitter().pending() == if changed {
                            old(self).emitter().pending().push(
                                (Dispatch {
                                    event: Event::CharacteristicValueChanged {
                                        aid: accessory.aid,
                                        iid,
                                        value: stored,
                                    },
                                    listeners: old(self).emitter().listeners(),
                                }),
                            )
                        } else {
                            old(self).emitter().pending()
                        }
                    },
                    None => {
                        &&& set == Err::<bool, HapError>(HapError::InvalidValue)
                        &&& final(self).members() == old(self).members()
                        &&& final(self).emitter().pending() == old(self).emitter().pending()
                    },
                },
                None => {
                    &&& set == Err::<bool, HapError>(HapError::NotFound)
                    &&& final(self).members() == old(self).members()
                    &&& final(self).emitter().pending() == old(self).emitter().pending()
                },
            },
    {
        proof {
            use_type_invariant(&*self);
        }
        let aid: u64 = accessory.aid;
        match find_characteristic(&self.accessories, aid, iid) {
            Some((i, j, k)) => {
                let c = &self.accessories[i].get_services()[j].characteristics[k];
                let stored = match coerce(c.format, value) {
                    Some(stored) => stored,
                    None => {
                        return Err(HapError::InvalidValue);
                    },
                };
                if !respects_bounds(&stored, &c.min_value, &c.max_value, &c.step_value, c.max_len) {
                    return Err(HapError::InvalidValue);
                }
                let changed = !stored.same(&c.value);
                let published = stored.clone();
                let mut accessories: Vec<M> = Vec::new();
                std::mem::swap(&mut self.accessories, &mut accessories);
                let mut event_emitter = Emitter::new();
                std::mem::swap(&mut self.event_emitter, &mut event_emitter);
                let ghost before = accessories@;
                let ghost after_write = Characteristic {
                    value: stored,
                    ..characteristic_at(before, (i as int, j as int, k as int))
                };
                let services = accessories[i].get_mut_services();
                services[j].characteristics[k].value = stored;
                if changed {
                    event_emitter.emit(Event::CharacteristicValueChanged { aid, iid, value: published });
                }
                proof {
                    assert(members_changed_at(before, accessories@, i as int, j as int, k as int, after_write));
                    lemma_change_keeps_wf(
                        before,
                        accessories@,
                        self.id_count,
                        i as int,
                        j as int,
                        k as int,
                        after_write,
                    );
                }
                self.event_emitter = event_emitter;
                self.accessories = accessories;
                Ok(changed)
            },
            None => Err(HapError::NotFound),
        }
    }

    /// Serializes an `AccessoryList` to the text of its JSON document. The list
    /// stays as it is, and the document depends on the accessories alone.
    pub fn serialize(&self) -> (document: Result<String, HapError>)
        ensures
            document matches Ok(text) && text@ == list_json(self.members()),
    {
        let mut out = String::from_str("{\"accessories\":[");
        let ghost start = out@;
        let mut i: usize = 0;
        proof {
            lemma_nothing_appended(start);
        }
        while i < self.accessories.len()
            invariant
                i <= self.accessories.len(),
                out@ == start + members_json(self.accessories@, i as int),
            decreases self.accessories.len() - i,
        {
            let ghost before = members_json(self.accessories@, i as int);
            let ghost item = accessory_json(
                self.accessories@[i as int].spec_id(),
                self.accessories@[i as int].spec_services(),
            );
            if i > 0 {
                out.append(",");
                proof {
                    lemma_appended(start, before, ","@);
                }
            }
            let member = &self.accessories[i];
            push_accessory(&mut out, member.get_id(), member.get_services())?;
            proof {
                if i > 0 {
                    lemma_appended(start, before + ","@, item);
                } else {
                    lemma_nothing_appended(item);
                }
            }
            i += 1;
        }
        out.append("]}");
        Ok(out)
    }

    /// Serializes an `AccessoryList` to a `Vec<u8>`: the JSON document in UTF-8.
    /// The list stays as it is, and the bytes depend on the accessories alone.
    /// They are valid UTF-8, and decoding them gives the text of the document.
    pub fn as_bytes(&self) -> (bytes: Result<Vec<u8>, HapError>)
        ensures
            bytes matches Ok(b) && b@ == vstd::utf8::encode_utf8(list_json(self.members())),
            bytes matches Ok(b) && vstd::utf8::valid_utf8(b@) && vstd::utf8::decode_utf8(b@) == list_json(
                self.members(),
            ),
    {
        let text = self.serialize()?;
        proof {
            vstd::utf8::encode_utf8_valid_utf8(text@);
            vstd::utf8::encode_utf8_decode_utf8(text@);
        }
        Ok(text.as_str().as_bytes_vec())
    }
}

} // verus!
