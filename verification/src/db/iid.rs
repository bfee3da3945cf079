use vstd::prelude::*;

use crate::characteristic::Characteristic;
use crate::error::HapError;
use crate::service::Service;

verus! {

/// The number of instance ids that the services before the one at `j` take: one
/// for each of their characteristics and one for each service.
pub open spec fn ids_before(services: Seq<Service>, j: int) -> int
    decreases j,
{
    if j <= 0 {
        0
    } else {
        ids_before(services, j - 1) + services[j - 1].characteristics.len() + 1
    }
}

/// The number of instance ids that an accessory with these services takes.
pub open spec fn id_count(services: Seq<Service>) -> int {
    ids_before(services, services.len() as int)
}

/// The service at `j` and its characteristics carry the instance ids that a walk
/// gives them which starts at 1, takes the services in order, and in each service
/// first its characteristics in order and then the service itself. Each
/// characteristic carries the accessory id.
pub open spec fn service_numbered(services: Seq<Service>, aid: u64, j: int) -> bool {
    let s = services[j];
    let base = ids_before(services, j);
    &&& s.id == base + s.characteristics.len() + 1
    &&& forall|k: int|
        0 <= k < s.characteristics.len() ==> {
            &&& (#[trigger] s.characteristics[k]).id == base + k + 1
            &&& s.characteristics[k].accessory_id == aid
        }
}

/// Every service and characteristic carries its instance id of the walk.
pub open spec fn iids_assigned(services: Seq<Service>, aid: u64) -> bool {
    forall|j: int| 0 <= j < services.len() ==> #[trigger] service_numbered(services, aid, j)
}

/// Two characteristics differ at most in their instance id and accessory id.
pub open spec fn same_but_id(a: Characteristic, b: Characteristic) -> bool {
    b == (Characteristic { id: b.id, accessory_id: b.accessory_id, ..a })
}

/// Two lists of services differ at most in the instance ids and accessory ids
/// that they carry.
pub open spec fn same_but_ids(a: Seq<Service>, b: Seq<Service>) -> bool {
    &&& a.len() == b.len()
    &&& forall|j: int|
        0 <= j < a.len() ==> {
            &&& (#[trigger] b[j]).hap_type == a[j].hap_type
            &&& b[j].characteristics.len() == a[j].characteristics.len()
            &&& forall|k: int|
                0 <= k < a[j].characteristics.len() ==> same_but_id(
                    a[j].characteristics[k],
                    #[trigger] b[j].characteristics[k],
                )
        }
}

/// The ids counted grow with the services counted.
pub proof fn lemma_ids_before_grows(services: Seq<Service>, a: int, b: int)
    requires
        0 <= a <= b,
    ensures
        0 <= ids_before(services, a) <= ids_before(services, b),
        a < b ==> ids_before(services, a) + services[a].characteristics.len() + 1 <= ids_before(
            services,
            b,
        ),
    decreases b,
{
    if b > 0 {
        if a < b {
            lemma_ids_before_grows(services, a, b - 1);
        }
        lemma_ids_before_grows(services, 0, b - 1);
    }
}

/// The ids counted depend only on how many characteristics each service has.
pub proof fn lemma_ids_before_by_lengths(a: Seq<Service>, b: Seq<Service>, j: int)
    requires
        0 <= j <= a.len(),
        j <= b.len(),
        forall|t: int| 0 <= t < j ==> (#[trigger] a[t]).characteristics.len() == b[t].characteristics.len(),
    ensures
        ids_before(a, j) == ids_before(b, j),
    decreases j,
{
    if j > 0 {
        lemma_ids_before_by_lengths(a, b, j - 1);
    }
}

/// Instance ids that were assigned by the walk are pairwise distinct: those of two
/// characteristics, those of two services, and that of a characteristic and that
/// of a service. None is 0.
pub proof fn lemma_iids_distinct(services: Seq<Service>, aid: u64, j1: int, k1: int, j2: int, k2: int)
    requires
        iids_assigned(services, aid),
        0 <= j1 < services.len(),
        0 <= j2 < services.len(),
        0 <= k1 <= services[j1].characteristics.len(),
        0 <= k2 <= services[j2].characteristics.len(),
    ensures
        iid_at(services, j1, k1) == iid_at(services, j2, k2) ==> j1 == j2 && k1 == k2,
        iid_at(services, j1, k1) == ids_before(services, j1) + k1 + 1,
        iid_at(services, j1, k1) >= 1,
{
    assert(service_numbered(services, aid, j1));
    assert(service_numbered(services, aid, j2));
    lemma_ids_before_grows(services, 0, j1);
    if j1 < j2 {
        lemma_ids_before_grows(services, j1, j2);
    }
    if j2 < j1 {
        lemma_ids_before_grows(services, j2, j1);
    }
}

/// The instance id at a place of the walk: that of the characteristic at `k` of
/// the service at `j`, or that of the service itself where `k` is the number of
/// its characteristics.
pub open spec fn iid_at(services: Seq<Service>, j: int, k: int) -> u64 {
    if k == services[j].characteristics.len() {
        services[j].id
    } else {
        services[j].characteristics[k].id
    }
}

/// The service at `t` of `current` carries its instance ids of the walk, and
/// differs from the one at `t` of `before` at most in such ids.
spec fn service_done(before: Seq<Service>, current: Seq<Service>, aid: u64, t: int) -> bool {
    &&& current[t].hap_type == before[t].hap_type
    &&& current[t].characteristics.len() == before[t].characteristics.len()
    &&& current[t].id == ids_before(before, t) + before[t].characteristics.len() + 1
    &&& forall|k: int|
        0 <= k < before[t].characteristics.len() ==> {
            &&& same_but_id(before[t].characteristics[k], #[trigger] current[t].characteristics[k])
            &&& current[t].characteristics[k].id == ids_before(before, t) + k + 1
            &&& current[t].characteristics[k].accessory_id == aid
        }
}

/// Counts the instance ids that the services take; `None` where they are more
/// than there are instance ids.
pub fn count_ids(services: &Vec<Service>) -> (total: Option<u64>)
    ensures
        match total {
            Some(n) => n == id_count(services@),
            None => id_count(services@) > u64::MAX,
        },
{
    let mut total: u64 = 0;
    let mut j: usize = 0;
    while j < services.len()
        invariant
            j <= services.len(),
            total == ids_before(services@, j as int),
        decreases services.len() - j,
    {
        let n: usize = services[j].characteristics.len();
        if n as u64 >= u64::MAX - total {
            proof {
                lemma_ids_before_grows(services@, j as int + 1, services.len() as int);
            }
            return None;
        }
        total = total + n as u64 + 1;
        j += 1;
    }
    Some(total)
}

/// Gives every service and characteristic its instance id, and every
/// characteristic the accessory id.
///
/// Fails with `HapError::IdSpaceExhausted`, and changes nothing, where the services
/// take more instance ids than there are.
pub fn assign_iids(services: &mut Vec<Service>, accessory_id: u64) -> (done: Result<(), HapError>)
    ensures
        done is Ok <==> id_count(old(services)@) <= u64::MAX,
        match done {
            Ok(_) => {
                &&& iids_assigned(final(services)@, accessory_id)
                &&& same_but_ids(old(services)@, final(services)@)
            },
            Err(e) => e == HapError::IdSpaceExhausted && final(services)@ == old(services)@,
        },
{
    if count_ids(services).is_none() {
        return Err(HapError::IdSpaceExhausted);
    }
    let ghost before = services@;
    let mut used: u64 = 0;
    let mut j: usize = 0;
    while j < services.len()
        invariant
            j <= services.len(),
            services.len() == before.len(),
            id_count(before) <= u64::MAX,
            used == ids_before(before, j as int),
            forall|t: int| j <= t < services.len() ==> services@[t] == before[t],
            forall|t: int| 0 <= t < j ==> #[trigger] service_done(before, services@, accessory_id, t),
        decreases services.len() - j,
    {
        let ghost base = used as int;
        let ghost entry = services@;
        let n: usize = services[j].characteristics.len();
        proof {
            lemma_ids_before_grows(before, j as int + 1, before.len() as int);
        }
        let mut k: usize = 0;
        while k < n
            invariant
                k <= n,
                j < services.len(),
                services.len() == entry.len(),
                services.len() == before.len(),
                n == before[j as int].characteristics.len(),
                base + n + 1 <= u64::MAX,
                used == base + k,
                entry[j as int] == before[j as int],
                base == ids_before(before, j as int),
                forall|t: int| 0 <= t < j ==> #[trigger] service_done(before, entry, accessory_id, t),
                forall|t: int| 0 <= t < services.len() && t != j ==> services@[t] == entry[t],
                services@[j as int].hap_type == before[j as int].hap_type,
                services@[j as int].id == before[j as int].id,
                services@[j as int].characteristics.len() == n,
                forall|i: int|
                    k <= i < n ==> services@[j as int].characteristics[i] == before[j as int].characteristics[i],
                forall|i: int|
                    0 <= i < k ==> {
                        &&& same_but_id(
                            before[j as int].characteristics[i],
                            #[trigger] services@[j as int].characteristics[i],
                        )
                        &&& services@[j as int].characteristics[i].id == base + i + 1
                        &&& services@[j as int].characteristics[i].accessory_id == accessory_id
                    },
            decreases n - k,
        {
            used = used + 1;
            services[j].characteristics[k].id = used;
            services[j].characteristics[k].accessory_id = accessory_id;
            k += 1;
        }
        used = used + 1;
        services[j].id = used;
        proof {
            let now = services@;
            assert forall|t: int| 0 <= t < j + 1 implies #[trigger] service_done(
                before,
                now,
                accessory_id,
                t,
            ) by {
                if t < j {
                    assert(service_done(before, entry, accessory_id, t));
                }
            }
        }
        j += 1;
    }
    proof {
        let after = services@;
        assert forall|t: int| 0 <= t < after.len() implies #[trigger] service_numbered(
            after,
            accessory_id,
            t,
        ) by {
            assert(service_done(before, after, accessory_id, t));
            assert forall|u: int| 0 <= u < t implies (#[trigger] before[u]).characteristics.len()
                == after[u].characteristics.len() by {
                assert(service_done(before, after, accessory_id, u));
            }
            lemma_ids_before_by_lengths(before, after, t);
        }
        assert forall|t: int| 0 <= t < before.len() implies {
            &&& (#[trigger] after[t]).hap_type == before[t].hap_type
            &&& after[t].characteristics.len() == before[t].characteristics.len()
            &&& forall|k: int|
                0 <= k < before[t].characteristics.len() ==> same_but_id(
                    before[t].characteristics[k],
                    #[trigger] after[t].characteristics[k],
                )
        } by {
            assert(service_done(before, after, accessory_id, t));
        }
    }
    Ok(())
}

} // verus!
