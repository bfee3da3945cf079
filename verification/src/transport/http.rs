use vstd::prelude::*;

use crate::characteristic::{Format, Perm, Unit, Value};

verus! {

/// The status of one entry of a response.
#[derive(Clone, Copy, Debug, PartialEq, Eq, Structural)]
pub enum Status {
    Success,
    InsufficientPrivileges,
    ServiceCommunicationFailure,
    ResourceBusy,
    ReadOnlyCharacteristic,
    WriteOnlyCharacteristic,
    NotificationNotSupported,
    OutOfResource,
    OperationTimedOut,
    ResourceDoesNotExist,
    InvalidValueInRequest,
    InsufficientAuthorization,
}

impl Status {
    /// The number that stands for the status in a response.
    pub open spec fn code_spec(self) -> i32 {
        match self {
            Status::Success => 0i32,
            Status::InsufficientPrivileges => (-70401i32),
            Status::ServiceCommunicationFailure => (-70402i32),
            Status::ResourceBusy => (-70403i32),
            Status::ReadOnlyCharacteristic => (-70404i32),
            Status::WriteOnlyCharacteristic => (-70405i32),
            Status::NotificationNotSupported => (-70406i32),
            Status::OutOfResource => (-70407i32),
            Status::OperationTimedOut => (-70408i32),
            Status::ResourceDoesNotExist => (-70409i32),
            Status::InvalidValueInRequest => (-70410i32),
            Status::InsufficientAuthorization => (-70411i32),
        }
    }

    /// Returns the number that stands for the status in a response.
    #[verifier::when_used_as_spec(code_spec)]
    pub fn code(self) -> (code: i32)
        ensures
            code == self.code_spec(),
    {
        match self {
            Status::Success => 0,
            Status::InsufficientPrivileges => -70401,
            Status::ServiceCommunicationFailure => -70402,
            Status::ResourceBusy => -70403,
            Status::ReadOnlyCharacteristic => -70404,
            Status::WriteOnlyCharacteristic => -70405,
            Status::NotificationNotSupported => -70406,
            Status::OutOfResource => -70407,
            Status::OperationTimedOut => -70408,
            Status::ResourceDoesNotExist => -70409,
            Status::InvalidValueInRequest => -70410,
            Status::InsufficientAuthorization => -70411,
        }
    }
}

/// One entry of the response to a read of characteristics.
#[derive(Debug, PartialEq, Eq)]
pub struct ReadResponseObject {
    pub iid: u64,
    pub aid: u64,
    pub hap_type: Option<String>,
    pub format: Option<Format>,
    pub perms: Option<Vec<Perm>>,
    pub ev: Option<bool>,
    pub value: Option<Value>,
    pub unit: Option<Unit>,
    pub max_value: Option<Value>,
    pub min_value: Option<Value>,
    pub step_value: Option<Value>,
    pub max_len: Option<u16>,
    pub status: Option<i32>,
}

/// One entry of a request to write characteristics.
#[derive(Debug, PartialEq, Eq)]
pub struct WriteObject {
    pub iid: u64,
    pub aid: u64,
    pub ev: Option<bool>,
    pub value: Option<Value>,
}

impl Clone for WriteObject {
    fn clone(&self) -> (copy: Self)
        ensures
            copy == *self,
    {
        WriteObject {
            iid: self.iid,
            aid: self.aid,
            ev: self.ev,
            value: match &self.value {
                Some(v) => Some(v.clone()),
                None => None,
            },
        }
    }
}

/// One entry of the response to a write of characteristics.
#[derive(Clone, Copy, Debug, PartialEq, Eq, Structural)]
pub struct WriteResponseObject {
    pub iid: u64,
    pub aid: u64,
    pub status: i32,
}

/// What a set of subscriptions holds after a request to switch the notifications
/// for `pair` on or off: the pair joins at the end where it is asked for and
/// absent, leaves where it is not asked for and present, and nothing changes
/// otherwise.
pub open spec fn reconciled(pairs: Seq<(u64, u64)>, pair: (u64, u64), ev: bool) -> Seq<(u64, u64)> {
    if ev && !pairs.contains(pair) {
        pairs.push(pair)
    } else if !ev && pairs.contains(pair) {
        pairs.remove(pairs.index_of(pair))
    } else {
        pairs
    }
}

/// The pairs that stay, in their order, when every pair of one accessory leaves.
pub open spec fn without_accessory(pairs: Seq<(u64, u64)>, aid: u64) -> Seq<(u64, u64)>
    decreases pairs.len(),
{
    if pairs.len() == 0 {
        pairs
    } else {
        let rest = without_accessory(pairs.drop_last(), aid);
        if pairs.last().0 == aid {
            rest
        } else {
            rest.push(pairs.last())
        }
    }
}

/// What stays when an accessory leaves is what was there and belongs to another
/// accessory; where nothing occurred twice, nothing does afterwards.
pub proof fn lemma_without_accessory(pairs: Seq<(u64, u64)>, aid: u64)
    ensures
        forall|p: (u64, u64)|
            (#[trigger] without_accessory(pairs, aid).contains(p)) <==> pairs.contains(p) && p.0 != aid,
        pairs.no_duplicates() ==> without_accessory(pairs, aid).no_duplicates(),
    decreases pairs.len(),
{
    let out = without_accessory(pairs, aid);
    if pairs.len() > 0 {
        let front = pairs.drop_last();
        let rest = without_accessory(front, aid);
        lemma_without_accessory(front, aid);
        assert forall|p: (u64, u64)| (#[trigger] out.contains(p)) <==> pairs.contains(p) && p.0 != aid by {
            if out.contains(p) {
                let i = choose|i: int| 0 <= i < out.len() && out[i] == p;
                if i < rest.len() {
                    assert(rest.contains(p));
                }
            }
            if pairs.contains(p) && p.0 != aid {
                let k = choose|k: int| 0 <= k < pairs.len() && pairs[k] == p;
                if k < front.len() {
                    assert(front[k] == p);
                    assert(rest.contains(p));
                    let i = choose|i: int| 0 <= i < rest.len() && rest[i] == p;
                    assert(out[i] == p);
                } else {
                    assert(out[out.len() - 1] == p);
                }
            }
        }
        if pairs.no_duplicates() && pairs.last().0 != aid {
            assert forall|a: int, b: int| 0 <= a < out.len() && 0 <= b < out.len() && a != b implies out[a]
                != out[b] by {
                if a >= rest.len() || b >= rest.len() {
                    let inner = if a < rest.len() { a } else { b };
                    assert(rest.contains(rest[inner]));
                }
            }
        }
    }
}

/// The characteristics, each as accessory id and instance id, of which one session
/// receives change notifications, in the order in which it subscribed. None
/// occurs twice.
pub struct EventSubscriptions {
    pairs: Vec<(u64, u64)>,
}

impl View for EventSubscriptions {
    type V = Seq<(u64, u64)>;

    closed spec fn view(&self) -> Seq<(u64, u64)> {
        self.pairs@
    }
}

impl EventSubscriptions {
    /// No pair occurs twice.
    #[verifier::type_invariant]
    pub open spec fn wf(self) -> bool {
        self@.no_duplicates()
    }

    /// Makes an empty set.
    pub fn new() -> (made: EventSubscriptions)
        ensures
            made@ == Seq::<(u64, u64)>::empty(),
    {
        EventSubscriptions { pairs: Vec::new() }
    }

    /// Returns where a pair stands in the set.
    pub fn position(&self, aid: u64, iid: u64) -> (found: Option<usize>)
        ensures
            self@.no_duplicates(),
            match found {
                Some(i) => i < self@.len() && self@[i as int] == (aid, iid) && i == self@.index_of((aid, iid)),
                None => !self@.contains((aid, iid)),
            },
    {
        proof {
            use_type_invariant(self);
        }
        let mut i: usize = 0;
        while i < self.pairs.len()
            invariant
                i <= self.pairs.len(),
                self.pairs@.no_duplicates(),
                forall|k: int| 0 <= k < i ==> self.pairs@[k] != (aid, iid),
            decreases self.pairs.len() - i,
        {
            let p = self.pairs[i];
            if p.0 == aid && p.1 == iid {
                return Some(i);
            }
            i += 1;
        }
        None
    }

    /// Whether the set holds a pair.
    pub fn contains(&self, aid: u64, iid: u64) -> (found: bool)
        ensures
            found == self@.contains((aid, iid)),
    {
        self.position(aid, iid).is_some()
    }

    /// Returns the pairs in the order in which they were subscribed.
    pub fn pairs(&self) -> (pairs: &Vec<(u64, u64)>)
        ensures
            pairs@ == self@,
            self@.no_duplicates(),
    {
        proof {
            use_type_invariant(self);
        }
        &self.pairs
    }

    /// Drops every subscription to a characteristic of one accessory.
    pub fn drop_accessory(&mut self, aid: u64)
        ensures
            final(self)@ == without_accessory(old(self)@, aid),
            final(self)@.no_duplicates(),
    {
        proof {
            use_type_invariant(&*self);
        }
        let mut kept: Vec<(u64, u64)> = Vec::new();
        let mut i: usize = 0;
        while i < self.pairs.len()
            invariant
                i <= self.pairs.len(),
                kept@ == without_accessory(self.pairs@.subrange(0, i as int), aid),
            decreases self.pairs.len() - i,
        {
            let p = self.pairs[i];
            assert(self.pairs@.subrange(0, i as int + 1).drop_last() == self.pairs@.subrange(0, i as int));
            if p.0 != aid {
                kept.push(p);
            }
            i += 1;
        }
        proof {
            assert(self.pairs@.subrange(0, i as int) == self.pairs@);
            lemma_without_accessory(self.pairs@, aid);
        }
        self.pairs = kept;
    }

    /// Switches the notifications for a characteristic on or off.
    pub fn reconcile(&mut self, aid: u64, iid: u64, ev: bool)
        ensures
            final(self)@ == reconciled(old(self)@, (aid, iid), ev),
            final(self)@.no_duplicates(),
            final(self)@.contains((aid, iid)) == ev,
    {
        proof {
            use_type_invariant(&*self);
        }
        let found = self.position(aid, iid);
        let mut pairs: Vec<(u64, u64)> = Vec::new();
        std::mem::swap(&mut self.pairs, &mut pairs);
        match found {
            None => {
                if ev {
                    pairs.push((aid, iid));
                    assert(pairs@[pairs@.len() - 1] == (aid, iid));
                }
            },
            Some(i) => {
                if !ev {
                    pairs.remove(i);
                }
            },
        }
        self.pairs = pairs;
    }
}

/// To switch the notifications for a pair on twice, or off twice, is to do it
/// once: the second request leaves the subscriptions as the first left them.
pub proof fn lemma_reconciled_twice(pairs: Seq<(u64, u64)>, pair: (u64, u64), ev: bool)
    requires
        pairs.no_duplicates(),
    ensures
        reconciled(reconciled(pairs, pair, ev), pair, ev) == reconciled(pairs, pair, ev),
        reconciled(pairs, pair, ev).no_duplicates(),
        reconciled(pairs, pair, ev).contains(pair) == ev,
{
    if ev && !pairs.contains(pair) {
        let after = pairs.push(pair);
        assert(after[after.len() - 1] == pair);
    }
}

} // verus!
