use std::collections::HashMap;
use vstd::prelude::*;
use vstd::std_specs::iter::IteratorSpec;

use crate::event::Event;
use crate::transport::http::{
    lemma_reconciled_twice, lemma_without_accessory, reconciled, without_accessory,
    EventSubscriptions,
};

verus! {

broadcast use vstd::std_specs::hash::group_hash_axioms;

/// A registry as a mathematical value: for every session that has an entry its
/// subscriptions, in the order in which it made them.
pub type RegistryView = Map<u64, Seq<(u64, u64)>>;

/// No session holds a subscription twice.
pub open spec fn registry_wf(v: RegistryView) -> bool {
    forall|session: u64| v.contains_key(session) ==> (#[trigger] v[session]).no_duplicates()
}

/// The subscriptions of a session; none where it has no entry.
pub open spec fn subscriptions_of(v: RegistryView, session: u64) -> Seq<(u64, u64)> {
    if v.contains_key(session) {
        v[session]
    } else {
        Seq::empty()
    }
}

/// Whether a session is subscribed to a characteristic.
pub open spec fn holds(v: RegistryView, session: u64, pair: (u64, u64)) -> bool {
    v.contains_key(session) && v[session].contains(pair)
}

/// The registry after a session's subscriptions were replaced: its entry holds
/// `pairs`, and the session gets an entry where it had none.
pub open spec fn with_session(v: RegistryView, session: u64, pairs: Seq<(u64, u64)>) -> RegistryView {
    v.insert(session, pairs)
}

/// The registry after a session asked to switch the notifications for `pair` on
/// or off. A session without an entry gets one when it subscribes.
pub open spec fn registry_reconciled(
    v: RegistryView,
    session: u64,
    pair: (u64, u64),
    ev: bool,
) -> RegistryView {
    if v.contains_key(session) {
        v.insert(session, reconciled(v[session], pair, ev))
    } else if ev {
        v.insert(session, seq![pair])
    } else {
        v
    }
}

/// The registry without the entry of a session.
pub open spec fn without_session(v: RegistryView, session: u64) -> RegistryView {
    v.remove(session)
}

/// The registry after every subscription to a characteristic of one accessory
/// was dropped: every session keeps its entry.
pub open spec fn registry_without_accessory(v: RegistryView, aid: u64) -> RegistryView {
    Map::new(|session: u64| v.contains_key(session), |session: u64| without_accessory(v[session], aid))
}

/// Whether `sessions` names the sessions that are subscribed to a
/// characteristic, each once, in whatever order.
pub open spec fn names_subscribers(sessions: Seq<u64>, v: RegistryView, pair: (u64, u64)) -> bool {
    &&& sessions.no_duplicates()
    &&& forall|session: u64| sessions.contains(session) <==> holds(v, session, pair)
}

/// Whether `sessions` names the sessions to notify of an event, each once, in
/// whatever order: those subscribed to the characteristic whose value changed,
/// and none for any other event.
pub open spec fn names_sessions_to_notify(sessions: Seq<u64>, v: RegistryView, event: Event) -> bool {
    match event {
        Event::CharacteristicValueChanged { aid, iid, value } => names_subscribers(sessions, v, (aid, iid)),
        _ => sessions.len() == 0,
    }
}

/// Those of `keys` that are subscribed to a characteristic, in their order.
pub open spec fn subscribers_among(keys: Seq<u64>, v: RegistryView, pair: (u64, u64)) -> Seq<u64>
    decreases keys.len(),
{
    if keys.len() == 0 {
        Seq::empty()
    } else {
        let rest = subscribers_among(keys.drop_last(), v, pair);
        if holds(v, keys.last(), pair) {
            rest.push(keys.last())
        } else {
            rest
        }
    }
}

/// The subscribers among keys are the keys that are subscribed; where no key
/// occurs twice, no subscriber does.
pub proof fn lemma_subscribers_among(keys: Seq<u64>, v: RegistryView, pair: (u64, u64))
    ensures
        forall|session: u64|
            (#[trigger] subscribers_among(keys, v, pair).contains(session)) <==> keys.contains(session)
                && holds(v, session, pair),
        keys.no_duplicates() ==> subscribers_among(keys, v, pair).no_duplicates(),
    decreases keys.len(),
{
    let out = subscribers_among(keys, v, pair);
    if keys.len() > 0 {
        let front = keys.drop_last();
        let rest = subscribers_among(front, v, pair);
        let last = keys.last();
        lemma_subscribers_among(front, v, pair);
        assert forall|session: u64| (#[trigger] out.contains(session)) <==> keys.contains(session) && holds(
            v,
            session,
            pair,
        ) by {
            if out.contains(session) {
                let i = choose|i: int| 0 <= i < out.len() && out[i] == session;
                if i < rest.len() {
                    assert(rest[i] == session);
                    assert(rest.contains(session));
                    let k = choose|k: int| 0 <= k < front.len() && front[k] == session;
                    assert(keys[k] == session);
                } else {
                    assert(keys[keys.len() - 1] == session);
                }
            }
            if keys.contains(session) && holds(v, session, pair) {
                let k = choose|k: int| 0 <= k < keys.len() && keys[k] == session;
                if k < front.len() {
                    assert(front[k] == session);
                    assert(front.contains(session));
                    assert(rest.contains(session));
                    let i = choose|i: int| 0 <= i < rest.len() && rest[i] == session;
                    assert(out[i] == session);
                } else {
                    assert(out[out.len() - 1] == session);
                }
            }
        }
        if keys.no_duplicates() && holds(v, last, pair) {
            assert forall|a: int, b: int| 0 <= a < out.len() && 0 <= b < out.len() && a != b implies out[a]
                != out[b] by {
                if a >= rest.len() || b >= rest.len() {
                    let inner = if a < rest.len() { a } else { b };
                    assert(rest.contains(rest[inner]));
                    let k = choose|k: int| 0 <= k < front.len() && front[k] == rest[inner];
                    assert(keys[k] == rest[inner]);
                }
            }
        }
    }
}

/// To subscribe a session to a characteristic twice, or to end its subscription
/// twice, is to do it once.
pub proof fn lemma_registry_reconciled_twice(v: RegistryView, session: u64, pair: (u64, u64), ev: bool)
    requires
        registry_wf(v),
    ensures
        registry_reconciled(registry_reconciled(v, session, pair, ev), session, pair, ev)
            == registry_reconciled(v, session, pair, ev),
{
    let once = registry_reconciled(v, session, pair, ev);
    let twice = registry_reconciled(once, session, pair, ev);
    if v.contains_key(session) {
        lemma_reconciled_twice(v[session], pair, ev);
    } else if ev {
        assert(seq![pair][0] == pair);
        assert(seq![pair].contains(pair));
    }
    assert(twice =~= once);
}

/// The entries of a registry as a mathematical value.
pub open spec fn entries_view(entries: Map<u64, EventSubscriptions>) -> RegistryView {
    Map::new(|session: u64| entries.contains_key(session), |session: u64| entries[session]@)
}

/// Returns the sessions that have an entry, each once.
fn sessions_of(entries: &HashMap<u64, EventSubscriptions>) -> (sessions: Vec<u64>)
    ensures
        sessions@.no_duplicates(),
        forall|session: u64| sessions@.contains(session) <==> entries@.contains_key(session),
{
    let mut sessions: Vec<u64> = Vec::new();
    for session in it: entries.keys()
        invariant
            sessions@.len() == it.index(),
            forall|j: int| 0 <= j < sessions@.len() ==> sessions@[j] == *it.seq()[j],
    {
        sessions.push(*session);
    }
    proof {
        let all = vstd::std_specs::hash::spec_keys_iter(entries).remaining().unref();
        assert(sessions@ =~= all);
        assert(sessions@.to_set() == entries@.dom());
        assert forall|session: u64| sessions@.contains(session) <==> entries@.contains_key(session) by {
            assert(sessions@.to_set().contains(session) <==> entries@.dom().contains(session));
        }
    }
    sessions
}

/// For every session the characteristics of which it receives change
/// notifications.
pub struct SubscriptionRegistry {
    entries: HashMap<u64, EventSubscriptions>,
}

impl View for SubscriptionRegistry {
    type V = RegistryView;

    closed spec fn view(&self) -> RegistryView {
        entries_view(self.entries@)
    }
}

impl SubscriptionRegistry {
    #[verifier::type_invariant]
    spec fn inv(self) -> bool {
        registry_wf(entries_view(self.entries@))
    }

    /// Makes a registry without sessions.
    pub fn new() -> (made: SubscriptionRegistry)
        ensures
            made@ == RegistryView::empty(),
    {
        let made = SubscriptionRegistry { entries: HashMap::new() };
        assert(made@ =~= RegistryView::empty());
        made
    }

    /// Switches the notifications of a session for a characteristic on or off.
    fn reconcile(&mut self, session: u64, aid: u64, iid: u64, ev: bool)
        ensures
            registry_wf(final(self)@),
            final(self)@ == registry_reconciled(old(self)@, session, (aid, iid), ev),
    {
        proof {
            use_type_invariant(&*self);
        }
        let mut entries: HashMap<u64, EventSubscriptions> = HashMap::new();
        std::mem::swap(&mut self.entries, &mut entries);
        let ghost before = entries_view(entries@);
        match entries.remove(&session) {
            Some(own) => {
                let mut own = own;
                own.reconcile(aid, iid, ev);
                entries.insert(session, own);
            },
            None => {
                if ev {
                    let mut own = EventSubscriptions::new();
                    own.reconcile(aid, iid, true);
                    assert(reconciled(Seq::empty(), (aid, iid), true) == seq![(aid, iid)]);
                    entries.insert(session, own);
                }
            },
        }
        assert(entries_view(entries@) =~= registry_reconciled(before, session, (aid, iid), ev));
        self.entries = entries;
    }

    /// Subscribes a session to a characteristic. A session that is subscribed to
    /// it stays as it is.
    pub fn subscribe(&mut self, session: u64, aid: u64, iid: u64)
        ensures
            registry_wf(final(self)@),
            final(self)@ == registry_reconciled(old(self)@, session, (aid, iid), true),
    {
        self.reconcile(session, aid, iid, true);
    }

    /// Ends the subscription of a session to a characteristic. A session that is
    /// not subscribed to it stays as it is.
    pub fn unsubscribe(&mut self, session: u64, aid: u64, iid: u64)
        ensures
            registry_wf(final(self)@),
            final(self)@ == registry_reconciled(old(self)@, session, (aid, iid), false),
    {
        self.reconcile(session, aid, iid, false);
    }

    /// Returns the subscriptions of a session, in the order in which it made them.
    pub fn subscriptions_of(&self, session: u64) -> (pairs: Vec<(u64, u64)>)
        ensures
            registry_wf(self@),
            pairs@ == subscriptions_of(self@, session),
    {
        proof {
            use_type_invariant(self);
        }
        let mut pairs: Vec<(u64, u64)> = Vec::new();
        match self.entries.get(&session) {
            Some(own) => {
                let held = own.pairs();
                let mut k: usize = 0;
                while k < held.len()
                    invariant
                        k <= held.len(),
                        pairs@ == held@.subrange(0, k as int),
                    decreases held.len() - k,
                {
                    pairs.push(held[k]);
                    k += 1;
                }
                assert(held@.subrange(0, k as int) == held@);
            },
            None => {},
        }
        pairs
    }

    /// Returns the sessions that are subscribed to a characteristic, each once.
    pub fn subscribers_of(&self, aid: u64, iid: u64) -> (sessions: Vec<u64>)
        ensures
            registry_wf(self@),
            names_subscribers(sessions@, self@, (aid, iid)),
    {
        proof {
            use_type_invariant(self);
        }
        let ghost v = self@;
        let keys = sessions_of(&self.entries);
        let mut sessions: Vec<u64> = Vec::new();
        let mut i: usize = 0;
        while i < keys.len()
            invariant
                i <= keys.len(),
                v == entries_view(self.entries@),
                forall|session: u64| keys@.contains(session) <==> self.entries@.contains_key(session),
                sessions@ == subscribers_among(keys@.subrange(0, i as int), v, (aid, iid)),
            decreases keys.len() - i,
        {
            assert(keys@.subrange(0, i as int + 1).drop_last() == keys@.subrange(0, i as int));
            assert(keys@.contains(keys@[i as int]));
            let subscribed = match self.entries.get(&keys[i]) {
                Some(own) => own.contains(aid, iid),
                None => false,
            };
            if subscribed {
                sessions.push(keys[i]);
            }
            i += 1;
        }
        proof {
            assert(keys@.subrange(0, i as int) == keys@);
            lemma_subscribers_among(keys@, v, (aid, iid));
        }
        sessions
    }

    /// Returns the sessions to notify of an event, each once.
    pub fn notification_targets(&self, event: &Event) -> (sessions: Vec<u64>)
        ensures
            registry_wf(self@),
            names_sessions_to_notify(sessions@, self@, *event),
    {
        match event {
            Event::CharacteristicValueChanged { aid, iid, value } => self.subscribers_of(*aid, *iid),
            _ => {
                proof {
                    use_type_invariant(self);
                }
                Vec::new()
            },
        }
    }

    /// Forgets a session and its subscriptions.
    pub fn drop_session(&mut self, session: u64)
        ensures
            registry_wf(final(self)@),
            final(self)@ == without_session(old(self)@, session),
    {
        proof {
            use_type_invariant(&*self);
        }
        let mut entries: HashMap<u64, EventSubscriptions> = HashMap::new();
        std::mem::swap(&mut self.entries, &mut entries);
        let ghost before = entries_view(entries@);
        entries.remove(&session);
        assert(entries_view(entries@) =~= before.remove(session));
        self.entries = entries;
    }

    /// Drops every subscription to a characteristic of one accessory.
    pub fn drop_accessory(&mut self, aid: u64)
        ensures
            registry_wf(final(self)@),
            final(self)@ == registry_without_accessory(old(self)@, aid),
    {
        proof {
            use_type_invariant(&*self);
        }
        let mut entries: HashMap<u64, EventSubscriptions> = HashMap::new();
        std::mem::swap(&mut self.entries, &mut entries);
        let ghost before = entries_view(entries@);
        let keys = sessions_of(&entries);
        let mut i: usize = 0;
        while i < keys.len()
            invariant
                i <= keys.len(),
                registry_wf(before),
                keys@.no_duplicates(),
                forall|session: u64| keys@.contains(session) <==> before.contains_key(session),
                entries_view(entries@).dom() == before.dom(),
                forall|k: int|
                    0 <= k < i ==> entries_view(entries@)[#[trigger] keys@[k]] == without_accessory(
                        before[keys@[k]],
                        aid,
                    ),
                forall|k: int| i <= k < keys.len() ==> entries_view(entries@)[#[trigger] keys@[k]] == before[keys@[k]],
            decreases keys.len() - i,
        {
            let session = keys[i];
            assert(keys@.contains(session));
            let ghost entry = entries_view(entries@);
            match entries.remove(&session) {
                Some(own) => {
                    let mut own = own;
                    own.drop_accessory(aid);
                    entries.insert(session, own);
                },
                None => {},
            }
            proof {
                let now = entries_view(entries@);
                assert(now.dom() =~= before.dom());
                assert forall|k: int| 0 <= k < keys.len() && k != i implies now[#[trigger] keys@[k]] == entry[keys@[k]] by {
                    assert(keys@[k] != keys@[i as int]);
                }
            }
            i += 1;
        }
        proof {
            let now = entries_view(entries@);
            assert forall|session: u64| now.contains_key(session) implies #[trigger] now[session]
                == without_accessory(before[session], aid) by {
                assert(keys@.contains(session));
                let k = choose|k: int| 0 <= k < keys@.len() && keys@[k] == session;
                assert(now[keys@[k]] == without_accessory(before[keys@[k]], aid));
            }
            assert(now =~= registry_without_accessory(before, aid));
            assert forall|session: u64| now.contains_key(session) implies (#[trigger] now[session]).no_duplicates() by {
                lemma_without_accessory(before[session], aid);
            }
        }
        self.entries = entries;
    }

    /// Takes the subscriptions of a session out of the registry for a change.
    /// The session keeps an entry, with no subscriptions, until they are put
    /// back; a session without an entry gets one.
    pub fn take_session(&mut self, session: u64) -> (taken: EventSubscriptions)
        ensures
            registry_wf(final(self)@),
            taken@ == subscriptions_of(old(self)@, session),
            taken@.no_duplicates(),
            final(self)@ == with_session(old(self)@, session, Seq::empty()),
    {
        proof {
            use_type_invariant(&*self);
        }
        let mut entries: HashMap<u64, EventSubscriptions> = HashMap::new();
        std::mem::swap(&mut self.entries, &mut entries);
        let ghost before = entries_view(entries@);
        let taken = match entries.insert(session, EventSubscriptions::new()) {
            Some(own) => own,
            None => EventSubscriptions::new(),
        };
        assert(entries_view(entries@) =~= before.insert(session, Seq::empty()));
        self.entries = entries;
        taken
    }

    /// Puts the subscriptions of a session into the registry, in place of those
    /// that it holds for the session.
    pub fn put_session(&mut self, session: u64, subscriptions: EventSubscriptions)
        ensures
            registry_wf(final(self)@),
            final(self)@ == with_session(old(self)@, session, subscriptions@),
    {
        proof {
            use_type_invariant(&*self);
            use_type_invariant(&subscriptions);
        }
        let mut entries: HashMap<u64, EventSubscriptions> = HashMap::new();
        std::mem::swap(&mut self.entries, &mut entries);
        let ghost before = entries_view(entries@);
        entries.insert(session, subscriptions);
        assert(entries_view(entries@) =~= before.insert(session, subscriptions@));
        self.entries = entries;
    }
}

} // verus!
