use vstd::prelude::*;

use crate::characteristic::Value;

verus! {

/// What the accessory server tells its listeners.
#[derive(Debug, PartialEq, Eq)]
pub enum Event {
    /// The first controller was paired.
    DevicePaired,
    /// The last controller was unpaired.
    DeviceUnpaired,
    /// A controller was paired.
    ControllerPaired { id: String },
    /// A controller was unpaired.
    ControllerUnpaired { id: String },
    /// A characteristic took a value that differs from the one it had.
    CharacteristicValueChanged { aid: u64, iid: u64, value: Value },
}

impl Clone for Event {
    fn clone(&self) -> (copy: Self)
        ensures
            copy == *self,
    {
        match self {
            Event::DevicePaired => Event::DevicePaired,
            Event::DeviceUnpaired => Event::DeviceUnpaired,
            Event::ControllerPaired { id } => Event::ControllerPaired { id: id.clone() },
            Event::ControllerUnpaired { id } => Event::ControllerUnpaired { id: id.clone() },
            Event::CharacteristicValueChanged { aid, iid, value } => Event::CharacteristicValueChanged {
                aid: *aid,
                iid: *iid,
                value: value.clone(),
            },
        }
    }
}

/// An event that waits for its listeners, with the number of listeners that were
/// registered when it was emitted: the listeners `0` up to `listeners - 1` are to
/// be called with the event, in that order.
#[derive(Debug, PartialEq, Eq)]
pub struct Dispatch {
    pub event: Event,
    pub listeners: u64,
}

/// Hands events out to listeners.
///
/// A listener is registered under a token: the number of listeners registered
/// before it. The callables themselves stay with the owner of the emitter, which
/// takes one dispatch after the other from the emitter and calls the listeners
/// that the dispatch names. Events leave in the order in which they were emitted.
/// A listener that is registered while an event waits does not receive it.
pub struct Emitter {
    listeners: u64,
    pending: Vec<Dispatch>,
}

impl Emitter {
    /// The number of registered listeners.
    pub closed spec fn listeners(&self) -> u64 {
        self.listeners
    }

    /// The events that wait for their listeners, oldest first.
    pub closed spec fn pending(&self) -> Seq<Dispatch> {
        self.pending@
    }

    /// Makes an emitter without listeners and without events.
    pub fn new() -> (made: Emitter)
        ensures
            made.listeners() == 0,
            made.pending() == Seq::<Dispatch>::empty(),
    {
        Emitter { listeners: 0, pending: Vec::new() }
    }

    /// Registers a listener and returns its token; `None` where no token is left.
    pub fn add_listener(&mut self) -> (token: Option<u64>)
        ensures
            final(self).pending() == old(self).pending(),
            match token {
                Some(t) => t == old(self).listeners() && final(self).listeners() == t + 1,
                None => old(self).listeners() == u64::MAX && final(self).listeners() == u64::MAX,
            },
    {
        if self.listeners == u64::MAX {
            return None;
        }
        let token: u64 = self.listeners;
        self.listeners = token + 1;
        Some(token)
    }

    /// Returns the number of registered listeners.
    pub fn listener_count(&self) -> (count: u64)
        ensures
            count == self.listeners(),
    {
        self.listeners
    }

    /// Returns the number of events that wait for their listeners.
    pub fn pending_count(&self) -> (count: usize)
        ensures
            count == self.pending().len(),
    {
        self.pending.len()
    }

    /// Emits an event: it waits, behind those emitted before it, for the
    /// listeners that are registered now.
    pub fn emit(&mut self, event: Event)
        ensures
            final(self).listeners() == old(self).listeners(),
            final(self).pending() == old(self).pending().push(
                (Dispatch { event, listeners: old(self).listeners() }),
            ),
    {
        let listeners: u64 = self.listeners;
        self.pending.push(Dispatch { event, listeners });
    }

    /// Takes the oldest event that waits, with the listeners to call.
    pub fn next_dispatch(&mut self) -> (next: Option<Dispatch>)
        ensures
            final(self).listeners() == old(self).listeners(),
            match next {
                Some(d) => old(self).pending().len() > 0 && d == old(self).pending()[0]
                    && final(self).pending() == old(self).pending().drop_first(),
                None => old(self).pending().len() == 0 && final(self).pending() == old(self).pending(),
            },
    {
        if self.pending.len() == 0 {
            return None;
        }
        let next = self.pending.remove(0);
        Some(next)
    }
}

} // verus!
