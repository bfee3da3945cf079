use vstd::prelude::*;

use crate::characteristic::{copy_bound, copy_perms, has_perm, Characteristic, Perm, Value};
use crate::event::{Dispatch, Emitter, Event};
use crate::transport::http::{
    reconciled, EventSubscriptions, ReadResponseObject, Status, WriteObject,
};

verus! {

/// Whether `r` answers a read of a characteristic that is not there: it names
/// the ids that were asked for, carries the status `ResourceDoesNotExist`, and
/// nothing else.
pub open spec fn is_missing_response(r: ReadResponseObject, aid: u64, iid: u64) -> bool {
    &&& r.aid == aid
    &&& r.iid == iid
    &&& r.status == Some(Status::ResourceDoesNotExist.code_spec())
    &&& r.value is None
    &&& r.format is None
    &&& r.unit is None
    &&& r.max_value is None
    &&& r.min_value is None
    &&& r.step_value is None
    &&& r.max_len is None
    &&& r.perms is None
    &&& r.hap_type is None
    &&& r.ev is None
}

/// Whether `r` answers a read of the characteristic `c`.
///
/// Without the permission `PairedRead` the answer carries the status
/// `WriteOnlyCharacteristic` and nothing else. With it the status is 0, the value
/// is there, and each of the four flags decides on its part: `meta` on format,
/// unit, bounds and greatest length, `perms` on the permissions, `hap_type` on the
/// type, `ev` on the notification flag.
pub open spec fn is_read_response(
    r: ReadResponseObject,
    c: Characteristic,
    aid: u64,
    iid: u64,
    meta: bool,
    perms: bool,
    hap_type: bool,
    ev: bool,
) -> bool {
    let readable = c.perms@.contains(Perm::PairedRead);
    &&& r.aid == aid
    &&& r.iid == iid
    &&& r.status == Some(
        if readable {
            Status::Success.code_spec()
        } else {
            Status::WriteOnlyCharacteristic.code_spec()
        },
    )
    &&& r.value == if readable {
        Some(c.value)
    } else {
        None
    }
    &&& r.format == if readable && meta {
        Some(c.format)
    } else {
        None
    }
    &&& r.unit == if readable && meta {
        c.unit
    } else {
        None
    }
    &&& r.max_value == if readable && meta {
        c.max_value
    } else {
        None
    }
    &&& r.min_value == if readable && meta {
        c.min_value
    } else {
        None
    }
    &&& r.step_value == if readable && meta {
        c.step_value
    } else {
        None
    }
    &&& r.max_len == if readable && meta {
        c.max_len
    } else {
        None
    }
    &&& if readable && perms {
        r.perms matches Some(p) && p@ == c.perms@
    } else {
        r.perms is None
    }
    &&& r.hap_type == if readable && hap_type {
        Some(c.hap_type)
    } else {
        None
    }
    &&& r.ev == if readable && ev {
        c.event_notifications
    } else {
        None
    }
}

/// Answers a read of a characteristic that is not there.
pub fn missing_response(aid: u64, iid: u64) -> (r: ReadResponseObject)
    ensures
        is_missing_response(r, aid, iid),
{
    ReadResponseObject {
        iid,
        aid,
        hap_type: None,
        format: None,
        perms: None,
        ev: None,
        value: None,
        unit: None,
        max_value: None,
        min_value: None,
        step_value: None,
        max_len: None,
        status: Some(Status::ResourceDoesNotExist.code()),
    }
}

/// Answers a read of a characteristic.
pub fn read_response(
    c: &Characteristic,
    aid: u64,
    iid: u64,
    meta: bool,
    perms: bool,
    hap_type: bool,
    ev: bool,
) -> (r: ReadResponseObject)
    ensures
        is_read_response(r, *c, aid, iid, meta, perms, hap_type, ev),
{
    let mut r = ReadResponseObject {
        iid,
        aid,
        hap_type: None,
        format: None,
        perms: None,
        ev: None,
        value: None,
        unit: None,
        max_value: None,
        min_value: None,
        step_value: None,
        max_len: None,
        status: Some(Status::Success.code()),
    };
    if has_perm(&c.perms, Perm::PairedRead) {
        r.value = Some(c.value.clone());
        if meta {
            r.format = Some(c.format);
            r.unit = c.unit;
            r.max_value = copy_bound(&c.max_value);
            r.min_value = copy_bound(&c.min_value);
            r.step_value = copy_bound(&c.step_value);
            r.max_len = c.max_len;
        }
        if perms {
            r.perms = Some(copy_perms(&c.perms));
        }
        if hap_type {
            r.hap_type = Some(c.hap_type.clone());
        }
        if ev {
            r.ev = c.event_notifications;
        }
    } else {
        r.status = Some(Status::WriteOnlyCharacteristic.code());
    }
    r
}

/// What a write does to a characteristic.
pub struct WriteOutcome {
    /// The characteristic after the write.
    pub characteristic: Characteristic,
    /// The status of the write: the first error, or `Success`.
    pub status: Status,
    /// The notification flag that the write set, where it set one.
    pub subscription: Option<bool>,
    /// The value that the write published, where it changed the value.
    pub published: Option<Value>,
}

/// What the write `w` does to the characteristic `c`.
///
/// A notification flag comes first. Without the permission `Events` it is refused
/// with `NotificationNotSupported`, and the value is not looked at. Otherwise the
/// flag is set. A value comes second. Without the permission `PairedWrite` it is
/// refused with `ReadOnlyCharacteristic`; where the format or the bounds refuse
/// it, with `InvalidValueInRequest`. Otherwise it is stored as the format coerces
/// it, and published where it differs from the value that was stored before.
pub open spec fn write_outcome(c: Characteristic, w: WriteObject) -> WriteOutcome {
    if w.ev is Some && !c.perms@.contains(Perm::Events) {
        WriteOutcome {
            characteristic: c,
            status: Status::NotificationNotSupported,
            subscription: None,
            published: None,
        }
    } else {
        let flagged = match w.ev {
            Some(ev) => Characteristic { event_notifications: Some(ev), ..c },
            None => c,
        };
        match w.value {
            None => WriteOutcome {
                characteristic: flagged,
                status: Status::Success,
                subscription: w.ev,
                published: None,
            },
            Some(v) => if !c.perms@.contains(Perm::PairedWrite) {
                WriteOutcome {
                    characteristic: flagged,
                    status: Status::ReadOnlyCharacteristic,
                    subscription: w.ev,
                    published: None,
                }
            } else {
                match c.accepted(v) {
                    None => WriteOutcome {
                        characteristic: flagged,
                        status: Status::InvalidValueInRequest,
                        subscription: w.ev,
                        published: None,
                    },
                    Some(stored) => WriteOutcome {
                        characteristic: Characteristic { value: stored, ..flagged },
                        status: Status::Success,
                        subscription: w.ev,
                        published: if stored@ != c.value@ {
                            Some(stored)
                        } else {
                            None
                        },
                    },
                }
            },
        }
    }
}

/// The subscriptions of the writing session after a write with the given outcome.
pub open spec fn subscriptions_after(
    pairs: Seq<(u64, u64)>,
    aid: u64,
    iid: u64,
    outcome: WriteOutcome,
) -> Seq<(u64, u64)> {
    match outcome.subscription {
        Some(ev) => reconciled(pairs, (aid, iid), ev),
        None => pairs,
    }
}

/// The events that wait in an emitter after a write with the given outcome.
pub open spec fn pending_after(
    pending: Seq<Dispatch>,
    listeners: u64,
    aid: u64,
    iid: u64,
    outcome: WriteOutcome,
) -> Seq<Dispatch> {
    match outcome.published {
        Some(value) => pending.push(
            (Dispatch { event: Event::CharacteristicValueChanged { aid, iid, value }, listeners }),
        ),
        None => pending,
    }
}

/// Writes to a characteristic on behalf of a session: sets the notification flag
/// and reconciles the subscriptions of the session, stores the value, and emits
/// the change of the value.
pub fn write_to(
    c: &mut Characteristic,
    w: WriteObject,
    event_subscriptions: &mut EventSubscriptions,
    event_emitter: &mut Emitter,
) -> (status: Status)
    ensures
        *final(c) == write_outcome(*old(c), w).characteristic,
        status == write_outcome(*old(c), w).status,
        final(event_subscriptions)@ == subscriptions_after(
            old(event_subscriptions)@,
            w.aid,
            w.iid,
            write_outcome(*old(c), w),
        ),
        final(event_emitter).listeners() == old(event_emitter).listeners(),
        final(event_emitter).pending() == pending_after(
            old(event_emitter).pending(),
            old(event_emitter).listeners(),
            w.aid,
            w.iid,
            write_outcome(*old(c), w),
        ),
        old(c).wf() ==> final(c).wf(),
{
    if let Some(ev) = w.ev {
        if !has_perm(&c.perms, Perm::Events) {
            return Status::NotificationNotSupported;
        }
        c.set_event_notifications(Some(ev));
        event_subscriptions.reconcile(w.aid, w.iid, ev);
    }
    if let Some(value) = w.value {
        if !has_perm(&c.perms, Perm::PairedWrite) {
            return Status::ReadOnlyCharacteristic;
        }
        match c.set_value(value) {
            Ok(changed) => {
                if changed {
                    event_emitter.emit(
                        Event::CharacteristicValueChanged { aid: w.aid, iid: w.iid, value: c.value.clone() },
                    );
                }
            },
            Err(_) => {
                return Status::InvalidValueInRequest;
            },
        }
    }
    Status::Success
}

/// A write leaves a well-formed characteristic well-formed, with the ids, the
/// type, the format, the permissions and the bounds that it had.
pub proof fn lemma_write_keeps_form(c: Characteristic, w: WriteObject)
    ensures
        c.wf() ==> write_outcome(c, w).characteristic.wf(),
        write_outcome(c, w).characteristic == (Characteristic {
            value: write_outcome(c, w).characteristic.value,
            event_notifications: write_outcome(c, w).characteristic.event_notifications,
            ..c
        }),
{
}

/// A read hands out the value of a characteristic if and only if the
/// characteristic has the permission `PairedRead`.
pub proof fn lemma_read_is_gated(
    r: ReadResponseObject,
    c: Characteristic,
    aid: u64,
    iid: u64,
    meta: bool,
    perms: bool,
    hap_type: bool,
    ev: bool,
)
    requires
        is_read_response(r, c, aid, iid, meta, perms, hap_type, ev),
    ensures
        r.value is Some <==> c.perms@.contains(Perm::PairedRead),
        r.value is Some ==> r.value == Some(c.value),
{
}

/// A write changes the value of a characteristic only if the characteristic has
/// the permission `PairedWrite`. With that permission, a write whose
/// notification flag, where it has one, is not refused stores the value that the
/// format and the bounds accept.
pub proof fn lemma_write_is_gated(c: Characteristic, w: WriteObject)
    ensures
        write_outcome(c, w).characteristic.value != c.value ==> c.perms@.contains(Perm::PairedWrite),
        !c.perms@.contains(Perm::PairedWrite) ==> write_outcome(c, w).published is None,
        w.value is Some && !c.perms@.contains(Perm::PairedWrite) ==> write_outcome(c, w).status
            != Status::Success,
        ({
            &&& c.perms@.contains(Perm::PairedWrite)
            &&& w.ev is Some ==> c.perms@.contains(Perm::Events)
            &&& w.value matches Some(v) && c.accepted(v) is Some
        }) ==> {
            &&& write_outcome(c, w).status == Status::Success
            &&& Some(write_outcome(c, w).characteristic.value) == c.accepted(w.value.unwrap())
        },
{
}

/// A write that carries a notification flag sets it, and reaches the
/// subscriptions of the session, if and only if the characteristic has the
/// permission `Events`; without it the status is `NotificationNotSupported`.
pub proof fn lemma_subscription_is_gated(c: Characteristic, w: WriteObject)
    requires
        w.ev is Some,
    ensures
        write_outcome(c, w).subscription == w.ev <==> c.perms@.contains(Perm::Events),
        write_outcome(c, w).subscription is None <==> !c.perms@.contains(Perm::Events),
        write_outcome(c, w).status == Status::NotificationNotSupported <==> !c.perms@.contains(
            Perm::Events,
        ),
        c.perms@.contains(Perm::Events) ==> write_outcome(c, w).characteristic.event_notifications
            == w.ev,
        !c.perms@.contains(Perm::Events) ==> write_outcome(c, w).characteristic == c,
{
}

} // verus!
