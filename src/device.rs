use vstd::prelude::*;

verus! {

/// How long to wait after the deletion event before the identity may be
/// reused: adding a device back sooner can see it deleted again.
pub const SETTLE_DELAY_MS: u64 = 128;

/// The object path under which the host lists a device of the given identity.
pub open spec fn device_path_spec(id: Seq<char>) -> Seq<char> {
    "/machine/peripheral/"@ + id
}

/// The object path to probe to learn whether a device exists.
pub fn device_path(id: &str) -> (r: String)
    ensures
        r@ == device_path_spec(id@),
{
    let mut p = String::from_str("/machine/peripheral/");
    p.append(id);
    p
}

/// What an existence probe learned: `Ok(())` when the path was listed, else
/// the error class of a host error, or `None` for any other failure.
pub open spec fn probe_exists_spec(reply: Result<(), Option<ErrorClass>>) -> Option<bool> {
    match reply {
        Ok(_) => Some(true),
        Err(Some(ErrorClass::DeviceNotFound)) => Some(false),
        Err(_) => None,
    }
}

/// The classes of error that the host attaches to a failed command.
#[derive(Clone, Copy, Debug, PartialEq, Eq)]
pub enum ErrorClass {
    GenericError,
    CommandNotFound,
    DeviceNotActive,
    DeviceNotFound,
    KVMMissingCap,
}

/// Whether the probed device exists; `None` when the probe failed in a way
/// that must be passed on to the caller.
pub fn probe_exists(reply: Result<(), Option<ErrorClass>>) -> (r: Option<bool>)
    ensures
        r == probe_exists_spec(reply),
{
    match reply {
        Ok(_) => Some(true),
        Err(Some(ErrorClass::DeviceNotFound)) => Some(false),
        Err(_) => None,
    }
}

/// The next step of adding a device.
#[derive(Clone, Copy, Debug, PartialEq, Eq)]
pub enum AddStep {
    /// Probe `device_path` of the identity.
    Probe,
    /// Issue the add command.
    Add,
    /// The device is already there: stop successfully without adding.
    Skip,
    /// Delete the existing device, wait for its deletion event, then add.
    Replace,
}

/// The first step of adding a device: probe only when an identity is given
/// and the caller asked to skip or replace an existing device.
pub fn add_first_step(has_id: bool, force: bool, no_clobber: bool) -> (r: AddStep)
    ensures
        r == if has_id && (force || no_clobber) { AddStep::Probe } else { AddStep::Add },
{
    if has_id && (force || no_clobber) {
        AddStep::Probe
    } else {
        AddStep::Add
    }
}

/// The step after the probe: skipping wins over replacing.
pub fn add_after_probe(exists: bool, force: bool, no_clobber: bool) -> (r: AddStep)
    ensures
        r == if exists && no_clobber {
            AddStep::Skip
        } else if exists && force {
            AddStep::Replace
        } else {
            AddStep::Add
        },
{
    if exists && no_clobber {
        AddStep::Skip
    } else if exists && force {
        AddStep::Replace
    } else {
        AddStep::Add
    }
}

/// One receive from the event bus, as the deletion wait sees it.
#[derive(Debug)]
pub enum BusEvent {
    /// A device was deleted; the host names it when it has a name.
    DeviceDeleted { device: Option<String> },
    /// Any other event.
    Other,
    /// Events were dropped because this subscriber fell behind.
    Lagged,
    /// The producer is gone: no event will come any more.
    Closed,
}

/// Why a device deletion failed.
#[derive(Debug, PartialEq, Eq)]
pub enum DeleteError<E> {
    /// The event stream closed before the deletion event arrived.
    EventNeverArrived,
    /// The delete command failed.
    Remote(E),
}

/// What the deletion wait asks for after one event.
#[derive(Debug, PartialEq, Eq)]
pub enum WaitStep<E> {
    /// Receive the next event.
    Continue,
    /// The deletion event arrived: sleep `delay_ms`, then call `on_settled`.
    Settle { delay_ms: u64 },
    /// The operation is over with this outcome.
    Finish(Result<(), DeleteError<E>>),
}

/// Whether an event is the deletion event of the device `id`.
pub open spec fn is_deletion_of(ev: BusEvent, id: Seq<char>) -> bool {
    match ev {
        BusEvent::DeviceDeleted { device: Some(d) } => d@ == id,
        _ => false,
    }
}

/// The deletion of a device: the delete command and, when asked for, the
/// wait for its deletion event, which run concurrently; both must succeed.
pub struct DeviceDeletion {
    id: String,
    wait: bool,
    deleted: bool,
    settling: bool,
    confirmed: bool,
    done: bool,
}

impl DeviceDeletion {
    /// The identity of the device being deleted.
    pub closed spec fn id_spec(&self) -> Seq<char> {
        self.id@
    }

    /// Whether the deletion event must be seen.
    pub closed spec fn waits(&self) -> bool {
        self.wait
    }

    /// Whether the delete command succeeded.
    pub closed spec fn deleted_spec(&self) -> bool {
        self.deleted
    }

    /// Whether the deletion event arrived and the settle delay is running.
    pub closed spec fn settling_spec(&self) -> bool {
        self.settling
    }

    /// Whether the deletion event arrived and the settle delay passed.
    pub closed spec fn confirmed_spec(&self) -> bool {
        self.confirmed
    }

    /// Whether the outcome was handed out.
    pub closed spec fn done_spec(&self) -> bool {
        self.done
    }

    pub closed spec fn wf(&self) -> bool {
        &&& !(self.settling && self.confirmed)
        &&& (self.settling || self.confirmed) ==> self.wait
    }

    /// A deletion of device `id` that has issued the delete command, and
    /// waits for the deletion event when `wait` holds.
    pub fn new(id: String, wait: bool) -> (r: DeviceDeletion)
        ensures
            r.wf(),
            r.id_spec() == id@,
            r.waits() == wait,
            !r.deleted_spec(),
            !r.settling_spec(),
            !r.confirmed_spec(),
            !r.done_spec(),
    {
        DeviceDeletion { id, wait, deleted: false, settling: false, confirmed: false, done: false }
    }

    /// Takes the reply to the delete command; returns the outcome once the
    /// operation is over.
    pub fn on_delete_reply<E>(&mut self, reply: Result<(), E>) -> (r: Option<Result<(), DeleteError<E>>>)
        requires
            old(self).wf(),
            !old(self).deleted_spec(),
        ensures
            final(self).wf(),
            final(self).id_spec() == old(self).id_spec(),
            final(self).waits() == old(self).waits(),
            final(self).settling_spec() == old(self).settling_spec(),
            final(self).confirmed_spec() == old(self).confirmed_spec(),
            old(self).done_spec() ==> r is None && *final(self) == *old(self),
            !old(self).done_spec() ==> match reply {
                Err(e) => r == Some(Err::<(), DeleteError<E>>(DeleteError::Remote(e)))
                    && final(self).done_spec(),
                Ok(_) => {
                    &&& final(self).deleted_spec()
                    &&& if !old(self).waits() || old(self).confirmed_spec() {
                        r == Some(Ok::<(), DeleteError<E>>(())) && final(self).done_spec()
                    } else {
                        r is None && !final(self).done_spec()
                    }
                },
            },
    {
        if self.done {
            return None;
        }
        match reply {
            Err(e) => {
                self.done = true;
                Some(Err(DeleteError::Remote(e)))
            },
            Ok(_) => {
                self.deleted = true;
                if !self.wait || self.confirmed {
                    self.done = true;
                    Some(Ok(()))
                } else {
                    None
                }
            },
        }
    }

    /// Takes one receive from the event bus.
    pub fn on_event<E>(&mut self, ev: &BusEvent) -> (r: WaitStep<E>)
        requires
            old(self).wf(),
            old(self).waits(),
            !old(self).done_spec(),
            !old(self).settling_spec(),
            !old(self).confirmed_spec(),
        ensures
            final(self).wf(),
            event_post(*old(self), *ev, *final(self), r),
    {
        match ev {
            BusEvent::DeviceDeleted { device: Some(d) } => {
                if *d == self.id {
                    self.settling = true;
                    WaitStep::Settle { delay_ms: SETTLE_DELAY_MS }
                } else {
                    WaitStep::Continue
                }
            },
            BusEvent::Closed => {
                self.done = true;
                WaitStep::Finish(Err(DeleteError::EventNeverArrived))
            },
            _ => WaitStep::Continue,
        }
    }

    /// The settle delay after the deletion event passed; returns the outcome
    /// once the operation is over.
    pub fn on_settled<E>(&mut self) -> (r: Option<Result<(), DeleteError<E>>>)
        requires
            old(self).wf(),
            old(self).settling_spec(),
            !old(self).done_spec(),
        ensures
            final(self).wf(),
            final(self).id_spec() == old(self).id_spec(),
            final(self).waits() == old(self).waits(),
            final(self).deleted_spec() == old(self).deleted_spec(),
            final(self).confirmed_spec(),
            !final(self).settling_spec(),
            if old(self).deleted_spec() {
                r == Some(Ok::<(), DeleteError<E>>(())) && final(self).done_spec()
            } else {
                r is None && !final(self).done_spec()
            },
    {
        self.settling = false;
        self.confirmed = true;
        if self.deleted {
            self.done = true;
            Some(Ok(()))
        } else {
            None
        }
    }
}

/// How one event moves a deletion wait from `d` to `n` and what it asks for.
pub open spec fn event_post<E>(d: DeviceDeletion, ev: BusEvent, n: DeviceDeletion, r: WaitStep<E>) -> bool {
    &&& n.id_spec() == d.id_spec()
    &&& n.waits() == d.waits()
    &&& n.deleted_spec() == d.deleted_spec()
    &&& !n.confirmed_spec()
    &&& if is_deletion_of(ev, d.id_spec()) {
        r == (WaitStep::<E>::Settle { delay_ms: SETTLE_DELAY_MS }) && n.settling_spec() && !n.done_spec()
    } else if ev is Closed {
        r == WaitStep::<E>::Finish(Err(DeleteError::EventNeverArrived)) && n.done_spec()
            && !n.settling_spec()
    } else {
        r == WaitStep::<E>::Continue && n == d
    }
}

/// When the event stream closes before the deletion event, the deletion
/// fails with `EventNeverArrived`, even when the delete command succeeded.
pub proof fn lemma_closed_stream_fails<E>(d: DeviceDeletion, n: DeviceDeletion, r: WaitStep<E>)
    requires
        d.wf(),
        event_post(d, BusEvent::Closed, n, r),
    ensures
        r == WaitStep::<E>::Finish(Err(DeleteError::EventNeverArrived)),
        n.done_spec(),
{
}

} // verus!
