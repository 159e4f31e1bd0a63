//! What can listen to the status of a file.

use crate::cshadow::CModel;
use crate::cshadow::CShadow;
use crate::cshadow::ListenerRef;
use crate::flags::FileStatus;
use vstd::prelude::*;

verus! {

/// Which changes of the monitored bits a listener is told about.
#[derive(Clone, Copy, Debug, PartialEq, Eq, Structural)]
pub enum NewStatusListenerFilter {
    Never,
    OffToOn,
    OnToOff,
    Always,
}

/// A function that is to be called when a status has changed, known by a number that whoever
/// registers it picks.
#[derive(Clone, Copy, Debug, PartialEq, Eq, Structural)]
pub struct NotifyFn {
    pub id: u64,
}

/// A call of `notify_fn` with the status of a file and the bits of it that have changed.
#[derive(Clone, Copy, Debug, PartialEq, Eq, Structural)]
pub struct Notification {
    pub notify_fn: NotifyFn,
    pub status: FileStatus,
    pub changed: FileStatus,
}

/// A function together with the changes that it is called for: the monitored bits have changed,
/// and the filter is satisfied.
#[derive(Clone, Copy, Debug, PartialEq, Eq, Structural)]
pub struct StatusListener {
    pub monitoring: FileStatus,
    pub filter: NewStatusListenerFilter,
    pub notify_fn: NotifyFn,
}

impl StatusListener {
    /// The function is to be called when the bits `changed` of a status have become as in
    /// `status`.
    pub open spec fn notifies(self, status: FileStatus, changed: FileStatus) -> bool {
        match self.filter {
            NewStatusListenerFilter::Never => false,
            NewStatusListenerFilter::OffToOn => {
                self.monitoring.meets(changed) && self.monitoring.meets(status)
            },
            NewStatusListenerFilter::OnToOff => {
                self.monitoring.meets(changed) && !self.monitoring.meets(status)
            },
            NewStatusListenerFilter::Always => self.monitoring.meets(changed),
        }
    }

    /// The call of the function that a change leads to, if any.
    pub open spec fn notification(self, status: FileStatus, changed: FileStatus) -> Option<
        Notification,
    > {
        if self.notifies(status, changed) {
            Some(Notification { notify_fn: self.notify_fn, status, changed })
        } else {
            None
        }
    }

    /// Decides whether the function is called for a change, and with what.
    pub fn on_status_changed(&self, status: FileStatus, changed: FileStatus) -> (notification:
        Option<Notification>)
        ensures
            notification == self.notification(status, changed),
            notification is Some <==> self.monitoring.value() & changed.value() != 0
                && match self.filter {
                NewStatusListenerFilter::Never => false,
                NewStatusListenerFilter::OffToOn => self.monitoring.value() & status.value() != 0,
                NewStatusListenerFilter::OnToOff => self.monitoring.value() & status.value() == 0,
                NewStatusListenerFilter::Always => true,
            },
            notification matches Some(notification) ==> {
                &&& notification.notify_fn == self.notify_fn
                &&& notification.status == status
                &&& notification.changed == changed
            },
    {
        // true if any of the bits we're monitoring have changed
        let flipped = self.monitoring.intersects(changed);

        // true if any of the bits we're monitoring are set
        let on = self.monitoring.intersects(status);

        let notify = match self.filter {
            // at least one monitored bit is on, and at least one has changed
            NewStatusListenerFilter::OffToOn => flipped && on,
            // all monitored bits are off, and at least one has changed
            NewStatusListenerFilter::OnToOff => flipped && !on,
            // at least one monitored bit has changed
            NewStatusListenerFilter::Always => flipped,
            NewStatusListenerFilter::Never => false,
        };

        if !notify {
            return None;
        }
        Some(Notification { notify_fn: self.notify_fn, status, changed })
    }
}

/// A change is reported by exactly one of the filters `OffToOn` and `OnToOff` if it is reported by
/// `Always`, and by neither of them otherwise; `Never` reports none.
pub proof fn law_filters_partition(
    monitoring: FileStatus,
    notify_fn: NotifyFn,
    status: FileStatus,
    changed: FileStatus,
)
    ensures
        ({
            let with = |filter: NewStatusListenerFilter|
                (StatusListener { monitoring, filter, notify_fn }).notifies(status, changed);
            &&& with(NewStatusListenerFilter::Always) <==> (with(NewStatusListenerFilter::OffToOn)
                || with(NewStatusListenerFilter::OnToOff))
            &&& !(with(NewStatusListenerFilter::OffToOn) && with(NewStatusListenerFilter::OnToOff))
            &&& !with(NewStatusListenerFilter::Never)
        }),
{
}

/// No listener is told of a change of bits that it does not monitor.
pub proof fn law_unmonitored_change_is_silent(
    listener: StatusListener,
    status: FileStatus,
    changed: FileStatus,
)
    requires
        !listener.monitoring.meets(changed),
    ensures
        listener.notification(status, changed) is None,
{
}

/// A holder of a reference to a C status listener. The reference is taken when the first holder is
/// made and given back when the last one is released.
#[derive(Debug)]
pub struct LegacyStatusListener {
    reference: ListenerRef,
}

impl LegacyStatusListener {
    /// The reference that is held.
    pub closed spec fn reference(&self) -> ListenerRef {
        self.reference
    }

    /// Takes a reference to the listener at `ptr`, which must not be null.
    pub fn new(ptr: usize, c: &mut CShadow) -> (listener: LegacyStatusListener)
        requires
            ptr != 0,
        ensures
            listener.reference().ptr == ptr,
            old(c)@.is_fresh(listener.reference()),
            final(c)@ == old(c)@.taken(listener.reference()),
            final(c)@.balanced(),
    {
        LegacyStatusListener { reference: c.take_reference(ptr) }
    }

    /// The address of the listener.
    pub fn ptr(&self) -> (ptr: usize)
        ensures
            ptr == self.reference().ptr,
    {
        self.reference.ptr
    }

    /// A further holder of the same reference.
    pub fn share(&self, c: &mut CShadow) -> (listener: LegacyStatusListener)
        ensures
            listener == *self,
            final(c)@ == old(c)@.shared(self.reference()),
            final(c)@.balanced(),
    {
        c.share_reference(self.reference);
        LegacyStatusListener { reference: self.reference }
    }

    /// Lets go of the reference, which is given back if nothing else holds it.
    pub fn release(self, c: &mut CShadow)
        ensures
            final(c)@ == old(c)@.released(self.reference()),
            final(c)@.balanced(),
    {
        self.give_back(c)
    }

    /// Lets go of the reference for a holder that is about to go away and cannot be taken apart.
    pub(crate) fn give_back(&self, c: &mut CShadow)
        ensures
            final(c)@ == old(c)@.released(self.reference()),
            final(c)@.balanced(),
    {
        c.release_reference(self.reference)
    }
}

/// A listener of either kind.
#[derive(Debug)]
pub enum Listener {
    Status(StatusListener),
    Legacy(LegacyStatusListener),
}

impl Listener {
    /// The listener is the C status listener at `ptr`.
    pub open spec fn is_legacy(self, ptr: usize) -> bool {
        self matches Listener::Legacy(legacy) && legacy.reference().ptr == ptr
    }

    /// The C side after the listener was given one more holder.
    pub open spec fn shared(self, c: CModel) -> CModel {
        match self {
            Listener::Status(_) => c,
            Listener::Legacy(legacy) => c.shared(legacy.reference()),
        }
    }

    /// The C side after a holder of the listener let go of it.
    pub open spec fn released(self, c: CModel) -> CModel {
        match self {
            Listener::Status(_) => c,
            Listener::Legacy(legacy) => c.released(legacy.reference()),
        }
    }

    /// The same listener for one more holder.
    pub fn share(&self, c: &mut CShadow) -> (listener: Listener)
        ensures
            listener == *self,
            final(c)@ == self.shared(old(c)@),
    {
        match self {
            Listener::Status(status) => Listener::Status(*status),
            Listener::Legacy(legacy) => Listener::Legacy(legacy.share(c)),
        }
    }

    /// Lets go of the listener.
    pub fn release(self, c: &mut CShadow)
        ensures
            final(c)@ == self.released(old(c)@),
    {
        match self {
            Listener::Status(_) => (),
            Listener::Legacy(legacy) => legacy.release(c),
        }
    }

    /// Lets go of the listener for a holder that is about to go away and cannot be taken apart.
    pub(crate) fn give_back(&self, c: &mut CShadow)
        ensures
            final(c)@ == self.released(old(c)@),
    {
        match self {
            Listener::Status(_) => (),
            Listener::Legacy(legacy) => legacy.give_back(c),
        }
    }
}

} // verus!
