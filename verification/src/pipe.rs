//! One end of a pipe, as far as its status goes.

use crate::cshadow::CModel;
use crate::cshadow::CShadow;
use crate::event_queue::all_released;
use crate::event_queue::all_shared;
use crate::event_queue::events_for;
use crate::event_queue::ids;
use crate::event_queue::Event;
use crate::event_queue::EventQueue;
use crate::event_queue::Handle;
use crate::event_queue::Registration;
use crate::flags::FileFlags;
use crate::flags::FileMode;
use crate::flags::FileStatus;
use crate::flags::Status;
use crate::flags::STATUS_DESCRIPTOR_ACTIVE;
use crate::flags::STATUS_DESCRIPTOR_CLOSED;
use crate::flags::STATUS_DESCRIPTOR_READABLE;
use crate::flags::STATUS_DESCRIPTOR_WRITABLE;
use crate::ids::is_least_unused;
use crate::listener::Listener;
use crate::listener::NewStatusListenerFilter;
use crate::listener::NotifyFn;
use crate::listener::StatusListener;
use crate::status_source::legacy_added;
use crate::status_source::legacy_released;
use crate::status_source::listens;
use crate::status_source::no_repeats;
use crate::status_source::without_legacy;
use crate::status_source::StatusEventSource;
use crate::syscall::SysCallReg;
use crate::syscall::SyscallResult;
use vstd::prelude::*;

verus! {

/// What there is to know of an end of a pipe.
#[verifier::ext_equal]
pub struct PipeModel {
    pub status: FileStatus,
    pub mode: FileMode,
    pub flags: FileFlags,
    /// The listeners of the status, in the order in which they were added.
    pub listeners: Seq<Registration>,
}

/// `status`, except for the bits in `mask`, which are as in `new`.
pub open spec fn masked(status: FileStatus, mask: Status, new: Status) -> FileStatus {
    FileStatus::of_value((status.value() & !mask) | (new & mask))
}

/// The bits in which two statuses differ.
pub open spec fn changed_bits(before: FileStatus, after: FileStatus) -> FileStatus {
    FileStatus::of_value(after.value() ^ before.value())
}

impl PipeModel {
    /// The events that follow from a change of the status to `status`: none if it stays the same,
    /// otherwise one for each listener.
    pub open spec fn events_of_change(self, status: FileStatus) -> Seq<Event> {
        let changed = changed_bits(self.status, status);
        if changed.value() == 0 {
            Seq::empty()
        } else {
            events_for(self.listeners, status, changed)
        }
    }

    /// The C side after those events were queued.
    pub open spec fn c_after_change(self, status: FileStatus, c: CModel) -> CModel {
        if changed_bits(self.status, status).value() == 0 {
            c
        } else {
            all_shared(self.listeners, c)
        }
    }

    /// The status after the file was closed.
    pub open spec fn closed_status(self) -> FileStatus {
        masked(
            self.status,
            STATUS_DESCRIPTOR_CLOSED | STATUS_DESCRIPTOR_ACTIVE | STATUS_DESCRIPTOR_READABLE
                | STATUS_DESCRIPTOR_WRITABLE,
            STATUS_DESCRIPTOR_CLOSED,
        )
    }

    /// The file after it was closed.
    pub open spec fn closed(self) -> PipeModel {
        PipeModel { status: self.closed_status(), ..self }
    }
}

/// One end of a pipe.
#[derive(Debug)]
pub struct PipeFile {
    status: FileStatus,
    mode: FileMode,
    flags: FileFlags,
    event_source: StatusEventSource,
}

impl View for PipeFile {
    type V = PipeModel;

    closed spec fn view(&self) -> PipeModel {
        PipeModel {
            status: self.status,
            mode: self.mode,
            flags: self.flags,
            listeners: self.event_source@,
        }
    }
}

impl PipeFile {
    /// An active end of a pipe that nobody listens to.
    pub fn new(mode: FileMode, flags: FileFlags) -> (file: PipeFile)
        ensures
            file@.status.value() == STATUS_DESCRIPTOR_ACTIVE,
            file@.mode == mode,
            file@.flags == flags,
            file@.listeners == Seq::<Registration>::empty(),
    {
        PipeFile {
            status: FileStatus::ACTIVE(),
            mode,
            flags,
            event_source: StatusEventSource::new(),
        }
    }

    /// The status.
    pub fn status(&self) -> (status: FileStatus)
        ensures
            status == self@.status,
    {
        self.status
    }

    /// The mode.
    pub fn mode(&self) -> (mode: FileMode)
        ensures
            mode == self@.mode,
    {
        self.mode
    }

    /// The flags.
    pub fn get_flags(&self) -> (flags: FileFlags)
        ensures
            flags == self@.flags,
    {
        self.flags
    }

    /// Replaces the flags.
    pub fn set_flags(&mut self, flags: FileFlags)
        ensures
            final(self)@ == (PipeModel { flags, ..old(self)@ }),
    {
        self.flags = flags;
    }

    /// Adds a function that is called when the status changes.
    pub fn add_listener(
        &mut self,
        monitoring: FileStatus,
        filter: NewStatusListenerFilter,
        notify_fn: NotifyFn,
    ) -> (handle: Handle)
        ensures
            is_least_unused(ids(old(self)@.listeners), handle.id()),
            final(self)@ == (PipeModel {
                listeners: old(self)@.listeners.push(
                    Registration {
                        id: handle.id(),
                        listener: Listener::Status(
                            StatusListener { monitoring, filter, notify_fn },
                        ),
                    },
                ),
                ..old(self)@
            }),
    {
        self.event_source.add_listener(monitoring, filter, notify_fn)
    }

    /// Adds a C status listener, which must not be null.
    pub fn add_legacy_listener(&mut self, ptr: usize, c: &mut CShadow)
        requires
            ptr != 0,
        ensures
            legacy_added(
                old(self)@.listeners,
                old(c)@,
                ptr,
                final(self)@.listeners,
                final(c)@,
            ),
            final(self)@ == (PipeModel { listeners: final(self)@.listeners, ..old(self)@ }),
            no_repeats(final(self)@.listeners),
    {
        self.event_source.add_legacy_listener(ptr, c)
    }

    /// Removes a C status listener, which must not be null.
    pub fn remove_legacy_listener(&mut self, ptr: usize, c: &mut CShadow)
        requires
            ptr != 0,
        ensures
            final(self)@ == (PipeModel {
                listeners: without_legacy(old(self)@.listeners, ptr),
                ..old(self)@
            }),
            final(c)@ == legacy_released(old(self)@.listeners, ptr, old(c)@),
            !listens(final(self)@.listeners, ptr),
            no_repeats(final(self)@.listeners),
    {
        self.event_source.remove_legacy_listener(ptr, c)
    }

    /// Makes the bits of the status that are in `mask` as they are in `status`, and queues events
    /// for the listeners if that changes any of them.
    fn copy_status(
        &mut self,
        mask: FileStatus,
        status: FileStatus,
        event_queue: &mut EventQueue,
        c: &mut CShadow,
    )
        ensures
            ({
                let after = masked(old(self)@.status, mask.value(), status.value());
                &&& final(self)@ == (PipeModel { status: after, ..old(self)@ })
                &&& final(event_queue)@ == old(event_queue)@ + old(self)@.events_of_change(after)
                &&& final(c)@ == old(self)@.c_after_change(after, old(c)@)
            }),
    {
        broadcast use FileStatus::lemma_of_value;

        let before = self.status;
        let kept = before.difference(mask);
        let copied = status.intersection(mask);
        let after = kept.union(copied);
        self.status = after;
        let changed = after.symmetric_difference(before);
        proof {
            assert(after == masked(before, mask.value(), status.value()));
            assert(changed == changed_bits(before, after));
        }
        if !changed.is_empty() {
            self.event_source.notify_listeners(after, changed, event_queue, c);
        }
    }

    /// Closes the file: it is no longer active, readable or writable.
    pub fn close(&mut self, event_queue: &mut EventQueue, c: &mut CShadow) -> (result:
        SyscallResult)
        ensures
            result == SyscallResult::Ok(SysCallReg { as_i64: 0 }),
            final(self)@ == old(self)@.closed(),
            final(event_queue)@ == old(event_queue)@ + old(self)@.events_of_change(
                old(self)@.closed_status(),
            ),
            final(c)@ == old(self)@.c_after_change(old(self)@.closed_status(), old(c)@),
    {
        let closed = FileStatus::CLOSED();
        let mask = closed.union(FileStatus::ACTIVE()).union(FileStatus::READABLE()).union(
            FileStatus::WRITABLE(),
        );
        self.copy_status(mask, closed, event_queue, c);
        Ok(SysCallReg { as_i64: 0 })
    }

    /// Lets go of all listeners, in the order in which they were added, for a file that is about to
    /// go away.
    pub(crate) fn give_back_listeners(&self, c: &mut CShadow)
        ensures
            final(c)@ == all_released(self@.listeners, old(c)@),
    {
        self.event_source.give_back(c)
    }
}

} // verus!
