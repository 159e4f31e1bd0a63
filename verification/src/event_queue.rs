//! A queue of events, and a source that queues an event for each of its listeners.

use crate::cshadow::CCall;
use crate::cshadow::CModel;
use crate::cshadow::CShadow;
use crate::flags::FileStatus;
use crate::ids::is_least_unused;
use crate::ids::unused_id;
use crate::listener::Listener;
use crate::listener::Notification;
use std::collections::VecDeque;
use vstd::prelude::*;

verus! {

/// A change of a status that a listener has yet to be told about. It is one of the listener's
/// holders.
#[derive(Debug)]
pub struct Event {
    pub listener: Listener,
    pub status: FileStatus,
    pub changed: FileStatus,
}

impl Event {
    /// The call of a function that the event leads to, if any.
    pub open spec fn notification(self) -> Option<Notification> {
        match self.listener {
            Listener::Status(listener) => listener.notification(self.status, self.changed),
            Listener::Legacy(_) => None,
        }
    }

    /// The C side after a C status listener was told of the change. The event still holds it.
    pub open spec fn told(self, c: CModel) -> CModel {
        match self.listener {
            Listener::Status(_) => c,
            Listener::Legacy(legacy) => c.called(
                CCall::StatusListenerOnStatusChanged {
                    ptr: legacy.reference().ptr,
                    status: self.status.value(),
                    changed: self.changed.value(),
                },
            ),
        }
    }

    /// Tells the listener of the change. A function that is to be called is returned; a C status
    /// listener is called through `c`. The event goes on to hold its listener until it is released,
    /// which is to happen after the call was made.
    pub fn run(&self, c: &mut CShadow) -> (notification: Option<Notification>)
        ensures
            notification == self.notification(),
            final(c)@ == self.told(old(c)@),
            match self.listener {
                Listener::Status(listener) => {
                    &&& notification == listener.notification(self.status, self.changed)
                    &&& final(c)@.pending == old(c)@.pending
                },
                Listener::Legacy(legacy) => {
                    &&& notification is None
                    &&& final(c)@.pending == old(c)@.pending.push(
                        CCall::StatusListenerOnStatusChanged {
                            ptr: legacy.reference().ptr,
                            status: self.status.value(),
                            changed: self.changed.value(),
                        },
                    )
                },
            },
            final(c)@.issued == old(c)@.issued,
            final(c)@.holders == old(c)@.holders,
    {
        match &self.listener {
            Listener::Status(listener) => listener.on_status_changed(self.status, self.changed),
            Listener::Legacy(legacy) => {
                c.call(
                    CCall::StatusListenerOnStatusChanged {
                        ptr: legacy.ptr(),
                        status: self.status.bits(),
                        changed: self.changed.bits(),
                    },
                );
                None
            },
        }
    }

    /// Lets go of the listener.
    pub fn release(self, c: &mut CShadow)
        ensures
            final(c)@ == self.listener.released(old(c)@),
    {
        self.listener.release(c)
    }
}

/// The events that are to be run, first in, first out.
#[derive(Debug)]
pub struct EventQueue {
    events: VecDeque<Event>,
}

impl View for EventQueue {
    type V = Seq<Event>;

    closed spec fn view(&self) -> Seq<Event> {
        self.events@
    }
}

impl EventQueue {
    /// A queue of no events.
    pub fn new() -> (queue: EventQueue)
        ensures
            queue@ == Seq::<Event>::empty(),
    {
        EventQueue { events: VecDeque::new() }
    }

    /// Puts an event at the end of the queue.
    pub fn add(&mut self, event: Event)
        ensures
            final(self)@ == old(self)@.push(event),
    {
        self.events.push_back(event);
    }

    /// Takes the event at the front out of the queue, if there is one.
    pub fn pop(&mut self) -> (event: Option<Event>)
        ensures
            old(self)@.len() == 0 ==> event is None && final(self)@ == old(self)@,
            old(self)@.len() > 0 ==> event == Some(old(self)@[0]) && final(self)@ == old(
                self,
            )@.drop_first(),
    {
        self.events.pop_front()
    }

    /// How many events are in the queue.
    pub fn len(&self) -> (len: usize)
        ensures
            len == self@.len(),
    {
        self.events.len()
    }
}

/// Tells a listener of a source apart from its other listeners.
#[derive(Debug)]
pub struct Handle {
    id: u64,
}

impl Handle {
    /// The identifier of the listener.
    pub closed spec fn id(&self) -> u64 {
        self.id
    }
}

/// A listener of a source, with the identifier that its handle has.
#[derive(Debug)]
pub struct Registration {
    pub id: u64,
    pub listener: Listener,
}

/// The identifiers of the registrations, in order.
pub open spec fn ids(registrations: Seq<Registration>) -> Seq<u64> {
    registrations.map_values(|registration: Registration| registration.id)
}

/// One event for each registration, in order.
pub open spec fn events_for(
    registrations: Seq<Registration>,
    status: FileStatus,
    changed: FileStatus,
) -> Seq<Event> {
    registrations.map_values(
        |registration: Registration| Event { listener: registration.listener, status, changed },
    )
}

/// The C side after each of the listeners was given one more holder, in order.
pub open spec fn all_shared(registrations: Seq<Registration>, c: CModel) -> CModel
    decreases registrations.len(),
{
    if registrations.len() == 0 {
        c
    } else {
        registrations.last().listener.shared(all_shared(registrations.drop_last(), c))
    }
}

/// The C side after each of the listeners was let go of, in order.
pub open spec fn all_released(registrations: Seq<Registration>, c: CModel) -> CModel
    decreases registrations.len(),
{
    if registrations.len() == 0 {
        c
    } else {
        registrations.last().listener.released(all_released(registrations.drop_last(), c))
    }
}

/// A list of listeners. No two of them have the same handle.
#[derive(Debug)]
pub struct EventSource {
    listeners: Vec<Registration>,
}

impl View for EventSource {
    type V = Seq<Registration>;

    closed spec fn view(&self) -> Seq<Registration> {
        self.listeners@
    }
}

impl EventSource {
    #[verifier::type_invariant]
    spec fn well_formed(self) -> bool {
        ids(self.listeners@).no_duplicates()
    }

    /// A source without listeners.
    pub fn new() -> (source: EventSource)
        ensures
            source@ == Seq::<Registration>::empty(),
    {
        EventSource { listeners: Vec::new() }
    }

    /// The identifiers of the listeners, in order.
    fn used_ids(listeners: &Vec<Registration>) -> (used: Vec<u64>)
        ensures
            used@ == ids(listeners@),
    {
        let mut used: Vec<u64> = Vec::new();
        for i in 0..listeners.len()
            invariant
                used@ == ids(listeners@).take(i as int),
        {
            used.push(listeners[i].id);
        }
        used
    }

    /// Puts a listener at the end of the list.
    pub fn add_listener(&mut self, listener: Listener) -> (handle: Handle)
        ensures
            is_least_unused(ids(old(self)@), handle.id()),
            final(self)@ == old(self)@.push(Registration { id: handle.id(), listener }),
            ids(final(self)@).no_duplicates(),
    {
        proof {
            use_type_invariant(&*self);
        }
        let mut listeners: Vec<Registration> = Vec::new();
        core::mem::swap(&mut self.listeners, &mut listeners);
        let id: u64 = unused_id(&Self::used_ids(&listeners));
        let ghost before = listeners@;
        listeners.push(Registration { id, listener });
        proof {
            assert(ids(listeners@) =~= ids(before).push(id));
            assert forall|i: int, j: int| 0 <= i < j < ids(listeners@).len() implies ids(
                listeners@,
            )[i] != ids(listeners@)[j] by {
                assert(ids(before).contains(ids(before)[i]));
            }
        }
        self.listeners = listeners;
        Handle { id }
    }

    /// Where the listener with this identifier is in the list.
    fn position(&self, id: u64) -> (at: Option<usize>)
        ensures
            at matches Some(at) ==> at < self@.len() && self@[at as int].id == id,
            at is None ==> !ids(self@).contains(id),
    {
        for i in 0..self.listeners.len()
            invariant
                forall|j: int| 0 <= j < i ==> (#[trigger] self.listeners@[j]).id != id,
        {
            if self.listeners[i].id == id {
                return Some(i);
            }
        }
        proof {
            assert forall|j: int| 0 <= j < ids(self@).len() implies ids(self@)[j] != id by {
                assert(self.listeners@[j].id != id);
            }
        }
        None
    }

    /// The listener that a handle belongs to, or nothing if it is not in the list.
    pub fn get(&self, handle: &Handle) -> (listener: Option<&Listener>)
        ensures
            listener is Some <==> ids(self@).contains(handle.id()),
            listener matches Some(listener) ==> *listener == self@[ids(self@).index_of(
                handle.id(),
            )].listener,
    {
        proof {
            use_type_invariant(self);
        }
        match self.position(handle.id) {
            Some(at) => {
                proof {
                    assert(ids(self@)[at as int] == handle.id);
                    assert(ids(self@).contains(handle.id));
                    assert(ids(self@).index_of(handle.id) == at);
                }
                Some(&self.listeners[at].listener)
            },
            None => None,
        }
    }

    /// Takes the listener that a handle belongs to out of the list. The others stay in order.
    pub fn remove_listener(&mut self, handle: Handle) -> (listener: Option<Listener>)
        ensures
            listener is Some <==> ids(old(self)@).contains(handle.id()),
            listener is None ==> final(self)@ == old(self)@,
            listener matches Some(listener) ==> ({
                let at = ids(old(self)@).index_of(handle.id());
                &&& old(self)@[at] == Registration { id: handle.id(), listener }
                &&& final(self)@ == old(self)@.remove(at)
            }),
            ids(final(self)@).no_duplicates(),
    {
        proof {
            use_type_invariant(&*self);
        }
        let at = match self.position(handle.id) {
            Some(at) => at,
            None => return None,
        };
        let mut listeners: Vec<Registration> = Vec::new();
        core::mem::swap(&mut self.listeners, &mut listeners);
        let ghost before = listeners@;
        let Registration { id: _, listener } = listeners.remove(at);
        proof {
            assert(ids(before)[at as int] == handle.id);
            assert(ids(before).contains(handle.id));
            assert(ids(before).index_of(handle.id) == at);
            assert(ids(listeners@) =~= ids(before).remove(at as int));
        }
        self.listeners = listeners;
        Some(listener)
    }

    /// Queues an event for each listener, in the order of the list.
    pub fn notify_listeners(
        &self,
        status: FileStatus,
        changed: FileStatus,
        event_queue: &mut EventQueue,
        c: &mut CShadow,
    )
        ensures
            final(event_queue)@ == old(event_queue)@ + events_for(self@, status, changed),
            final(c)@ == all_shared(self@, old(c)@),
            final(event_queue)@.len() == old(event_queue)@.len() + self@.len(),
            forall|i: int|
                0 <= i < old(event_queue)@.len() ==> #[trigger] final(event_queue)@[i] == old(
                    event_queue,
                )@[i],
            forall|i: int|
                0 <= i < self@.len() ==> {
                    let event = #[trigger] final(event_queue)@[old(event_queue)@.len() + i];
                    &&& event.listener == self@[i].listener
                    &&& event.status == status
                    &&& event.changed == changed
                },
            final(c)@.pending == old(c)@.pending,
            final(c)@.issued == old(c)@.issued,
    {
        for i in 0..self.listeners.len()
            invariant
                event_queue@ == old(event_queue)@ + events_for(
                    self@.take(i as int),
                    status,
                    changed,
                ),
                c@ == all_shared(self@.take(i as int), old(c)@),
                c@.pending == old(c)@.pending,
                c@.issued == old(c)@.issued,
        {
            proof {
                assert(self@.take(i + 1).drop_last() =~= self@.take(i as int));
                assert(events_for(self@.take(i + 1), status, changed) =~= events_for(
                    self@.take(i as int),
                    status,
                    changed,
                ).push(Event { listener: self@[i as int].listener, status, changed }));
            }
            let listener = self.listeners[i].listener.share(c);
            event_queue.add(Event { listener, status, changed });
        }
        proof {
            assert(self@.take(self@.len() as int) =~= self@);
        }
    }

    /// Lets go of all listeners, in the order of the list.
    pub fn release(self, c: &mut CShadow)
        ensures
            final(c)@ == all_released(self@, old(c)@),
    {
        self.give_back(c)
    }

    /// Lets go of all listeners, in the order of the list, for a source that is about to go away
    /// and cannot be taken apart.
    pub(crate) fn give_back(&self, c: &mut CShadow)
        ensures
            final(c)@ == all_released(self@, old(c)@),
    {
        for i in 0..self.listeners.len()
            invariant
                c@ == all_released(self@.take(i as int), old(c)@),
        {
            proof {
                assert(self@.take(i + 1).drop_last() =~= self@.take(i as int));
            }
            self.listeners[i].listener.give_back(c);
        }
        proof {
            assert(self@.take(self@.len() as int) =~= self@);
        }
    }
}

} // verus!
