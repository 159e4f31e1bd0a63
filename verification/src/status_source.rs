//! The source of the events that the listeners of one file's status are told about.

use crate::cshadow::CModel;
use crate::cshadow::CShadow;
use crate::event_queue::all_released;
use crate::event_queue::all_shared;
use crate::event_queue::events_for;
use crate::event_queue::ids;
use crate::event_queue::EventQueue;
use crate::event_queue::EventSource;
use crate::event_queue::Handle;
use crate::event_queue::Registration;
use crate::flags::FileStatus;
use crate::ids::is_least_unused;
use crate::listener::LegacyStatusListener;
use crate::listener::Listener;
use crate::listener::NewStatusListenerFilter;
use crate::listener::NotifyFn;
use crate::listener::StatusListener;
use std::collections::HashMap;
use vstd::prelude::*;

verus! {

broadcast use vstd::std_specs::hash::group_hash_axioms;

/// The C status listener at `ptr` is among the listeners.
pub open spec fn listens(registrations: Seq<Registration>, ptr: usize) -> bool {
    exists|i: int|
        0 <= i < registrations.len() && (#[trigger] registrations[i]).listener.is_legacy(ptr)
}

/// Where the C status listener at `ptr` is among the listeners.
pub open spec fn position_of(registrations: Seq<Registration>, ptr: usize) -> int {
    choose|i: int|
        0 <= i < registrations.len() && (#[trigger] registrations[i]).listener.is_legacy(ptr)
}

/// No two listeners have the same handle, and no C status listener is there twice.
pub open spec fn no_repeats(registrations: Seq<Registration>) -> bool {
    &&& ids(registrations).no_duplicates()
    &&& forall|i: int, j: int, ptr: usize|
        0 <= i < registrations.len() && 0 <= j < registrations.len()
            && #[trigger] registrations[i].listener.is_legacy(ptr)
            && #[trigger] registrations[j].listener.is_legacy(ptr) ==> i == j
}

/// The C status listener at `ptr` was put at the end of the listeners, and a reference to it taken,
/// unless it was among them already.
pub open spec fn legacy_added(
    registrations: Seq<Registration>,
    c: CModel,
    ptr: usize,
    registrations_after: Seq<Registration>,
    c_after: CModel,
) -> bool {
    if listens(registrations, ptr) {
        registrations_after == registrations && c_after == c
    } else {
        let added = registrations_after.last();
        &&& registrations_after == registrations.push(added)
        &&& is_least_unused(ids(registrations), added.id)
        &&& added.listener matches Listener::Legacy(legacy)
        &&& legacy.reference().ptr == ptr
        &&& c.is_fresh(legacy.reference())
        &&& c_after == c.taken(legacy.reference())
    }
}

/// The listeners without the C status listener at `ptr`.
pub open spec fn without_legacy(registrations: Seq<Registration>, ptr: usize) -> Seq<Registration> {
    if listens(registrations, ptr) {
        registrations.remove(position_of(registrations, ptr))
    } else {
        registrations
    }
}

/// The C side after the C status listener at `ptr` was let go of, if it was among the listeners.
pub open spec fn legacy_released(
    registrations: Seq<Registration>,
    ptr: usize,
    c: CModel,
) -> CModel {
    if listens(registrations, ptr) {
        registrations[position_of(registrations, ptr)].listener.released(c)
    } else {
        c
    }
}

/// The listener with this identifier is the C status listener at `ptr`.
pub open spec fn is_legacy_at(registrations: Seq<Registration>, id: u64, ptr: usize) -> bool {
    &&& ids(registrations).contains(id)
    &&& registrations[ids(registrations).index_of(id)].listener.is_legacy(ptr)
}

/// The handles are those of the C status listeners among `registrations`, each under its listener's
/// address.
pub open spec fn tracks(handles: Map<usize, Handle>, registrations: Seq<Registration>) -> bool {
    &&& ids(registrations).no_duplicates()
    &&& forall|ptr: usize| #[trigger]
        handles.contains_key(ptr) ==> exists|i: int|
            0 <= i < registrations.len() && #[trigger] registrations[i].listener.is_legacy(ptr)
    &&& forall|i: int, ptr: usize|
        0 <= i < registrations.len() && #[trigger] registrations[i].listener.is_legacy(ptr)
            ==> handles.contains_key(ptr) && handles[ptr].id() == registrations[i].id
}

/// Handles that are tracked belong to listeners without repeats, and there is one for a C status
/// listener if and only if it is among them.
proof fn lemma_tracks(handles: Map<usize, Handle>, registrations: Seq<Registration>)
    requires
        tracks(handles, registrations),
    ensures
        no_repeats(registrations),
        forall|ptr: usize| #[trigger] handles.contains_key(ptr) == listens(registrations, ptr),
{
    assert forall|i: int, j: int, ptr: usize|
        0 <= i < registrations.len() && 0 <= j < registrations.len()
            && #[trigger] registrations[i].listener.is_legacy(ptr)
            && #[trigger] registrations[j].listener.is_legacy(ptr) implies i == j by {
        assert(ids(registrations)[i] == registrations[i].id);
        assert(ids(registrations)[j] == registrations[j].id);
    }
}

/// Handles stay tracked when a listener is added, if a C status listener's handle is stored along
/// with it.
proof fn lemma_tracks_added(
    handles: Map<usize, Handle>,
    registrations: Seq<Registration>,
    added: Registration,
    handles_after: Map<usize, Handle>,
)
    requires
        tracks(handles, registrations),
        !ids(registrations).contains(added.id),
        match added.listener {
            Listener::Status(_) => handles_after == handles,
            Listener::Legacy(legacy) => {
                let ptr = legacy.reference().ptr;
                &&& !handles.contains_key(ptr)
                &&& handles_after == handles.insert(ptr, handles_after[ptr])
                &&& handles_after[ptr].id() == added.id
            },
        },
    ensures
        tracks(handles_after, registrations.push(added)),
{
    let after = registrations.push(added);
    assert(ids(after) =~= ids(registrations).push(added.id));
    assert forall|i: int, j: int| 0 <= i < j < ids(after).len() implies ids(after)[i] != ids(
        after,
    )[j] by {
        assert(ids(registrations).contains(ids(registrations)[i]));
    }
    assert forall|ptr: usize| #[trigger] handles_after.contains_key(ptr) implies exists|i: int|
        0 <= i < after.len() && #[trigger] after[i].listener.is_legacy(ptr) by {
        if handles.contains_key(ptr) {
            let i = choose|i: int|
                0 <= i < registrations.len() && #[trigger] registrations[i].listener.is_legacy(ptr);
            assert(after[i].listener.is_legacy(ptr));
        } else {
            assert(after[after.len() - 1].listener.is_legacy(ptr));
        }
    }
    assert forall|i: int, ptr: usize|
        0 <= i < after.len() && #[trigger] after[i].listener.is_legacy(
            ptr,
        ) implies handles_after.contains_key(ptr) && handles_after[ptr].id() == after[i].id by {
        if i < registrations.len() {
            assert(registrations[i].listener.is_legacy(ptr));
            assert(handles.contains_key(ptr));
        }
    }
}

/// Handles stay tracked when a listener is removed, if a C status listener's handle goes along with
/// it.
proof fn lemma_tracks_removed(
    handles: Map<usize, Handle>,
    registrations: Seq<Registration>,
    at: int,
    handles_after: Map<usize, Handle>,
)
    requires
        tracks(handles, registrations),
        0 <= at < registrations.len(),
        handles_after == match registrations[at].listener {
            Listener::Status(_) => handles,
            Listener::Legacy(legacy) => handles.remove(legacy.reference().ptr),
        },
    ensures
        tracks(handles_after, registrations.remove(at)),
{
    lemma_tracks(handles, registrations);
    let after = registrations.remove(at);
    assert(ids(after) =~= ids(registrations).remove(at));
    assert forall|ptr: usize| #[trigger] handles_after.contains_key(ptr) implies exists|i: int|
        0 <= i < after.len() && #[trigger] after[i].listener.is_legacy(ptr) by {
        assert(handles.contains_key(ptr));
        let i = choose|i: int|
            0 <= i < registrations.len() && #[trigger] registrations[i].listener.is_legacy(ptr);
        if i < at {
            assert(after[i].listener.is_legacy(ptr));
        } else {
            assert(after[i - 1].listener.is_legacy(ptr));
        }
    }
    assert forall|i: int, ptr: usize|
        0 <= i < after.len() && #[trigger] after[i].listener.is_legacy(
            ptr,
        ) implies handles_after.contains_key(ptr) && handles_after[ptr].id() == after[i].id by {
        let was = if i < at {
            i
        } else {
            i + 1
        };
        assert(registrations[was].listener.is_legacy(ptr));
        if let Listener::Legacy(legacy) = registrations[at].listener {
            assert(registrations[at].listener.is_legacy(legacy.reference().ptr));
        }
    }
}

/// A C status listener that was removed is not among the listeners.
pub proof fn law_removed_does_not_listen(registrations: Seq<Registration>, ptr: usize)
    requires
        no_repeats(registrations),
    ensures
        !listens(without_legacy(registrations, ptr), ptr),
{
    if listens(registrations, ptr) {
        let at = position_of(registrations, ptr);
        let after = registrations.remove(at);
        assert forall|i: int| 0 <= i < after.len() implies !(#[trigger] after[i]).listener.is_legacy(
            ptr,
        ) by {
            let was = if i < at {
                i
            } else {
                i + 1
            };
            assert(after[i] == registrations[was]);
            assert(registrations[at].listener.is_legacy(ptr));
        }
    }
}

/// Stores event listener handles so that C status listeners can subscribe to events.
#[derive(Debug)]
pub struct LegacyListenerHelper {
    handle_map: HashMap<usize, Handle>,
}

impl LegacyListenerHelper {
    /// The handles of the C status listeners that are subscribed, by the listeners' addresses.
    pub closed spec fn handles(&self) -> Map<usize, Handle> {
        self.handle_map@
    }

    /// No handles.
    pub fn new() -> (helper: LegacyListenerHelper)
        ensures
            helper.handles() == Map::<usize, Handle>::empty(),
    {
        LegacyListenerHelper { handle_map: HashMap::new() }
    }

    /// Subscribes the C status listener at `ptr` to an event source, unless there is a handle for
    /// it already, be it one of another source.
    pub fn add_listener(&mut self, ptr: usize, event_source: &mut EventSource, c: &mut CShadow)
        requires
            ptr != 0,
        ensures
            old(self).handles().contains_key(ptr) ==> {
                &&& final(self).handles() == old(self).handles()
                &&& final(event_source)@ == old(event_source)@
                &&& final(c)@ == old(c)@
            },
            !old(self).handles().contains_key(ptr) ==> {
                let added = final(event_source)@.last();
                let handle = final(self).handles()[ptr];
                &&& final(event_source)@ == old(event_source)@.push(added)
                &&& is_least_unused(ids(old(event_source)@), added.id)
                &&& added.listener matches Listener::Legacy(legacy)
                &&& legacy.reference().ptr == ptr
                &&& old(c)@.is_fresh(legacy.reference())
                &&& final(c)@ == old(c)@.taken(legacy.reference())
                &&& final(self).handles() == old(self).handles().insert(ptr, handle)
                &&& handle.id() == added.id
            },
            tracks(old(self).handles(), old(event_source)@) ==> {
                &&& tracks(final(self).handles(), final(event_source)@)
                &&& legacy_added(old(event_source)@, old(c)@, ptr, final(event_source)@, final(c)@)
            },
    {
        proof {
            if tracks(self.handles(), event_source@) {
                lemma_tracks(self.handles(), event_source@);
                assert(self.handles().contains_key(ptr) == listens(event_source@, ptr));
            }
        }
        // if it's already listening, don't add a second time
        if self.handle_map.contains_key(&ptr) {
            return;
        }
        let ghost before = event_source@;
        // the reference is taken here, and given back when the listener is let go of
        let listener = LegacyStatusListener::new(ptr, c);
        let handle = event_source.add_listener(Listener::Legacy(listener));
        self.handle_map.insert(ptr, handle);
        proof {
            assert(self.handles() =~= old(self).handles().insert(ptr, self.handles()[ptr]));
            if tracks(old(self).handles(), before) {
                lemma_tracks_added(
                    old(self).handles(),
                    before,
                    event_source@.last(),
                    self.handles(),
                );
            }
        }
    }

    /// Ends the subscription of the C status listener at `ptr` to an event source, if there is a
    /// handle for it. In another source than the handle's, nothing changes.
    pub fn remove_listener(&mut self, ptr: usize, event_source: &mut EventSource, c: &mut CShadow)
        requires
            ptr != 0,
        ensures
            final(self).handles() == old(self).handles().remove(ptr),
            ({
                let id = old(self).handles()[ptr].id();
                let at = ids(old(event_source)@).index_of(id);
                if old(self).handles().contains_key(ptr) && is_legacy_at(
                    old(event_source)@,
                    id,
                    ptr,
                ) {
                    &&& final(event_source)@ == old(event_source)@.remove(at)
                    &&& final(c)@ == old(event_source)@[at].listener.released(old(c)@)
                } else {
                    &&& final(event_source)@ == old(event_source)@
                    &&& final(c)@ == old(c)@
                }
            }),
            tracks(old(self).handles(), old(event_source)@) ==> {
                &&& tracks(final(self).handles(), final(event_source)@)
                &&& final(event_source)@ == without_legacy(old(event_source)@, ptr)
                &&& final(c)@ == legacy_released(old(event_source)@, ptr, old(c)@)
            },
    {
        let ghost before = event_source@;
        let ghost handles = self.handles();
        proof {
            if tracks(handles, before) {
                lemma_tracks(handles, before);
                assert(handles.contains_key(ptr) == listens(before, ptr));
            }
        }
        let handle = match self.handle_map.remove(&ptr) {
            Some(handle) => handle,
            None => {
                proof {
                    assert(self.handles() =~= handles);
                    assert(handles.remove(ptr) =~= handles);
                }
                return;
            },
        };
        proof {
            assert(self.handles() =~= handles.remove(ptr));
            if tracks(handles, before) {
                let at = position_of(before, ptr);
                assert(before[at].listener.is_legacy(ptr));
                assert(ids(before)[at] == handle.id());
                assert(ids(before).contains(handle.id()));
                assert(ids(before).index_of(handle.id()) == at);
                lemma_tracks_removed(handles, before, at, self.handles());
            }
        }
        let is_here = match event_source.get(&handle) {
            Some(Listener::Legacy(legacy)) => legacy.ptr() == ptr,
            _ => false,
        };
        if is_here {
            if let Some(listener) = event_source.remove_listener(handle) {
                listener.release(c);
            }
        }
    }
}

/// An event source that passes a status and the changed bits to its listeners, but to one that has
/// a filter only if the monitored bits have changed and the filter is satisfied.
#[derive(Debug)]
pub struct StatusEventSource {
    inner: EventSource,
    legacy_helper: LegacyListenerHelper,
}

impl View for StatusEventSource {
    type V = Seq<Registration>;

    closed spec fn view(&self) -> Seq<Registration> {
        self.inner@
    }
}

impl StatusEventSource {
    #[verifier::type_invariant]
    spec fn well_formed(self) -> bool {
        tracks(self.legacy_helper.handles(), self.inner@)
    }

    /// A source without listeners.
    pub fn new() -> (source: StatusEventSource)
        ensures
            source@ == Seq::<Registration>::empty(),
            no_repeats(source@),
    {
        StatusEventSource { inner: EventSource::new(), legacy_helper: LegacyListenerHelper::new() }
    }

    /// Puts a function at the end of the list of listeners. It is called for the changes that the
    /// monitored bits and the filter pick.
    pub fn add_listener(
        &mut self,
        monitoring: FileStatus,
        filter: NewStatusListenerFilter,
        notify_fn: NotifyFn,
    ) -> (handle: Handle)
        ensures
            is_least_unused(ids(old(self)@), handle.id()),
            final(self)@ == old(self)@.push(
                (Registration {
                    id: handle.id(),
                    listener: Listener::Status(StatusListener { monitoring, filter, notify_fn }),
                }),
            ),
            no_repeats(final(self)@),
    {
        let mut source = StatusEventSource::new();
        core::mem::swap(self, &mut source);
        proof {
            use_type_invariant(&source);
        }
        let StatusEventSource { mut inner, legacy_helper } = source;
        let ghost before = inner@;
        let handle = inner.add_listener(
            Listener::Status(StatusListener { monitoring, filter, notify_fn }),
        );
        proof {
            lemma_tracks_added(
                legacy_helper.handles(),
                before,
                inner@.last(),
                legacy_helper.handles(),
            );
            lemma_tracks(legacy_helper.handles(), inner@);
        }
        *self = StatusEventSource { inner, legacy_helper };
        handle
    }

    /// Subscribes the C status listener at `ptr`, which must not be null, unless it already is.
    pub fn add_legacy_listener(&mut self, ptr: usize, c: &mut CShadow)
        requires
            ptr != 0,
        ensures
            legacy_added(old(self)@, old(c)@, ptr, final(self)@, final(c)@),
            no_repeats(final(self)@),
    {
        let mut source = StatusEventSource::new();
        core::mem::swap(self, &mut source);
        proof {
            use_type_invariant(&source);
        }
        let StatusEventSource { mut inner, mut legacy_helper } = source;
        legacy_helper.add_listener(ptr, &mut inner, c);
        proof {
            lemma_tracks(legacy_helper.handles(), inner@);
        }
        *self = StatusEventSource { inner, legacy_helper };
    }

    /// Ends the subscription of the C status listener at `ptr`, which must not be null. Nothing
    /// happens if it is not subscribed.
    pub fn remove_legacy_listener(&mut self, ptr: usize, c: &mut CShadow)
        requires
            ptr != 0,
        ensures
            final(self)@ == without_legacy(old(self)@, ptr),
            final(c)@ == legacy_released(old(self)@, ptr, old(c)@),
            !listens(final(self)@, ptr),
            no_repeats(final(self)@),
    {
        let mut source = StatusEventSource::new();
        core::mem::swap(self, &mut source);
        proof {
            use_type_invariant(&source);
            lemma_tracks(source.legacy_helper.handles(), source.inner@);
            law_removed_does_not_listen(source.inner@, ptr);
        }
        let StatusEventSource { mut inner, mut legacy_helper } = source;
        legacy_helper.remove_listener(ptr, &mut inner, c);
        proof {
            lemma_tracks(legacy_helper.handles(), inner@);
        }
        *self = StatusEventSource { inner, legacy_helper };
    }

    /// Takes the function that a handle belongs to out of the list of listeners, and says whether
    /// there was one. Events that are already queued for it stay in their queue.
    pub fn remove_listener(&mut self, handle: Handle) -> (removed: bool)
        ensures
            ({
                let at = ids(old(self)@).index_of(handle.id());
                if ids(old(self)@).contains(handle.id()) && old(self)@[at].listener is Status {
                    removed && final(self)@ == old(self)@.remove(at)
                } else {
                    !removed && final(self)@ == old(self)@
                }
            }),
            no_repeats(final(self)@),
    {
        let mut source = StatusEventSource::new();
        core::mem::swap(self, &mut source);
        proof {
            use_type_invariant(&source);
            lemma_tracks(source.legacy_helper.handles(), source.inner@);
        }
        let StatusEventSource { mut inner, legacy_helper } = source;
        let ghost before = inner@;
        let ghost at = ids(before).index_of(handle.id());
        let is_function = match inner.get(&handle) {
            Some(Listener::Status(_)) => true,
            _ => false,
        };
        if is_function {
            let _ = inner.remove_listener(handle);
            proof {
                lemma_tracks_removed(legacy_helper.handles(), before, at, legacy_helper.handles());
                lemma_tracks(legacy_helper.handles(), inner@);
            }
        }
        *self = StatusEventSource { inner, legacy_helper };
        is_function
    }

    /// Queues an event for each listener, in the order in which they were added. Since no C status
    /// listener is there twice, each gets one event.
    pub fn notify_listeners(
        &mut self,
        status: FileStatus,
        changed: FileStatus,
        event_queue: &mut EventQueue,
        c: &mut CShadow,
    )
        ensures
            *final(self) == *old(self),
            no_repeats(final(self)@),
            final(event_queue)@ == old(event_queue)@ + events_for(old(self)@, status, changed),
            final(c)@ == all_shared(old(self)@, old(c)@),
            final(event_queue)@.len() == old(event_queue)@.len() + old(self)@.len(),
            forall|i: int|
                0 <= i < old(event_queue)@.len() ==> #[trigger] final(event_queue)@[i] == old(
                    event_queue,
                )@[i],
            forall|i: int|
                0 <= i < old(self)@.len() ==> {
                    let event = #[trigger] final(event_queue)@[old(event_queue)@.len() + i];
                    &&& event.listener == old(self)@[i].listener
                    &&& event.status == status
                    &&& event.changed == changed
                },
            final(c)@.pending == old(c)@.pending,
            final(c)@.issued == old(c)@.issued,
    {
        proof {
            use_type_invariant(&*self);
            lemma_tracks(self.legacy_helper.handles(), self.inner@);
        }
        self.inner.notify_listeners(status, changed, event_queue, c)
    }

    /// Lets go of all listeners, in the order in which they were added.
    pub fn release(self, c: &mut CShadow)
        ensures
            final(c)@ == all_released(self@, old(c)@),
    {
        let StatusEventSource { inner, legacy_helper: _ } = self;
        inner.release(c)
    }

    /// Lets go of all listeners, in the order in which they were added, for a source that is about
    /// to go away and cannot be taken apart.
    pub(crate) fn give_back(&self, c: &mut CShadow)
        ensures
            final(c)@ == all_released(self@, old(c)@),
    {
        self.inner.give_back(c)
    }
}

} // verus!
