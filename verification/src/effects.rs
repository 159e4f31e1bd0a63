//! What the operations come to: which bits decide, which calls are made, which events are queued,
//! and what stays as it was.

use crate::cshadow::law_references_after_call;
use crate::cshadow::CCall;
use crate::cshadow::CModel;
use crate::cshadow::ListenerRef;
use crate::descriptor::closed_through;
use crate::descriptor::closes_file;
use crate::descriptor::only_dropped;
use crate::descriptor::open_descriptors_of;
use crate::descriptor::CompatDescriptor;
use crate::event_queue::all_released;
use crate::event_queue::all_shared;
use crate::event_queue::events_for;
use crate::event_queue::ids;
use crate::event_queue::Event;
use crate::event_queue::Handle;
use crate::event_queue::Registration;
use crate::file::file_gone;
use crate::file::goes_away;
use crate::file::let_go;
use crate::file::pointer_gone;
use crate::file::PosixFile;
use crate::file::PosixFileRef;
use crate::file::PosixFileRefMut;
use crate::flags::FileStatus;
use crate::flags::Status;
use crate::ids::is_least_unused;
use crate::laws::law_closed_status;
use crate::laws::registered;
use crate::listener::Listener;
use crate::listener::NewStatusListenerFilter;
use crate::listener::Notification;
use crate::listener::StatusListener;
use crate::pipe::changed_bits;
use crate::pipe::masked;
use crate::pipe::PipeModel;
use crate::shared::borrow_refused;
use crate::shared::pointed_to;
use crate::shared::ref_cell;
use crate::shared::ref_contents;
use crate::shared::ref_mut_cell;
use crate::shared::ref_mut_contents;
use crate::status_source::is_legacy_at;
use crate::status_source::legacy_added;
use crate::status_source::legacy_released;
use crate::status_source::listens;
use crate::status_source::no_repeats;
use crate::status_source::position_of;
use crate::status_source::tracks;
use crate::status_source::without_legacy;
use vstd::multiset::*;
use vstd::prelude::*;

verus! {

/// Two sets of status bits have a flag in common if and only if they have a bit in common.
pub proof fn law_meets(a: FileStatus, b: FileStatus)
    ensures
        a.meets(b) <==> a.value() & b.value() != 0,
        a.meets(b) <==> b.meets(a),
{
    let x = a.value();
    let y = b.value();
    assert(x & y == y & x) by (bit_vector);
}

/// Whenever a monitored bit has changed, a listener for all changes is told, and of the listeners
/// for one direction the one for bits that went on is told if a monitored bit is on, and the one
/// for bits that went off if none is. A listener for no changes is never told. Without a change of
/// a monitored bit nobody is told.
pub proof fn law_filters_decide_by_bits(
    listener: StatusListener,
    status: FileStatus,
    changed: FileStatus,
)
    ensures
        listener.monitoring.value() & changed.value() == 0 ==> listener.notification(
            status,
            changed,
        ) is None,
        listener.filter is Never ==> listener.notification(status, changed) is None,
        listener.monitoring.value() & changed.value() != 0 && listener.filter is Always
            ==> listener.notification(status, changed) is Some,
        listener.monitoring.value() & changed.value() != 0 && listener.filter is OffToOn ==> (
        listener.notification(status, changed) is Some <==> listener.monitoring.value()
            & status.value() != 0),
        listener.monitoring.value() & changed.value() != 0 && listener.filter is OnToOff ==> (
        listener.notification(status, changed) is Some <==> listener.monitoring.value()
            & status.value() == 0),
{
}

/// A listener that is told gets the status and the changed bits as they are.
pub proof fn law_notification_is_what_happened(
    listener: StatusListener,
    status: FileStatus,
    changed: FileStatus,
)
    ensures
        listener.notification(status, changed) matches Some(notification) ==> {
            &&& notification.notify_fn == listener.notify_fn
            &&& notification.status.value() == status.value()
            &&& notification.changed.value() == changed.value()
            &&& notification.status == status
            &&& notification.changed == changed
        },
        listener.notifies(status, changed) <==> listener.notification(status, changed) is Some,
{
}

/// One monitored bit that has changed is enough: which other bits are monitored, are on or have
/// changed as well does not keep a listener for all changes from being told.
pub proof fn law_one_changed_bit_is_enough(
    listener: StatusListener,
    status: FileStatus,
    changed: FileStatus,
    bit: Status,
)
    requires
        bit != 0,
        listener.monitoring.value() & bit == bit,
        changed.value() & bit == bit,
        listener.filter is Always || listener.filter is OffToOn && status.value() & bit == bit,
    ensures
        listener.notification(status, changed) is Some,
{
    let monitored = listener.monitoring.value();
    let flipped = changed.value();
    let on = status.value();
    assert(monitored & flipped != 0) by (bit_vector)
        requires
            bit != 0,
            monitored & bit == bit,
            flipped & bit == bit,
    ;
    if listener.filter is OffToOn {
        assert(monitored & on != 0) by (bit_vector)
            requires
                bit != 0,
                monitored & bit == bit,
                on & bit == bit,
        ;
    }
}

/// A notification queues one event for each listener, of either kind and in order, and the event
/// has exactly the status and the changed bits that the notification was given.
pub proof fn law_event_is_what_happened(
    registrations: Seq<Registration>,
    status: FileStatus,
    changed: FileStatus,
    i: int,
)
    requires
        0 <= i < registrations.len(),
    ensures
        events_for(registrations, status, changed).len() == registrations.len(),
        events_for(registrations, status, changed)[i].listener == registrations[i].listener,
        events_for(registrations, status, changed)[i].status == status,
        events_for(registrations, status, changed)[i].changed == changed,
        events_for(registrations, status, changed)[i].status.value() == status.value(),
        events_for(registrations, status, changed)[i].changed.value() == changed.value(),
{
}

/// What a function is told when the event that was queued for it runs is what it would have been
/// told on the spot, and nothing is called on the C side.
pub proof fn law_queued_function_is_told(
    registrations: Seq<Registration>,
    status: FileStatus,
    changed: FileStatus,
    i: int,
    c: CModel,
)
    requires
        0 <= i < registrations.len(),
        registrations[i].listener is Status,
    ensures
        ({
            let event = events_for(registrations, status, changed)[i];
            let listener = registrations[i].listener->Status_0;
            let monitored = listener.monitoring.value();
            &&& event.told(c) == c
            &&& event.notification() is Some <==> monitored & changed.value() != 0
                && match listener.filter {
                NewStatusListenerFilter::Never => false,
                NewStatusListenerFilter::OffToOn => monitored & status.value() != 0,
                NewStatusListenerFilter::OnToOff => monitored & status.value() == 0,
                NewStatusListenerFilter::Always => true,
            }
            &&& event.notification() is Some ==> event.notification() == Some(
                Notification { notify_fn: listener.notify_fn, status, changed },
            )
        }),
{
}

/// When an event that was queued for a C status listener runs, that listener is called once, with
/// the bits of the status and of the change, after all calls that were asked for before.
pub proof fn law_queued_c_listener_is_told(
    registrations: Seq<Registration>,
    status: FileStatus,
    changed: FileStatus,
    i: int,
    ptr: usize,
    c: CModel,
)
    requires
        0 <= i < registrations.len(),
        registrations[i].listener is Legacy,
        registrations[i].listener->Legacy_0.reference().ptr == ptr,
    ensures
        ({
            let event = events_for(registrations, status, changed)[i];
            &&& event.notification() is None
            &&& event.told(c).pending == c.pending.push(
                CCall::StatusListenerOnStatusChanged {
                    ptr,
                    status: status.value(),
                    changed: changed.value(),
                },
            )
            &&& event.told(c).issued == c.issued
            &&& event.told(c).holders == c.holders
        }),
{
}

/// A call that is asked for is put, as it is, after all calls that were asked for before. Nothing
/// else changes.
pub proof fn law_call_is_put_last(c: CModel, call: CCall)
    ensures
        c.called(call).pending == c.pending.push(call),
        c.called(call).pending.last() == call,
        c.called(call).issued == c.issued,
        c.called(call).holders == c.holders,
        c.called(call).history() == (c.issued + c.pending).push(call),
{
    assert(c.called(call).history() =~= (c.issued + c.pending).push(call));
}

/// There is nothing in a C side to which nothing has happened.
pub proof fn law_nothing_happened(ptr: usize)
    ensures
        CModel::empty().issued.len() == 0,
        CModel::empty().pending.len() == 0,
        CModel::empty().holders.len() == 0,
        CModel::empty().references(ptr) == 0,
{
    broadcast use vstd::seq_lib::group_to_multiset_ensures;

    let history = CModel::empty().history();
    assert(history =~= Seq::empty());
    assert(history.to_multiset().len() == 0);
}

/// A reference that is taken gets its first holder, and the listener at its address is referenced
/// by a call.
pub proof fn law_taken(c: CModel, reference: ListenerRef)
    ensures
        c.taken(reference).pending == c.pending.push(
            CCall::StatusListenerRef { ptr: reference.ptr },
        ),
        c.taken(reference).issued == c.issued,
        c.taken(reference).holders == c.holders.insert(reference),
{
}

/// A reference that is shared has one more holder, if it had one, and no call is made.
pub proof fn law_shared(c: CModel, reference: ListenerRef, other: ListenerRef)
    ensures
        c.shared(reference).pending == c.pending,
        c.shared(reference).issued == c.issued,
        c.shared(reference).holders.count(other) == c.holders.count(other) + if other == reference
            && c.holders.count(reference) > 0 {
            1nat
        } else {
            0
        },
{
}

/// A reference that is let go of has one holder less, if it had one. The listener at its address is
/// unreferenced by a call if and only if that was the only one.
pub proof fn law_released(c: CModel, reference: ListenerRef, other: ListenerRef)
    ensures
        c.released(reference).issued == c.issued,
        c.released(reference).pending == if c.holders.count(reference) == 1 {
            c.pending.push(CCall::StatusListenerUnref { ptr: reference.ptr })
        } else {
            c.pending
        },
        other != reference ==> c.released(reference).holders.count(other) == c.holders.count(other),
        c.holders.count(reference) > 0 ==> c.released(reference).holders.count(reference)
            == c.holders.count(reference) - 1,
        c.holders.count(reference) == 0 ==> c.released(reference).holders.count(reference) == 0,
{
}

/// What was taken and let go of is as it was, but for the two calls.
pub proof fn law_released_undoes_taken(c: CModel, reference: ListenerRef)
    requires
        c.holders.count(reference) == 0,
    ensures
        c.taken(reference).released(reference).holders == c.holders,
        c.taken(reference).released(reference).pending == c.pending.push(
            CCall::StatusListenerRef { ptr: reference.ptr },
        ).push(CCall::StatusListenerUnref { ptr: reference.ptr }),
{
    assert(c.taken(reference).released(reference).holders =~= c.holders);
}

/// The references to a listener that have a holder, whether one has a holder, and whether its
/// identifier is free, are a matter of the holders alone.
pub proof fn law_held_references(c: CModel, ptr: usize, reference: ListenerRef)
    ensures
        c.held(reference) <==> c.holders.count(reference) > 0,
        c.live(ptr).contains(reference) <==> c.holders.count(reference) > 0 && reference.ptr == ptr,
        c.is_fresh(reference) <==> forall|other: ListenerRef|
            #![trigger c.holders.count(other)]
            c.holders.count(other) > 0 ==> other.id != reference.id,
        c.balanced() ==> c.references(ptr) == c.live(ptr).len(),
{
    assert(forall|other: ListenerRef|
        #![trigger c.holders.count(other)]
        c.holders.count(other) > 0 <==> c.held(other));
}

/// How often a listener is referenced more than unreferenced goes by all calls to it, those that
/// were made and those that are yet to be made.
pub proof fn law_references_count_calls(
    before: CModel,
    after: CModel,
    call: CCall,
    ptr: usize,
)
    requires
        after.issued + after.pending == (before.issued + before.pending).push(call),
    ensures
        after.references(ptr) == before.references(ptr) + match call {
            CCall::StatusListenerRef { ptr: at } => if at == ptr {
                1int
            } else {
                0
            },
            CCall::StatusListenerUnref { ptr: at } => if at == ptr {
                -1int
            } else {
                0
            },
            _ => 0,
        },
{
    law_references_after_call(before, call, ptr);
    assert(before.called(call).history() =~= after.history());
}

/// The calls that count references are those that reference and those that unreference.
pub proof fn law_counting_calls(call: CCall)
    ensures
        call.counts_listener() <==> match call {
            CCall::StatusListenerRef { .. } | CCall::StatusListenerUnref { .. } => true,
            CCall::StatusListenerOnStatusChanged { .. }
            | CCall::DescriptorUnref { .. }
            | CCall::DescriptorSetHandle { .. } => false,
        },
{
}

/// A function has no references on the C side, and a C status listener is shared and let go of as
/// its reference is.
pub proof fn law_listener_is_its_reference(listener: Listener, c: CModel, ptr: usize)
    ensures
        listener is Status ==> listener.shared(c) == c && listener.released(c) == c
            && !listener.is_legacy(ptr),
        listener matches Listener::Legacy(legacy) ==> {
            &&& listener.shared(c) == c.shared(legacy.reference())
            &&& listener.released(c) == c.released(legacy.reference())
            &&& listener.is_legacy(ptr) <==> legacy.reference().ptr == ptr
        },
{
}

/// To queue events shares each listener once, in order, and to let go of listeners lets go of each
/// once, in order.
pub proof fn law_each_listener_in_order(
    registrations: Seq<Registration>,
    last: Registration,
    c: CModel,
)
    ensures
        all_shared(Seq::empty(), c) == c,
        all_released(Seq::empty(), c) == c,
        all_shared(registrations.push(last), c) == last.listener.shared(
            all_shared(registrations, c),
        ),
        all_released(registrations.push(last), c) == last.listener.released(
            all_released(registrations, c),
        ),
{
    assert(registrations.push(last).drop_last() =~= registrations);
}

/// To queue events makes no calls, and every reference that has a holder gets one more for each
/// listener that has it. No other reference gets any.
pub proof fn law_events_share_references(
    registrations: Seq<Registration>,
    c: CModel,
    reference: ListenerRef,
)
    ensures
        all_shared(registrations, c).pending == c.pending,
        all_shared(registrations, c).issued == c.issued,
        c.holders.count(reference) > 0 ==> all_shared(registrations, c).holders.count(reference)
            == c.holders.count(reference) + registered(registrations).count(reference),
        c.holders.count(reference) == 0 ==> all_shared(registrations, c).holders.count(reference)
            == 0,
    decreases registrations.len(),
{
    let listeners = registrations.map_values(|r: Registration| r.listener);
    if registrations.len() > 0 {
        let front = registrations.drop_last();
        law_events_share_references(front, c, reference);
        assert(front.map_values(|r: Registration| r.listener) =~= listeners.drop_last());
        assert(listeners.last() == registrations.last().listener);
    } else {
        assert(listeners.len() == 0);
    }
}

/// When all listeners of a file are let go of, every reference has as many holders less as there
/// were listeners that had it.
pub proof fn law_released_listeners_give_references_up(
    registrations: Seq<Registration>,
    c: CModel,
    reference: ListenerRef,
)
    ensures
        all_released(registrations, c).issued == c.issued,
        all_released(registrations, c).pending.len() >= c.pending.len(),
        all_released(registrations, c).pending.take(c.pending.len() as int) == c.pending,
        all_released(registrations, c).holders.count(reference) == if c.holders.count(reference)
            >= registered(registrations).count(reference) {
            (c.holders.count(reference) - registered(registrations).count(reference)) as nat
        } else {
            0
        },
    decreases registrations.len(),
{
    let listeners = registrations.map_values(|r: Registration| r.listener);
    if registrations.len() > 0 {
        let front = registrations.drop_last();
        law_released_listeners_give_references_up(front, c, reference);
        assert(front.map_values(|r: Registration| r.listener) =~= listeners.drop_last());
        assert(listeners.last() == registrations.last().listener);
        let before = all_released(front, c);
        let after = all_released(registrations, c);
        assert(after.pending.take(before.pending.len() as int) =~= before.pending);
        assert(after.pending.take(c.pending.len() as int) =~= before.pending.take(
            c.pending.len() as int,
        ));
    } else {
        assert(listeners.len() == 0);
        assert(c.pending.take(c.pending.len() as int) =~= c.pending);
    }
}

/// The identifiers of listeners are those of each of them, in order, and one that is new is the
/// least that none of them has.
pub proof fn law_identifiers(registrations: Seq<Registration>, i: int, id: u64, smaller: u64)
    ensures
        ids(registrations).len() == registrations.len(),
        0 <= i < registrations.len() ==> ids(registrations)[i] == registrations[i].id,
        is_least_unused(ids(registrations), id) ==> {
            &&& forall|j: int| 0 <= j < registrations.len() ==> (#[trigger] registrations[j]).id != id
            &&& smaller < id ==> exists|j: int|
                0 <= j < registrations.len() && (#[trigger] registrations[j]).id == smaller
        },
{
    if is_least_unused(ids(registrations), id) {
        assert forall|j: int| 0 <= j < registrations.len() implies (#[trigger] registrations[j]).id
            != id by {
            assert(ids(registrations)[j] == registrations[j].id);
        }
        if smaller < id {
            assert(ids(registrations).contains(smaller));
            let j = choose|j: int|
                0 <= j < ids(registrations).len() && ids(registrations)[j] == smaller;
            assert(registrations[j].id == smaller);
        }
    }
}

/// A C status listener is among the listeners if and only if one of them has a reference to its
/// address, and then it is found there.
pub proof fn law_listening(registrations: Seq<Registration>, ptr: usize)
    ensures
        listens(registrations, ptr) <==> exists|i: int|
            0 <= i < registrations.len() && (#[trigger] registrations[i]).listener is Legacy
                && registrations[i].listener->Legacy_0.reference().ptr == ptr,
        listens(registrations, ptr) ==> {
            let at = position_of(registrations, ptr);
            &&& 0 <= at < registrations.len()
            &&& registrations[at].listener is Legacy
            &&& registrations[at].listener->Legacy_0.reference().ptr == ptr
        },
{
    if exists|i: int|
        0 <= i < registrations.len() && (#[trigger] registrations[i]).listener is Legacy
            && registrations[i].listener->Legacy_0.reference().ptr == ptr {
        let i = choose|i: int|
            0 <= i < registrations.len() && (#[trigger] registrations[i]).listener is Legacy
                && registrations[i].listener->Legacy_0.reference().ptr == ptr;
        assert(registrations[i].listener.is_legacy(ptr));
    }
    if listens(registrations, ptr) {
        let at = position_of(registrations, ptr);
        assert(registrations[at].listener.is_legacy(ptr));
    }
}

/// That listeners are without repeats means that any two of them have different handles, and that
/// any two C status listeners among them have different addresses.
pub proof fn law_no_repeats(registrations: Seq<Registration>)
    ensures
        no_repeats(registrations) <==> forall|i: int, j: int|
            0 <= i < j < registrations.len() ==> {
                &&& (#[trigger] registrations[i]).id != (#[trigger] registrations[j]).id
                &&& registrations[i].listener is Legacy && registrations[j].listener is Legacy
                    ==> registrations[i].listener->Legacy_0.reference().ptr
                    != registrations[j].listener->Legacy_0.reference().ptr
            },
{
    if no_repeats(registrations) {
        assert forall|i: int, j: int| 0 <= i < j < registrations.len() implies {
            &&& (#[trigger] registrations[i]).id != (#[trigger] registrations[j]).id
            &&& registrations[i].listener is Legacy && registrations[j].listener is Legacy
                ==> registrations[i].listener->Legacy_0.reference().ptr
                != registrations[j].listener->Legacy_0.reference().ptr
        } by {
            assert(ids(registrations)[i] != ids(registrations)[j]);
            if registrations[i].listener is Legacy && registrations[j].listener is Legacy {
                let ptr = registrations[i].listener->Legacy_0.reference().ptr;
                assert(registrations[i].listener.is_legacy(ptr));
                if registrations[j].listener->Legacy_0.reference().ptr == ptr {
                    assert(registrations[j].listener.is_legacy(ptr));
                }
            }
        }
    }
}

/// A C status listener that is added and was not there is put at the end with a new handle, and a
/// reference to its address is taken that nothing else has. One that was there stays where it is,
/// and nothing is called.
pub proof fn law_added(
    registrations: Seq<Registration>,
    c: CModel,
    ptr: usize,
    registrations_after: Seq<Registration>,
    c_after: CModel,
)
    requires
        legacy_added(registrations, c, ptr, registrations_after, c_after),
    ensures
        listens(registrations, ptr) ==> registrations_after == registrations && c_after == c,
        !listens(registrations, ptr) ==> {
            let added = registrations_after.last();
            &&& registrations_after.len() == registrations.len() + 1
            &&& forall|i: int|
                0 <= i < registrations.len() ==> #[trigger] registrations_after[i]
                    == registrations[i]
            &&& forall|i: int| 0 <= i < registrations.len() ==> (#[trigger] registrations[i]).id
                != added.id
            &&& added.listener is Legacy
            &&& added.listener->Legacy_0.reference().ptr == ptr
            &&& c.holders.count(added.listener->Legacy_0.reference()) == 0
            &&& c_after.holders == c.holders.insert(added.listener->Legacy_0.reference())
            &&& c_after.pending == c.pending.push(CCall::StatusListenerRef { ptr })
            &&& c_after.issued == c.issued
        },
        exists|i: int|
            0 <= i < registrations_after.len() && (
            #[trigger] registrations_after[i]).listener is Legacy
                && registrations_after[i].listener->Legacy_0.reference().ptr == ptr,
{
    if listens(registrations, ptr) {
        law_listening(registrations, ptr);
    } else {
        let added = registrations_after.last();
        law_identifiers(registrations, 0, added.id, 0);
        assert(!c.held(added.listener->Legacy_0.reference()));
        assert(registrations_after[registrations_after.len() - 1] == added);
    }
}

/// A C status listener that is removed is taken out from where it was, the others stay in order,
/// and its reference is let go of. If it was not there, nothing happens.
pub proof fn law_removed(registrations: Seq<Registration>, c: CModel, ptr: usize, at: int)
    requires
        no_repeats(registrations),
    ensures
        !listens(registrations, ptr) ==> without_legacy(registrations, ptr) == registrations
            && legacy_released(registrations, ptr, c) == c,
        0 <= at < registrations.len() && registrations[at].listener is Legacy
            && registrations[at].listener->Legacy_0.reference().ptr == ptr ==> {
            let reference = registrations[at].listener->Legacy_0.reference();
            let after = without_legacy(registrations, ptr);
            &&& after.len() == registrations.len() - 1
            &&& forall|i: int| 0 <= i < at ==> #[trigger] after[i] == registrations[i]
            &&& forall|i: int| at <= i < after.len() ==> #[trigger] after[i] == registrations[i + 1]
            &&& legacy_released(registrations, ptr, c) == c.released(reference)
        },
{
    if 0 <= at < registrations.len() && registrations[at].listener is Legacy
        && registrations[at].listener->Legacy_0.reference().ptr == ptr {
        assert(registrations[at].listener.is_legacy(ptr));
        assert(listens(registrations, ptr));
        let found = position_of(registrations, ptr);
        assert(registrations[found].listener.is_legacy(ptr));
        assert(found == at);
    }
}

/// Handles are tracked if and only if no two listeners have the same one, each C status listener
/// has its handle stored under its address, and nothing else is stored.
pub proof fn law_tracking(handles: Map<usize, Handle>, registrations: Seq<Registration>)
    ensures
        tracks(handles, registrations) <==> {
            &&& forall|i: int, j: int|
                0 <= i < j < registrations.len() ==> (#[trigger] registrations[i]).id != (
                #[trigger] registrations[j]).id
            &&& forall|i: int|
                0 <= i < registrations.len() && (#[trigger] registrations[i]).listener is Legacy
                    ==> {
                    let ptr = registrations[i].listener->Legacy_0.reference().ptr;
                    handles.contains_key(ptr) && handles[ptr].id() == registrations[i].id
                }
            &&& forall|ptr: usize| #[trigger]
                handles.contains_key(ptr) ==> exists|i: int|
                    0 <= i < registrations.len() && (#[trigger] registrations[i]).listener is Legacy
                        && registrations[i].listener->Legacy_0.reference().ptr == ptr
        },
{
    let distinct = forall|i: int, j: int|
        0 <= i < j < registrations.len() ==> (#[trigger] registrations[i]).id != (
        #[trigger] registrations[j]).id;
    let stored = forall|i: int|
        0 <= i < registrations.len() && (#[trigger] registrations[i]).listener is Legacy ==> {
            let ptr = registrations[i].listener->Legacy_0.reference().ptr;
            handles.contains_key(ptr) && handles[ptr].id() == registrations[i].id
        };
    let nothing_else = forall|ptr: usize| #[trigger]
        handles.contains_key(ptr) ==> exists|i: int|
            0 <= i < registrations.len() && (#[trigger] registrations[i]).listener is Legacy
                && registrations[i].listener->Legacy_0.reference().ptr == ptr;
    if tracks(handles, registrations) {
        assert forall|i: int, j: int| 0 <= i < j < registrations.len() implies (
        #[trigger] registrations[i]).id != (#[trigger] registrations[j]).id by {
            assert(ids(registrations)[i] != ids(registrations)[j]);
        }
        assert forall|i: int|
            0 <= i < registrations.len() && (#[trigger] registrations[i]).listener is Legacy implies {
            let ptr = registrations[i].listener->Legacy_0.reference().ptr;
            handles.contains_key(ptr) && handles[ptr].id() == registrations[i].id
        } by {
            let ptr = registrations[i].listener->Legacy_0.reference().ptr;
            assert(registrations[i].listener.is_legacy(ptr));
        }
        assert forall|ptr: usize| #[trigger] handles.contains_key(ptr) implies exists|i: int|
            0 <= i < registrations.len() && (#[trigger] registrations[i]).listener is Legacy
                && registrations[i].listener->Legacy_0.reference().ptr == ptr by {
            let i = choose|i: int|
                0 <= i < registrations.len() && #[trigger] registrations[i].listener.is_legacy(ptr);
            assert(registrations[i].listener is Legacy);
        }
    }
    if distinct && stored && nothing_else {
        assert forall|ptr: usize| #[trigger] handles.contains_key(ptr) implies exists|i: int|
            0 <= i < registrations.len() && #[trigger] registrations[i].listener.is_legacy(ptr) by {
            let i = choose|i: int|
                0 <= i < registrations.len() && (#[trigger] registrations[i]).listener is Legacy
                    && registrations[i].listener->Legacy_0.reference().ptr == ptr;
            assert(registrations[i].listener.is_legacy(ptr));
        }
    }
}

/// A handle leads to the C status listener at an address if and only if the listener with that
/// handle is that one.
pub proof fn law_handle_leads_to_listener(
    registrations: Seq<Registration>,
    id: u64,
    ptr: usize,
    i: int,
)
    requires
        no_repeats(registrations),
        0 <= i < registrations.len(),
        registrations[i].id == id,
    ensures
        is_legacy_at(registrations, id, ptr) <==> registrations[i].listener is Legacy
            && registrations[i].listener->Legacy_0.reference().ptr == ptr,
{
    assert(ids(registrations)[i] == id);
    assert(ids(registrations).contains(id));
    assert(ids(registrations).index_of(id) == i);
}

/// The bits of a status that a mask leaves out stay, the others become new ones, and what has
/// changed are the bits that differ.
pub proof fn law_masked(before: FileStatus, mask: Status, new: Status, bit: Status)
    ensures
        mask & bit == 0 ==> masked(before, mask, new).value() & bit == before.value() & bit,
        mask & bit == bit ==> masked(before, mask, new).value() & bit == new & bit,
        changed_bits(before, masked(before, mask, new)).value() & bit == (masked(
            before,
            mask,
            new,
        ).value() & bit) ^ (before.value() & bit),
{
    broadcast use FileStatus::lemma_of_value;

    let old_bits = before.value();
    let new_bits = (old_bits & !mask) | (new & mask);
    assert(mask & bit == 0 ==> new_bits & bit == old_bits & bit) by (bit_vector)
        requires
            new_bits == (old_bits & !mask) | (new & mask),
    ;
    assert(mask & bit == bit ==> new_bits & bit == new & bit) by (bit_vector)
        requires
            new_bits == (old_bits & !mask) | (new & mask),
    ;
    assert((new_bits ^ old_bits) & bit == (new_bits & bit) ^ (old_bits & bit)) by (bit_vector);
}

/// A closed file is as it was but for its status, of which only the bit for a woken futex is kept.
pub proof fn law_closed_file(file: PipeModel)
    ensures
        file.closed().mode == file.mode,
        file.closed().flags == file.flags,
        file.closed().listeners == file.listeners,
        file.closed().status == file.closed_status(),
        file.closed_status().value() & 0b1111 == 0b1000,
        file.closed_status().value() & 0b1_0000 == file.status.value() & 0b1_0000,
{
    law_closed_status(file);
    let bits = file.closed_status().value();
    assert(bits & 0b1111 == 0b1000) by (bit_vector)
        requires
            bits & 8 != 0,
            bits & 1 == 0,
            bits & 2 == 0,
            bits & 4 == 0,
    ;
}

/// A change of a file's status queues, for each listener in order, one event with the new status
/// and the bits in which it differs from the old one, and shares the listeners. If the status stays
/// the same, nothing happens.
pub proof fn law_change_is_reported(file: PipeModel, status: FileStatus, c: CModel, i: int)
    ensures
        status.value() == file.status.value() ==> file.events_of_change(status).len() == 0
            && file.c_after_change(status, c) == c,
        status.value() != file.status.value() ==> {
            &&& file.events_of_change(status).len() == file.listeners.len()
            &&& file.c_after_change(status, c) == all_shared(file.listeners, c)
            &&& 0 <= i < file.listeners.len() ==> {
                let event = file.events_of_change(status)[i];
                &&& event.listener == file.listeners[i].listener
                &&& event.status == status
                &&& event.changed.value() == status.value() ^ file.status.value()
            }
        },
        file.c_after_change(status, c).pending == c.pending,
        file.c_after_change(status, c).issued == c.issued,
{
    broadcast use FileStatus::lemma_of_value;

    let old_bits = file.status.value();
    let new_bits = status.value();
    assert((new_bits ^ old_bits == 0) <==> new_bits == old_bits) by (bit_vector);
    law_events_share_references(file.listeners, c, ListenerRef { id: 0, ptr: 0 });
}

/// A borrow is of a file if it was made from the file's cell, and shows what it gives access to.
pub proof fn law_borrow_is_of_file(
    borrowed: PosixFileRef<'_>,
    exclusive: PosixFileRefMut<'_>,
    other: PosixFileRefMut<'_>,
    file: PosixFile,
)
    ensures
        ref_cell(borrowed->Pipe_0) == file.cell() <==> borrowed.is_of(file),
        ref_cell(borrowed->Pipe_0) == borrowed.cell(),
        ref_contents(borrowed->Pipe_0)@ == borrowed.file(),
        ref_mut_cell(exclusive->Pipe_0) == file.cell() <==> exclusive.is_of(file),
        ref_mut_contents(exclusive->Pipe_0)@ == exclusive.file(),
        exclusive.same_file(&other) <==> ref_mut_cell(exclusive->Pipe_0) == ref_mut_cell(
            other->Pipe_0,
        ),
        file.cell() == file->Pipe_0.cell(),
        file.count() == file->Pipe_0.count(),
{
}

/// A file is closed with a descriptor if there is the file's own pointer to the count and one more,
/// and with no other number of pointers. It goes away with its only pointer, and with no other.
pub proof fn law_last_one_counts(pointers: usize, descriptors: nat)
    requires
        pointers > 0,
    ensures
        closes_file(open_descriptors_of(pointers)) <==> pointers == 2,
        closes_file(descriptors) <==> descriptors == 1,
        goes_away(descriptors) <==> descriptors == 1,
{
}

/// A pointer to a file that goes away leaves the C side alone, unless it is the only one. Then the
/// listeners that the file has are let go of, all of them and in order; only a borrow that was
/// refused keeps them.
pub proof fn law_pointer_goes_away(file: PosixFile, pointers: nat, c: CModel, c_after: CModel)
    ensures
        pointers != 1 ==> (let_go(file, pointers, c, c_after) <==> c_after == c),
        pointers == 1 && let_go(file, pointers, c, c_after) && !borrow_refused(file.cell())
            ==> exists|borrowed: PosixFileRef<'_>|
            #![trigger borrowed.cell()]
            borrowed.cell() == file.cell() && c_after == all_released(
                borrowed.file().listeners,
                c,
            ),
        file_gone(file.cell(), c, c_after) && c_after != c ==> exists|borrowed: PosixFileRef<'_>|
            #![trigger borrowed.cell()]
            borrowed.cell() == file.cell() && c_after == all_released(
                borrowed.file().listeners,
                c,
            ),
        pointer_gone(file, c, c_after) && c_after != c ==> pointed_to(file.cell(), 1),
{
}

/// A descriptor that goes away without closing its file queues nothing.
pub proof fn law_dropped_descriptor(
    file: PosixFile,
    queue: Seq<Event>,
    c: CModel,
    queue_after: Seq<Event>,
    c_after: CModel,
)
    requires
        only_dropped(file, queue, c, queue_after, c_after),
    ensures
        queue_after == queue,
        pointer_gone(file, c, c_after),
{
}

/// A close of a file leaves it closed and otherwise as it was, and each of its listeners has one
/// event at the end of the queue, in order, with the closed status and the bits that have changed.
/// If the status was that of a closed file already, the queue stays as it was.
pub proof fn law_closed_through(
    before: PosixFileRefMut<'_>,
    after: PosixFileRefMut<'_>,
    file: PosixFile,
    queue: Seq<Event>,
    c: CModel,
    queue_after: Seq<Event>,
    c_after: CModel,
    i: int,
)
    requires
        closed_through(before, after, file, queue, c, queue_after, c_after),
    ensures
        before.is_of(file),
        after.is_of(file),
        after.file().status.value() & 0b1111 == 0b1000,
        after.file().status.value() & 0b1_0000 == before.file().status.value() & 0b1_0000,
        after.file().flags == before.file().flags,
        after.file().mode == before.file().mode,
        after.file().listeners == before.file().listeners,
        queue_after.len() == queue.len() + if after.file().status.value()
            == before.file().status.value() {
            0
        } else {
            before.file().listeners.len()
        },
        0 <= i < queue.len() ==> queue_after[i] == queue[i],
        queue.len() <= i < queue_after.len() ==> {
            let event = queue_after[i];
            &&& event.listener == before.file().listeners[i - queue.len()].listener
            &&& event.status == after.file().status
            &&& event.changed.value() == after.file().status.value() ^ before.file().status.value()
        },
        exists|queued: CModel|
            #![trigger pointer_gone(file, queued, c_after)]
            queued.pending == c.pending && queued.issued == c.issued && pointer_gone(
                file,
                queued,
                c_after,
            ),
{
    let status = before.file().closed_status();
    law_closed_file(before.file());
    law_change_is_reported(before.file(), status, c, i - queue.len());
    assert(pointer_gone(file, before.file().c_after_change(status, c), c_after));
}

/// A compat descriptor that was made from an address gives that address back, and when it goes
/// away, the last call on the list is to unreference the C side's descriptor at that very address.
/// All that was on the list before stays, and no status listener is let go of.
pub proof fn law_freed_legacy_descriptor(
    descriptor: CompatDescriptor,
    ptr: usize,
    c: CModel,
    c_after: CModel,
)
    requires
        descriptor.is_legacy(ptr),
        descriptor.gone(c, c_after),
    ensures
        descriptor.legacy_address() == ptr,
        descriptor is Legacy,
        descriptor->Legacy_0.address() == ptr,
        c_after.pending == c.pending.push(CCall::DescriptorUnref { ptr }),
        c_after.issued == c.issued,
        c_after.holders == c.holders,
{
}

/// A compat descriptor of a file has no address, and when it goes away, so does a pointer to the
/// file.
pub proof fn law_freed_new_descriptor(
    descriptor: CompatDescriptor,
    ptr: usize,
    c: CModel,
    c_after: CModel,
)
    requires
        descriptor is New,
    ensures
        descriptor.legacy_address() == 0,
        !descriptor.is_legacy(ptr),
        descriptor.gone(c, c_after) <==> pointer_gone(descriptor->New_0.file(), c, c_after),
{
}

} // verus!
