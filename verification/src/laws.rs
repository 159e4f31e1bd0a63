//! What holds of listeners, events and files across calls.

use crate::cshadow::law_references_after_call;
use crate::cshadow::law_released_keeps_balance;
use crate::cshadow::law_taken_keeps_balance;
use crate::cshadow::CCall;
use crate::cshadow::CModel;
use crate::cshadow::ListenerRef;
use crate::event_queue::all_released;
use crate::event_queue::all_shared;
use crate::event_queue::events_for;
use crate::event_queue::Event;
use crate::event_queue::Registration;
use crate::file::file_gone;
use crate::file::PosixFile;
use crate::file::PosixFileRef;
use crate::flags::FileStatus;
use crate::flags::STATUS_DESCRIPTOR_ACTIVE;
use crate::flags::STATUS_DESCRIPTOR_CLOSED;
use crate::flags::STATUS_DESCRIPTOR_READABLE;
use crate::flags::STATUS_DESCRIPTOR_WRITABLE;
use crate::flags::STATUS_FUTEX_WAKEUP;
use crate::listener::Listener;
use crate::pipe::PipeModel;
use crate::shared::borrow_refused;
use crate::status_source::law_removed_does_not_listen;
use crate::status_source::legacy_added;
use crate::status_source::legacy_released;
use crate::status_source::listens;
use crate::status_source::no_repeats;
use crate::status_source::position_of;
use crate::status_source::without_legacy;
use vstd::multiset::*;
use vstd::prelude::*;

verus! {

/// The reference that a listener holds, if any.
pub open spec fn reference_of(listener: Listener) -> Multiset<ListenerRef> {
    match listener {
        Listener::Status(_) => Multiset::empty(),
        Listener::Legacy(legacy) => Multiset::singleton(legacy.reference()),
    }
}

/// The references that the listeners hold, each as many times as it is held.
pub open spec fn references_of(listeners: Seq<Listener>) -> Multiset<ListenerRef>
    decreases listeners.len(),
{
    if listeners.len() == 0 {
        Multiset::empty()
    } else {
        references_of(listeners.drop_last()).add(reference_of(listeners.last()))
    }
}

/// The references that a source holds.
pub open spec fn registered(registrations: Seq<Registration>) -> Multiset<ListenerRef> {
    references_of(registrations.map_values(|registration: Registration| registration.listener))
}

/// The references that the events in a queue hold.
pub open spec fn queued(events: Seq<Event>) -> Multiset<ListenerRef> {
    references_of(events.map_values(|event: Event| event.listener))
}

/// The holders of references to C status listeners are the listeners of a source, the events in a
/// queue, and `others` (other sources and queues).
pub open spec fn accounted(
    registrations: Seq<Registration>,
    events: Seq<Event>,
    others: Multiset<ListenerRef>,
    c: CModel,
) -> bool {
    c.holders == registered(registrations).add(queued(events)).add(others)
}

/// The references of the listeners in two lists are those of each of them.
proof fn lemma_references_of_sum(a: Seq<Listener>, b: Seq<Listener>)
    ensures
        references_of(a + b) == references_of(a).add(references_of(b)),
    decreases b.len(),
{
    if b.len() == 0 {
        assert(a + b =~= a);
        assert(references_of(a) =~= references_of(a).add(references_of(b)));
    } else {
        assert((a + b).drop_last() =~= a + b.drop_last());
        lemma_references_of_sum(a, b.drop_last());
        assert(references_of(a + b) =~= references_of(a).add(references_of(b)));
    }
}

/// To take a listener out of a list takes its reference out of theirs.
proof fn lemma_references_of_remove(listeners: Seq<Listener>, at: int)
    requires
        0 <= at < listeners.len(),
    ensures
        references_of(listeners) == references_of(listeners.remove(at)).add(
            reference_of(listeners[at]),
        ),
{
    let front = listeners.take(at);
    let one = seq![listeners[at]];
    let back = listeners.skip(at + 1);
    assert(listeners =~= (front + one) + back);
    assert(listeners.remove(at) =~= front + back);
    lemma_references_of_sum(front + one, back);
    lemma_references_of_sum(front, one);
    lemma_references_of_sum(front, back);
    reveal_with_fuel(references_of, 2);
    assert(one.drop_last() =~= Seq::empty());
    assert(references_of(one) =~= reference_of(listeners[at]));
    assert(references_of(listeners) =~= references_of(listeners.remove(at)).add(
        reference_of(listeners[at]),
    ));
}

/// The reference of a listener in a list is among the references of the list.
proof fn lemma_reference_in_list(listeners: Seq<Listener>, at: int)
    requires
        0 <= at < listeners.len(),
    ensures
        reference_of(listeners[at]).subset_of(references_of(listeners)),
{
    lemma_references_of_remove(listeners, at);
}

/// To add a listener of the C side keeps every holder accounted for.
pub proof fn law_add_keeps_account(
    registrations: Seq<Registration>,
    events: Seq<Event>,
    others: Multiset<ListenerRef>,
    c: CModel,
    ptr: usize,
    registrations_after: Seq<Registration>,
    c_after: CModel,
)
    requires
        accounted(registrations, events, others, c),
        legacy_added(registrations, c, ptr, registrations_after, c_after),
    ensures
        accounted(registrations_after, events, others, c_after),
{
    if !listens(registrations, ptr) {
        let before = registrations.map_values(|r: Registration| r.listener);
        let after = registrations_after.map_values(|r: Registration| r.listener);
        assert(after.drop_last() =~= before);
        assert(c_after.holders =~= registered(registrations_after).add(queued(events)).add(others));
    }
}

/// To remove a listener of the C side keeps every holder accounted for.
pub proof fn law_remove_keeps_account(
    registrations: Seq<Registration>,
    events: Seq<Event>,
    others: Multiset<ListenerRef>,
    c: CModel,
    ptr: usize,
)
    requires
        accounted(registrations, events, others, c),
    ensures
        accounted(
            without_legacy(registrations, ptr),
            events,
            others,
            legacy_released(registrations, ptr, c),
        ),
{
    if listens(registrations, ptr) {
        let at = position_of(registrations, ptr);
        let before = registrations.map_values(|r: Registration| r.listener);
        let after = registrations.remove(at).map_values(|r: Registration| r.listener);
        assert(after =~= before.remove(at));
        lemma_references_of_remove(before, at);
        assert(legacy_released(registrations, ptr, c).holders =~= registered(
            registrations.remove(at),
        ).add(queued(events)).add(others));
    }
}

/// To share the first listeners of a list adds their references to the holders.
proof fn lemma_all_shared(
    registrations: Seq<Registration>,
    count: int,
    events: Seq<Event>,
    others: Multiset<ListenerRef>,
    c: CModel,
)
    requires
        0 <= count <= registrations.len(),
        accounted(registrations, events, others, c),
    ensures
        all_shared(registrations.take(count), c).holders == c.holders.add(
            registered(registrations.take(count)),
        ),
    decreases count,
{
    let listeners = registrations.map_values(|r: Registration| r.listener);
    let part = registrations.take(count).map_values(|r: Registration| r.listener);
    if count == 0 {
        assert(part =~= Seq::empty());
        assert(c.holders =~= c.holders.add(registered(registrations.take(count))));
    } else {
        lemma_all_shared(registrations, count - 1, events, others, c);
        assert(registrations.take(count).drop_last() =~= registrations.take(count - 1));
        assert(part.drop_last() =~= registrations.take(count - 1).map_values(
            |r: Registration| r.listener,
        ));
        assert(part.last() == listeners[count - 1]);
        lemma_reference_in_list(listeners, count - 1);
        let so_far = all_shared(registrations.take(count - 1), c);
        if let Listener::Legacy(legacy) = listeners[count - 1] {
            assert(reference_of(listeners[count - 1]).count(legacy.reference()) == 1);
            assert(so_far.held(legacy.reference()));
        }
        assert(all_shared(registrations.take(count), c).holders =~= c.holders.add(
            registered(registrations.take(count)),
        ));
    }
}

/// To notify the listeners keeps every holder accounted for: each event that is queued is one.
pub proof fn law_notify_keeps_account(
    registrations: Seq<Registration>,
    events: Seq<Event>,
    others: Multiset<ListenerRef>,
    c: CModel,
    status: FileStatus,
    changed: FileStatus,
)
    requires
        accounted(registrations, events, others, c),
    ensures
        accounted(
            registrations,
            events + events_for(registrations, status, changed),
            others,
            all_shared(registrations, c),
        ),
{
    lemma_all_shared(registrations, registrations.len() as int, events, others, c);
    assert(registrations.take(registrations.len() as int) =~= registrations);
    let new = events_for(registrations, status, changed);
    let old_listeners = events.map_values(|event: Event| event.listener);
    let new_listeners = new.map_values(|event: Event| event.listener);
    assert((events + new).map_values(|event: Event| event.listener) =~= old_listeners
        + new_listeners);
    assert(new_listeners =~= registrations.map_values(|r: Registration| r.listener));
    lemma_references_of_sum(old_listeners, new_listeners);
    assert(all_shared(registrations, c).holders =~= registered(registrations).add(
        queued(events + new),
    ).add(others));
}

/// To take the event at the front out of the queue and run it keeps every holder accounted for: as
/// long as the event is not released, it is one of the others.
pub proof fn law_run_keeps_account(
    registrations: Seq<Registration>,
    events: Seq<Event>,
    others: Multiset<ListenerRef>,
    c: CModel,
)
    requires
        events.len() > 0,
        accounted(registrations, events, others, c),
    ensures
        accounted(
            registrations,
            events.drop_first(),
            others.add(reference_of(events[0].listener)),
            events[0].told(c),
        ),
{
    let listeners = events.map_values(|event: Event| event.listener);
    assert(events.drop_first().map_values(|event: Event| event.listener) =~= listeners.remove(0));
    lemma_references_of_remove(listeners, 0);
    assert(events[0].told(c).holders =~= registered(registrations).add(
        queued(events.drop_first()),
    ).add(others.add(reference_of(events[0].listener))));
}

/// To release an event that was run keeps every holder accounted for, whatever happened in between.
pub proof fn law_release_keeps_account(
    registrations: Seq<Registration>,
    events: Seq<Event>,
    others: Multiset<ListenerRef>,
    c: CModel,
    event: Event,
)
    requires
        accounted(registrations, events, others.add(reference_of(event.listener)), c),
    ensures
        accounted(registrations, events, others, event.listener.released(c)),
{
    assert(event.listener.released(c).holders =~= registered(registrations).add(
        queued(events),
    ).add(others));
}

/// A C status listener that is removed while an event that holds it runs is not unreferenced: that
/// waits for the release of the event.
pub proof fn law_running_event_keeps_listener(
    registrations: Seq<Registration>,
    events: Seq<Event>,
    others: Multiset<ListenerRef>,
    c: CModel,
    ptr: usize,
    event: Event,
)
    requires
        accounted(registrations, events, others.add(reference_of(event.listener)), c),
        listens(registrations, ptr),
        event.listener == registrations[position_of(registrations, ptr)].listener,
    ensures
        legacy_released(registrations, ptr, c).pending == c.pending,
        legacy_released(registrations, ptr, c).held(event.listener->Legacy_0.reference()),
{
    let at = position_of(registrations, ptr);
    let listeners = registrations.map_values(|r: Registration| r.listener);
    let reference = event.listener->Legacy_0.reference();
    lemma_reference_in_list(listeners, at);
    assert(listeners[at] == event.listener);
    assert(reference_of(event.listener).count(reference) == 1);
    assert(registered(registrations).count(reference) >= 1);
    assert(c.holders.count(reference) >= 2);
}

/// To let go of the first listeners of a list takes their references out of the holders.
proof fn lemma_all_released(
    registrations: Seq<Registration>,
    count: int,
    rest: Multiset<ListenerRef>,
    c: CModel,
)
    requires
        0 <= count <= registrations.len(),
        c.holders == registered(registrations).add(rest),
    ensures
        all_released(registrations.take(count), c).holders == registered(
            registrations.skip(count),
        ).add(rest),
    decreases count,
{
    if count == 0 {
        assert(registrations.skip(0) =~= registrations);
    } else {
        lemma_all_released(registrations, count - 1, rest, c);
        assert(registrations.take(count).drop_last() =~= registrations.take(count - 1));
        let left = registrations.skip(count - 1).map_values(|r: Registration| r.listener);
        assert(registrations.skip(count).map_values(|r: Registration| r.listener) =~= left.remove(
            0,
        ));
        lemma_references_of_remove(left, 0);
        assert(left[0] == registrations[count - 1].listener);
        assert(all_released(registrations.take(count), c).holders =~= registered(
            registrations.skip(count),
        ).add(rest));
    }
}

/// When a file goes away, all its listeners are let go of, and what is left is accounted for.
pub proof fn law_drop_keeps_account(
    registrations: Seq<Registration>,
    events: Seq<Event>,
    others: Multiset<ListenerRef>,
    c: CModel,
)
    requires
        accounted(registrations, events, others, c),
    ensures
        accounted(Seq::empty(), events, others, all_released(registrations, c)),
{
    let rest = queued(events).add(others);
    assert(c.holders =~= registered(registrations).add(rest));
    lemma_all_released(registrations, registrations.len() as int, rest, c);
    assert(registrations.take(registrations.len() as int) =~= registrations);
    assert(registrations.skip(registrations.len() as int) =~= Seq::empty());
    assert(all_released(registrations, c).holders =~= registered(Seq::empty()).add(
        queued(events),
    ).add(others));
}

/// No holder in `others` has a reference to the C status listener at `ptr`.
pub open spec fn nowhere_in(others: Multiset<ListenerRef>, ptr: usize) -> bool {
    forall|reference: ListenerRef| #[trigger] others.count(reference) > 0 ==> reference.ptr != ptr
}

/// No event in the queue is for the C status listener at `ptr`.
pub open spec fn not_queued(events: Seq<Event>, ptr: usize) -> bool {
    forall|i: int| 0 <= i < events.len() ==> !(#[trigger] events[i]).listener.is_legacy(ptr)
}

/// A C status listener that no source and no queue holds has been unreferenced as often as it was
/// referenced.
pub proof fn law_unused_listener_is_unreferenced(
    registrations: Seq<Registration>,
    events: Seq<Event>,
    others: Multiset<ListenerRef>,
    c: CModel,
    ptr: usize,
)
    requires
        accounted(registrations, events, others, c),
        c.balanced(),
        !listens(registrations, ptr),
        not_queued(events, ptr),
        nowhere_in(others, ptr),
    ensures
        c.references(ptr) == 0,
{
    let listeners = registrations.map_values(|r: Registration| r.listener);
    let queue = events.map_values(|event: Event| event.listener);
    assert forall|i: int| 0 <= i < listeners.len() implies !(#[trigger] listeners[i]).is_legacy(
        ptr,
    ) by {
        assert(!registrations[i].listener.is_legacy(ptr));
    }
    assert forall|i: int| 0 <= i < queue.len() implies !(#[trigger] queue[i]).is_legacy(ptr) by {
        assert(!events[i].listener.is_legacy(ptr));
    }
    assert forall|reference: ListenerRef| reference.ptr == ptr implies !#[trigger] c.held(
        reference,
    ) by {
        lemma_no_reference(listeners, reference);
        lemma_no_reference(queue, reference);
        assert(others.count(reference) == 0);
    }
    assert(c.references(ptr) == c.live(ptr).len());
    assert forall|reference: ListenerRef| !#[trigger] c.live(ptr).contains(reference) by {
        assert(reference.ptr == ptr ==> !c.held(reference));
    }
    assert(c.live(ptr) =~= Set::empty());
}

/// To add a C status listener that is not among the listeners references it once.
pub proof fn law_added_listener_is_referenced_once(
    registrations: Seq<Registration>,
    c: CModel,
    ptr: usize,
    registrations_after: Seq<Registration>,
    c_after: CModel,
)
    requires
        c.balanced(),
        !listens(registrations, ptr),
        legacy_added(registrations, c, ptr, registrations_after, c_after),
    ensures
        c_after.references(ptr) == c.references(ptr) + 1,
        c_after.balanced(),
{
    let reference = registrations_after.last().listener->Legacy_0.reference();
    let taken = CModel { holders: c.holders.insert(reference), ..c };
    law_references_after_call(taken, CCall::StatusListenerRef { ptr }, ptr);
    assert(taken.history() =~= c.history());
    law_taken_keeps_balance(c, reference);
}

/// Once a C status listener is removed and no event is queued for it, it has been unreferenced as
/// often as it was referenced, unless another source or queue has it.
pub proof fn law_removed_listener_is_unreferenced(
    registrations: Seq<Registration>,
    events: Seq<Event>,
    others: Multiset<ListenerRef>,
    c: CModel,
    ptr: usize,
)
    requires
        accounted(registrations, events, others, c),
        c.balanced(),
        no_repeats(registrations),
        not_queued(events, ptr),
        nowhere_in(others, ptr),
    ensures
        legacy_released(registrations, ptr, c).references(ptr) == 0,
{
    let c_after = legacy_released(registrations, ptr, c);
    law_remove_keeps_account(registrations, events, others, c, ptr);
    law_removed_does_not_listen(registrations, ptr);
    if listens(registrations, ptr) {
        let at = position_of(registrations, ptr);
        law_released_keeps_balance(c, registrations[at].listener->Legacy_0.reference());
    }
    law_unused_listener_is_unreferenced(
        without_legacy(registrations, ptr),
        events,
        others,
        c_after,
        ptr,
    );
}

/// To let go of listeners keeps the count of references in balance.
proof fn lemma_all_released_balanced(registrations: Seq<Registration>, c: CModel)
    requires
        c.balanced(),
    ensures
        all_released(registrations, c).balanced(),
    decreases registrations.len(),
{
    if registrations.len() > 0 {
        lemma_all_released_balanced(registrations.drop_last(), c);
        if let Listener::Legacy(legacy) = registrations.last().listener {
            law_released_keeps_balance(
                all_released(registrations.drop_last(), c),
                legacy.reference(),
            );
        }
    }
}

/// Once a file is gone and no event is queued for a C status listener, that has been unreferenced
/// as often as it was referenced, unless another source or queue has it.
pub proof fn law_listener_of_freed_file_is_unreferenced(
    registrations: Seq<Registration>,
    events: Seq<Event>,
    others: Multiset<ListenerRef>,
    c: CModel,
    ptr: usize,
)
    requires
        accounted(registrations, events, others, c),
        c.balanced(),
        not_queued(events, ptr),
        nowhere_in(others, ptr),
    ensures
        all_released(registrations, c).references(ptr) == 0,
{
    law_drop_keeps_account(registrations, events, others, c);
    lemma_all_released_balanced(registrations, c);
    law_unused_listener_is_unreferenced(
        Seq::empty(),
        events,
        others,
        all_released(registrations, c),
        ptr,
    );
}

/// When a file goes away, and no borrow of it was refused, then every C status listener that it had
/// has been unreferenced as often as it was referenced, unless an event is queued for it or another
/// source or queue has it.
pub proof fn law_gone_file_gives_references_back(
    file: PosixFile,
    events: Seq<Event>,
    others: Multiset<ListenerRef>,
    c: CModel,
    c_after: CModel,
    ptr: usize,
)
    requires
        file_gone(file.cell(), c, c_after),
        !borrow_refused(file.cell()),
        forall|borrowed: PosixFileRef<'_>| #[trigger]
            borrowed.cell() == file.cell() ==> accounted(
                borrowed.file().listeners,
                events,
                others,
                c,
            ),
        c.balanced(),
        not_queued(events, ptr),
        nowhere_in(others, ptr),
    ensures
        c_after.references(ptr) == 0,
{
    let borrowed = choose|borrowed: PosixFileRef<'_>| #[trigger]
        borrowed.cell() == file.cell() && c_after == all_released(borrowed.file().listeners, c);
    law_listener_of_freed_file_is_unreferenced(
        borrowed.file().listeners,
        events,
        others,
        c,
        ptr,
    );
}

/// Listeners of which none is at an address hold no reference to it.
proof fn lemma_no_reference(listeners: Seq<Listener>, reference: ListenerRef)
    requires
        forall|i: int|
            0 <= i < listeners.len() ==> !(#[trigger] listeners[i]).is_legacy(reference.ptr),
    ensures
        references_of(listeners).count(reference) == 0,
    decreases listeners.len(),
{
    if listeners.len() > 0 {
        let front = listeners.drop_last();
        assert forall|i: int| 0 <= i < front.len() implies !(#[trigger] front[i]).is_legacy(
            reference.ptr,
        ) by {
            assert(!listeners[i].is_legacy(reference.ptr));
        }
        lemma_no_reference(front, reference);
        assert(!listeners[listeners.len() - 1].is_legacy(reference.ptr));
    }
}

/// As long as a source or a queue holds a C status listener, it is referenced more often than it
/// was unreferenced.
pub proof fn law_used_listener_is_referenced(
    registrations: Seq<Registration>,
    events: Seq<Event>,
    others: Multiset<ListenerRef>,
    c: CModel,
    ptr: usize,
)
    requires
        accounted(registrations, events, others, c),
        c.balanced(),
        listens(registrations, ptr) || exists|i: int|
            0 <= i < events.len() && (#[trigger] events[i]).listener.is_legacy(ptr),
    ensures
        c.references(ptr) > 0,
{
    let listeners = registrations.map_values(|r: Registration| r.listener);
    let queue = events.map_values(|event: Event| event.listener);
    let reference = if listens(registrations, ptr) {
        let at = position_of(registrations, ptr);
        lemma_reference_in_list(listeners, at);
        listeners[at]->Legacy_0.reference()
    } else {
        let at = choose|i: int|
            0 <= i < events.len() && (#[trigger] events[i]).listener.is_legacy(ptr);
        lemma_reference_in_list(queue, at);
        queue[at]->Legacy_0.reference()
    };
    assert(Multiset::singleton(reference).count(reference) == 1);
    assert(c.held(reference));
    assert(c.live(ptr).contains(reference));
    assert(c.references(ptr) == c.live(ptr).len());
    assert(c.live(ptr).len() > 0);
}

/// A C status listener that was added is among the listeners.
pub proof fn law_added_listens(
    registrations: Seq<Registration>,
    c: CModel,
    ptr: usize,
    registrations_after: Seq<Registration>,
    c_after: CModel,
)
    requires
        legacy_added(registrations, c, ptr, registrations_after, c_after),
    ensures
        listens(registrations_after, ptr),
{
    if !listens(registrations, ptr) {
        assert(registrations_after[registrations_after.len() - 1].listener.is_legacy(ptr));
    }
}

/// To add a C status listener a second time changes nothing.
pub proof fn law_second_add_changes_nothing(
    registrations: Seq<Registration>,
    c: CModel,
    ptr: usize,
    registrations_once: Seq<Registration>,
    c_once: CModel,
    registrations_twice: Seq<Registration>,
    c_twice: CModel,
)
    requires
        legacy_added(registrations, c, ptr, registrations_once, c_once),
        legacy_added(registrations_once, c_once, ptr, registrations_twice, c_twice),
    ensures
        registrations_twice == registrations_once,
        c_twice == c_once,
{
    law_added_listens(registrations, c, ptr, registrations_once, c_once);
}

/// A notification queues exactly one event for a C status listener that is among the listeners.
pub proof fn law_notified_once(
    registrations: Seq<Registration>,
    ptr: usize,
    status: FileStatus,
    changed: FileStatus,
    i: int,
)
    requires
        no_repeats(registrations),
        listens(registrations, ptr),
        0 <= i < events_for(registrations, status, changed).len(),
    ensures
        0 <= position_of(registrations, ptr) < events_for(registrations, status, changed).len(),
        events_for(registrations, status, changed)[i].listener.is_legacy(ptr) <==> i
            == position_of(registrations, ptr),
{
    let at = position_of(registrations, ptr);
    assert(registrations[at].listener.is_legacy(ptr));
    assert(events_for(registrations, status, changed)[i].listener == registrations[i].listener);
}

/// No event is queued for a C status listener after it was removed.
pub proof fn law_removed_gets_no_event(
    registrations: Seq<Registration>,
    ptr: usize,
    status: FileStatus,
    changed: FileStatus,
    i: int,
)
    requires
        no_repeats(registrations),
        0 <= i < events_for(without_legacy(registrations, ptr), status, changed).len(),
    ensures
        !events_for(without_legacy(registrations, ptr), status, changed)[i].listener.is_legacy(ptr),
{
    law_removed_does_not_listen(registrations, ptr);
    assert(without_legacy(registrations, ptr)[i].listener == events_for(
        without_legacy(registrations, ptr),
        status,
        changed,
    )[i].listener);
}

/// To remove a C status listener right after it was added restores the listeners and the holders,
/// and leaves one reference call and one unreference call behind.
pub proof fn law_remove_undoes_add(
    registrations: Seq<Registration>,
    c: CModel,
    ptr: usize,
    registrations_after: Seq<Registration>,
    c_after: CModel,
)
    requires
        !listens(registrations, ptr),
        legacy_added(registrations, c, ptr, registrations_after, c_after),
    ensures
        without_legacy(registrations_after, ptr) == registrations,
        legacy_released(registrations_after, ptr, c_after) == c.called(
            CCall::StatusListenerRef { ptr },
        ).called(CCall::StatusListenerUnref { ptr }),
{
    law_added_listens(registrations, c, ptr, registrations_after, c_after);
    let at = position_of(registrations_after, ptr);
    let last = registrations_after.len() - 1;
    if at < last {
        assert(registrations[at] == registrations_after[at]);
        assert(listens(registrations, ptr));
    }
    assert(registrations_after.remove(at) =~= registrations);
    let reference = registrations_after[at].listener->Legacy_0.reference();
    assert(!c.held(reference));
    assert(c_after.holders.remove(reference) =~= c.holders);
    assert(legacy_released(registrations_after, ptr, c_after) =~= c.called(
        CCall::StatusListenerRef { ptr },
    ).called(CCall::StatusListenerUnref { ptr }));
}

/// An event that is already queued for a C status listener keeps its reference: if the listener is
/// removed before the event is run, it is told of the change first, and given back when the event
/// is released after that.
pub proof fn law_queued_event_outlives_removal(
    registrations: Seq<Registration>,
    c: CModel,
    ptr: usize,
    status: FileStatus,
    changed: FileStatus,
    others: Multiset<ListenerRef>,
)
    requires
        no_repeats(registrations),
        listens(registrations, ptr),
        accounted(registrations, Seq::empty(), others, c),
        c.holders.count(
            registrations[position_of(registrations, ptr)].listener->Legacy_0.reference(),
        ) == 1,
    ensures
        ({
            let at = position_of(registrations, ptr);
            let event = events_for(registrations, status, changed)[at];
            let removed = legacy_released(registrations, ptr, all_shared(registrations, c));
            &&& removed.pending == c.pending
            &&& event.listener.released(event.told(removed)).pending == c.pending.push(
                CCall::StatusListenerOnStatusChanged {
                    ptr,
                    status: status.value(),
                    changed: changed.value(),
                },
            ).push(CCall::StatusListenerUnref { ptr })
        }),
{
    let at = position_of(registrations, ptr);
    let listeners = registrations.map_values(|r: Registration| r.listener);
    let reference = registrations[at].listener->Legacy_0.reference();
    lemma_all_shared(registrations, registrations.len() as int, Seq::empty(), others, c);
    assert(registrations.take(registrations.len() as int) =~= registrations);
    lemma_all_shared_pending(registrations, c);
    lemma_references_of_remove(listeners, at);
    assert(reference_of(listeners[at]).count(reference) == 1);
    // the source holds the reference once, since all holders are one
    assert(registered(registrations).count(reference) == 1);
    let shared = all_shared(registrations, c);
    assert(shared.holders.count(reference) == 2);
}

/// To share listeners makes no calls.
proof fn lemma_all_shared_pending(registrations: Seq<Registration>, c: CModel)
    ensures
        all_shared(registrations, c).pending == c.pending,
        all_shared(registrations, c).issued == c.issued,
    decreases registrations.len(),
{
    if registrations.len() > 0 {
        lemma_all_shared_pending(registrations.drop_last(), c);
    }
}

/// A file that was closed is closed, and neither active nor readable nor writable; the other flags
/// of its status are kept.
pub proof fn law_closed_status(file: PipeModel)
    ensures
        file.closed().status.value() & STATUS_DESCRIPTOR_CLOSED != 0,
        file.closed().status.value() & STATUS_DESCRIPTOR_ACTIVE == 0,
        file.closed().status.value() & STATUS_DESCRIPTOR_READABLE == 0,
        file.closed().status.value() & STATUS_DESCRIPTOR_WRITABLE == 0,
        file.closed().status.value() & STATUS_FUTEX_WAKEUP == file.status.value()
            & STATUS_FUTEX_WAKEUP,
{
    broadcast use FileStatus::lemma_of_value;

    let bits = file.status.value();
    let mask = STATUS_DESCRIPTOR_CLOSED | STATUS_DESCRIPTOR_ACTIVE | STATUS_DESCRIPTOR_READABLE
        | STATUS_DESCRIPTOR_WRITABLE;
    let after = (bits & !mask) | (STATUS_DESCRIPTOR_CLOSED & mask);
    assert(after & STATUS_DESCRIPTOR_CLOSED != 0 && after & STATUS_DESCRIPTOR_ACTIVE == 0 && after
        & STATUS_DESCRIPTOR_READABLE == 0 && after & STATUS_DESCRIPTOR_WRITABLE == 0 && after
        & STATUS_FUTEX_WAKEUP == bits & STATUS_FUTEX_WAKEUP) by (bit_vector)
        requires
            mask == STATUS_DESCRIPTOR_CLOSED | STATUS_DESCRIPTOR_ACTIVE | STATUS_DESCRIPTOR_READABLE
                | STATUS_DESCRIPTOR_WRITABLE,
            after == (bits & !mask) | (STATUS_DESCRIPTOR_CLOSED & mask),
    ;
}

/// To close a file that is closed changes nothing, and queues no events.
pub proof fn law_second_close_changes_nothing(file: PipeModel)
    ensures
        file.closed().closed() == file.closed(),
        file.closed().events_of_change(file.closed().closed_status()) == Seq::<Event>::empty(),
{
    broadcast use FileStatus::lemma_of_value;

    let bits = file.status.value();
    let mask = STATUS_DESCRIPTOR_CLOSED | STATUS_DESCRIPTOR_ACTIVE | STATUS_DESCRIPTOR_READABLE
        | STATUS_DESCRIPTOR_WRITABLE;
    let once = (bits & !mask) | (STATUS_DESCRIPTOR_CLOSED & mask);
    let twice = (once & !mask) | (STATUS_DESCRIPTOR_CLOSED & mask);
    assert(twice == once && once ^ once == 0) by (bit_vector)
        requires
            once == (bits & !mask) | (STATUS_DESCRIPTOR_CLOSED & mask),
            twice == (once & !mask) | (STATUS_DESCRIPTOR_CLOSED & mask),
    ;
    assert(file.closed().status.value() == once);
    assert(file.closed().closed_status().value() == twice);
}

} // verus!
