//! The C side, as far as descriptors and listeners deal with it.
//!
//! Objects of the C side are known by their addresses and are never looked into. The library does
//! not call the C side itself: it keeps a list of the calls that are to be made, in order, and
//! whoever owns that list takes the calls out of it and makes them.
//!
//! A C status listener is reference counted. A reference to it can have several holders at a
//! time; it is given back when the last of them lets go.

use crate::flags::Status;
use crate::ids::unused_id;
use vstd::multiset::*;
use vstd::prelude::*;
use vstd::seq_lib::*;

verus! {

/// A call to the C side.
#[derive(Clone, Copy, Debug, PartialEq, Eq, Structural)]
pub enum CCall {
    /// `statuslistener_ref(ptr)`
    StatusListenerRef { ptr: usize },
    /// `statuslistener_unref(ptr)`
    StatusListenerUnref { ptr: usize },
    /// `statuslistener_onStatusChanged(ptr, status, changed)`
    StatusListenerOnStatusChanged { ptr: usize, status: Status, changed: Status },
    /// `descriptor_unref(ptr)`
    DescriptorUnref { ptr: usize },
    /// `descriptor_setHandle(ptr, handle)`
    DescriptorSetHandle { ptr: usize, handle: libc::c_int },
}

impl CCall {
    /// The call takes or gives back a reference to a status listener.
    pub open spec fn counts_listener(self) -> bool {
        self is StatusListenerRef || self is StatusListenerUnref
    }
}

/// A reference to the C status listener at `ptr`. Two references to one listener differ in `id`.
#[derive(Clone, Copy, Debug, PartialEq, Eq, Structural)]
pub struct ListenerRef {
    pub id: u64,
    pub ptr: usize,
}

/// What the list of calls holds, and who holds references to status listeners.
#[verifier::ext_equal]
pub struct CModel {
    /// The calls that were taken out of the list, in order.
    pub issued: Seq<CCall>,
    /// The calls that are in the list, in order.
    pub pending: Seq<CCall>,
    /// Each reference to a status listener, as many times as it has holders.
    pub holders: Multiset<ListenerRef>,
}

impl CModel {
    /// No calls, and no references.
    pub open spec fn empty() -> CModel {
        CModel { issued: Seq::empty(), pending: Seq::empty(), holders: Multiset::empty() }
    }

    /// All calls, in order.
    pub open spec fn history(self) -> Seq<CCall> {
        self.issued + self.pending
    }

    /// `call` is made after all others.
    pub open spec fn called(self, call: CCall) -> CModel {
        CModel { pending: self.pending.push(call), ..self }
    }

    /// `reference` has a holder.
    pub open spec fn held(self, reference: ListenerRef) -> bool {
        self.holders.count(reference) > 0
    }

    /// No reference with a holder has the identifier of `reference`.
    pub open spec fn is_fresh(self, reference: ListenerRef) -> bool {
        forall|other: ListenerRef| #[trigger]
            self.held(other) ==> other.id != reference.id
    }

    /// `reference` is taken, and has one holder.
    pub open spec fn taken(self, reference: ListenerRef) -> CModel {
        CModel { holders: self.holders.insert(reference), ..self }.called(
            CCall::StatusListenerRef { ptr: reference.ptr },
        )
    }

    /// `reference` has one more holder. One that had none cannot be shared.
    pub open spec fn shared(self, reference: ListenerRef) -> CModel {
        if self.held(reference) {
            CModel { holders: self.holders.insert(reference), ..self }
        } else {
            self
        }
    }

    /// A holder lets go of `reference`. If it was the last one, the reference is given back.
    pub open spec fn released(self, reference: ListenerRef) -> CModel {
        let rest = CModel { holders: self.holders.remove(reference), ..self };
        if !self.held(reference) {
            self
        } else if rest.held(reference) {
            rest
        } else {
            rest.called(CCall::StatusListenerUnref { ptr: reference.ptr })
        }
    }

    /// The references to the status listener at `ptr` that have a holder.
    pub open spec fn live(self, ptr: usize) -> Set<ListenerRef> {
        self.holders.dom().filter(|reference: ListenerRef| reference.ptr == ptr)
    }

    /// How many more times the listener at `ptr` was referenced than unreferenced.
    pub open spec fn references(self, ptr: usize) -> int {
        self.history().to_multiset().count(CCall::StatusListenerRef { ptr })
            - self.history().to_multiset().count(CCall::StatusListenerUnref { ptr })
    }

    /// Each status listener is referenced once for each reference that has a holder.
    pub open spec fn balanced(self) -> bool {
        forall|ptr: usize| #[trigger] self.references(ptr) == self.live(ptr).len()
    }
}

/// A further call adds one to the references of a listener if it references it, takes one away if
/// it unreferences it, and changes nothing of them otherwise.
pub proof fn law_references_after_call(model: CModel, call: CCall, ptr: usize)
    ensures
        model.called(call).references(ptr) == model.references(ptr) + if call
            == (CCall::StatusListenerRef { ptr }) {
            1int
        } else if call == (CCall::StatusListenerUnref { ptr }) {
            -1int
        } else {
            0int
        },
{
    broadcast use group_to_multiset_ensures;

    assert(model.called(call).history() =~= model.history().push(call));
}

/// A call that counts no references keeps the count in balance.
pub proof fn law_called_keeps_balance(model: CModel, call: CCall)
    requires
        model.balanced(),
        !call.counts_listener(),
    ensures
        model.called(call).balanced(),
{
    assert forall|ptr: usize| #[trigger]
        model.called(call).references(ptr) == model.called(call).live(ptr).len() by {
        law_references_after_call(model, call, ptr);
        assert(model.references(ptr) == model.live(ptr).len());
    }
}

/// To take a new reference keeps the count in balance.
pub proof fn law_taken_keeps_balance(model: CModel, reference: ListenerRef)
    requires
        model.balanced(),
        model.is_fresh(reference),
    ensures
        model.taken(reference).balanced(),
{
    assert(!model.held(reference));
    let after = CModel { holders: model.holders.insert(reference), ..model };
    assert forall|ptr: usize| #[trigger]
        model.taken(reference).references(ptr) == model.taken(reference).live(ptr).len() by {
        law_references_after_call(after, CCall::StatusListenerRef { ptr: reference.ptr }, ptr);
        assert(after.history() =~= model.history());
        assert(after.references(ptr) == model.references(ptr));
        assert(model.references(ptr) == model.live(ptr).len());
        if ptr == reference.ptr {
            assert(model.taken(reference).live(ptr) =~= model.live(ptr).insert(reference));
        } else {
            assert(model.taken(reference).live(ptr) =~= model.live(ptr));
        }
    }
}

/// To share a reference keeps the count in balance.
pub proof fn law_shared_keeps_balance(model: CModel, reference: ListenerRef)
    requires
        model.balanced(),
    ensures
        model.shared(reference).balanced(),
{
    let after = model.shared(reference);
    assert forall|ptr: usize| #[trigger] after.references(ptr) == after.live(ptr).len() by {
        assert(after.history() =~= model.history());
        assert(model.references(ptr) == model.live(ptr).len());
        assert(after.live(ptr) =~= model.live(ptr));
    }
}

/// To let go of a reference keeps the count in balance.
pub proof fn law_released_keeps_balance(model: CModel, reference: ListenerRef)
    requires
        model.balanced(),
    ensures
        model.released(reference).balanced(),
{
    let rest = CModel { holders: model.holders.remove(reference), ..model };
    let after = model.released(reference);
    assert forall|ptr: usize| #[trigger] after.references(ptr) == after.live(ptr).len() by {
        law_references_after_call(rest, CCall::StatusListenerUnref { ptr: reference.ptr }, ptr);
        assert(rest.history() =~= model.history());
        assert(rest.references(ptr) == model.references(ptr));
        assert(model.references(ptr) == model.live(ptr).len());
        if model.held(reference) && !rest.held(reference) && ptr == reference.ptr {
            assert(model.live(ptr).contains(reference));
            assert(after.live(ptr) =~= model.live(ptr).remove(reference));
        } else {
            assert(after.live(ptr) =~= model.live(ptr));
        }
    }
}

/// The calls that are to be made to the C side, and the holders of references to its status
/// listeners.
pub struct CShadow {
    pending: Vec<CCall>,
    holders: Vec<ListenerRef>,
    issued: Ghost<Seq<CCall>>,
}

impl View for CShadow {
    type V = CModel;

    closed spec fn view(&self) -> CModel {
        CModel {
            issued: self.issued@,
            pending: self.pending@,
            holders: self.holders@.to_multiset(),
        }
    }
}

impl CShadow {
    #[verifier::type_invariant]
    spec fn well_formed(self) -> bool {
        self@.balanced()
    }

    /// No calls, and no references.
    pub fn new() -> (c: CShadow)
        ensures
            c@ == CModel::empty(),
            c@.issued.len() == 0 && c@.pending.len() == 0 && c@.holders.len() == 0,
            c@.balanced(),
    {
        let pending: Vec<CCall> = Vec::new();
        let holders: Vec<ListenerRef> = Vec::new();
        proof {
            broadcast use group_to_multiset_ensures;

            let empty = Seq::<CCall>::empty();
            let model = CModel {
                issued: empty,
                pending: pending@,
                holders: holders@.to_multiset(),
            };
            assert(holders@.to_multiset() =~= Multiset::empty());
            assert(model =~= CModel::empty());
            assert forall|ptr: usize| #[trigger]
                CModel::empty().references(ptr) == CModel::empty().live(ptr).len() by {
                assert(CModel::empty().history() =~= empty);
                assert(CModel::empty().live(ptr) =~= Set::empty());
                assert(empty.to_multiset().len() == 0);
            }
        }
        CShadow { pending, holders, issued: Ghost(Seq::empty()) }
    }

    /// Takes the calls out of the list, in the order in which they are to be made.
    pub fn take_calls(&mut self) -> (calls: Vec<CCall>)
        ensures
            calls@ == old(self)@.pending,
            final(self)@ == (CModel {
                issued: old(self)@.history(),
                pending: Seq::empty(),
                holders: old(self)@.holders,
            }),
            final(self)@.history() == old(self)@.history(),
            final(self)@.issued == old(self)@.issued + calls@,
            final(self)@.balanced(),
    {
        let mut taken = CShadow::new();
        core::mem::swap(self, &mut taken);
        proof {
            use_type_invariant(&taken);
        }
        let ghost before = taken@;
        let CShadow { pending, holders, issued } = taken;
        let empty: Vec<CCall> = Vec::new();
        let ghost all = issued@ + pending@;
        proof {
            let after = CModel { issued: all, pending: empty@, holders: before.holders };
            assert(after.history() =~= before.history());
            assert forall|ptr: usize| #[trigger]
                after.references(ptr) == after.live(ptr).len() by {
                assert(before.references(ptr) == before.live(ptr).len());
                assert(after.live(ptr) =~= before.live(ptr));
            }
        }
        *self = CShadow { pending: empty, holders, issued: Ghost(all) };
        pending
    }

    /// Puts a call that counts no references at the end of the list.
    pub fn call(&mut self, call: CCall)
        requires
            !call.counts_listener(),
        ensures
            final(self)@ == old(self)@.called(call),
            final(self)@.pending == old(self)@.pending.push(call),
            final(self)@.issued == old(self)@.issued,
            final(self)@.holders == old(self)@.holders,
            final(self)@.balanced(),
    {
        let mut c = CShadow::new();
        core::mem::swap(self, &mut c);
        proof {
            use_type_invariant(&c);
            law_called_keeps_balance(c@, call);
        }
        let CShadow { mut pending, holders, issued } = c;
        pending.push(call);
        *self = CShadow { pending, holders, issued };
    }

    /// Takes a new reference to the status listener at `ptr`, for one holder.
    pub fn take_reference(&mut self, ptr: usize) -> (reference: ListenerRef)
        ensures
            reference.ptr == ptr,
            old(self)@.is_fresh(reference),
            final(self)@ == old(self)@.taken(reference),
            old(self)@.holders.count(reference) == 0,
            final(self)@.pending == old(self)@.pending.push(CCall::StatusListenerRef { ptr }),
            final(self)@.issued == old(self)@.issued,
            final(self)@.holders == old(self)@.holders.insert(reference),
            final(self)@.balanced(),
    {
        let mut c = CShadow::new();
        core::mem::swap(self, &mut c);
        proof {
            use_type_invariant(&c);
        }
        let ghost before = c@;
        let CShadow { mut pending, mut holders, issued } = c;
        let reference = ListenerRef { id: Self::unused_reference_id(&holders), ptr };
        proof {
            broadcast use group_to_multiset_ensures;

            assert forall|other: ListenerRef| #[trigger] before.held(other) implies other.id
                != reference.id by {
                assert(holders@.contains(other));
            }
            law_taken_keeps_balance(before, reference);
        }
        pending.push(CCall::StatusListenerRef { ptr });
        holders.push(reference);
        proof {
            broadcast use group_to_multiset_ensures;

            assert(holders@.to_multiset() =~= before.holders.insert(reference));
        }
        *self = CShadow { pending, holders, issued };
        reference
    }

    /// The least identifier that no member of `holders` has.
    fn unused_reference_id(holders: &Vec<ListenerRef>) -> (id: u64)
        ensures
            forall|i: int| 0 <= i < holders@.len() ==> (#[trigger] holders@[i]).id != id,
    {
        let mut used: Vec<u64> = Vec::new();
        for i in 0..holders.len()
            invariant
                used@.len() == i,
                forall|j: int| 0 <= j < i ==> used@[j] == (#[trigger] holders@[j]).id,
        {
            used.push(holders[i].id);
        }
        let id: u64 = unused_id(&used);
        assert forall|i: int| 0 <= i < holders@.len() implies (#[trigger] holders@[i]).id != id by {
            assert(used@[i] == holders@[i].id);
        }
        id
    }

    /// Where `reference` is in `holders`.
    fn find(holders: &Vec<ListenerRef>, reference: ListenerRef) -> (at: Option<usize>)
        ensures
            at matches Some(at) ==> at < holders@.len() && holders@[at as int] == reference,
            at is None ==> !holders@.contains(reference),
    {
        for i in 0..holders.len()
            invariant
                forall|j: int| 0 <= j < i ==> holders@[j] != reference,
        {
            if holders[i] == reference {
                return Some(i);
            }
        }
        None
    }

    /// Lets one more holder have `reference`. One that has no holder any more is left alone.
    pub fn share_reference(&mut self, reference: ListenerRef)
        ensures
            final(self)@ == old(self)@.shared(reference),
            final(self)@.pending == old(self)@.pending,
            final(self)@.issued == old(self)@.issued,
            final(self)@.holders == if old(self)@.holders.count(reference) > 0 {
                old(self)@.holders.insert(reference)
            } else {
                old(self)@.holders
            },
            final(self)@.balanced(),
    {
        let mut c = CShadow::new();
        core::mem::swap(self, &mut c);
        proof {
            use_type_invariant(&c);
            law_shared_keeps_balance(c@, reference);
        }
        let ghost before = c@;
        let CShadow { pending, mut holders, issued } = c;
        let at = Self::find(&holders, reference);
        proof {
            broadcast use group_to_multiset_ensures;

            assert(before.held(reference) == holders@.contains(reference));
        }
        if at.is_some() {
            holders.push(reference);
            proof {
                broadcast use group_to_multiset_ensures;

                assert(holders@.to_multiset() =~= before.holders.insert(reference));
            }
        }
        *self = CShadow { pending, holders, issued };
    }

    /// Lets a holder let go of `reference`, which is given back if no other holder has it. One that
    /// has no holder any more is left alone.
    pub fn release_reference(&mut self, reference: ListenerRef)
        ensures
            final(self)@ == old(self)@.released(reference),
            final(self)@.pending == if old(self)@.holders.count(reference) == 1 {
                old(self)@.pending.push(CCall::StatusListenerUnref { ptr: reference.ptr })
            } else {
                old(self)@.pending
            },
            final(self)@.issued == old(self)@.issued,
            final(self)@.holders == old(self)@.holders.remove(reference),
            final(self)@.balanced(),
    {
        let mut c = CShadow::new();
        core::mem::swap(self, &mut c);
        proof {
            use_type_invariant(&c);
            law_released_keeps_balance(c@, reference);
        }
        let ghost before = c@;
        let CShadow { mut pending, mut holders, issued } = c;
        let at = Self::find(&holders, reference);
        proof {
            broadcast use group_to_multiset_ensures;

            assert(before.held(reference) == holders@.contains(reference));
        }
        if let Some(at) = at {
            let ghost full = holders@;
            holders.remove(at);
            proof {
                broadcast use group_to_multiset_ensures;

                assert(holders@ =~= full.remove(at as int));
                assert(holders@.to_multiset() =~= before.holders.remove(reference));
            }
            if Self::find(&holders, reference).is_none() {
                pending.push(CCall::StatusListenerUnref { ptr: reference.ptr });
            }
            proof {
                broadcast use group_to_multiset_ensures;

            }
        }
        *self = CShadow { pending, holders, issued };
    }
}

} // verus!
