//! Descriptors of either kind: those of the library's files, and those that the C side owns.

use crate::cshadow::CCall;
use crate::cshadow::CModel;
use crate::cshadow::CShadow;
use crate::event_queue::Event;
use crate::event_queue::EventQueue;
use crate::file::pointer_gone;
use crate::file::IsSend;
use crate::file::IsSync;
use crate::file::PipePointer;
use crate::file::PosixFile;
use crate::file::PosixFileRefMut;
use crate::flags::DescriptorFlags;
use crate::shared::arc_clone;
use crate::shared::arc_strong_count;
use crate::shared::borrow_refused;
use crate::shared::counted;
use crate::syscall::SysCallReg;
use crate::syscall::SyscallResult;
use crate::text::address_string;
use crate::text::address_text;
use crate::text::flags_text;
use atomic_refcell::BorrowMutError;
use std::sync::atomic::AtomicBool;
use std::sync::Arc;
use vstd::prelude::*;

verus! {

/// What a descriptor needs of its pointer to a file in order to go away. No further pointer to the
/// file, and none to the count of its open descriptors, can be made through this.
pub(crate) trait FilePointer: Sized {
    /// The pointer, once it is only there to close the file.
    type Closing: ClosingPointer;

    /// The file that is pointed to.
    spec fn pointed(&self) -> PosixFile;

    /// Makes the pointer one to close the file with.
    fn to_close(self) -> (closing: (Self::Closing, <Self::Closing as ClosingPointer>::Permit))
        ensures
            closing.0.pointed() == self.pointed(),
    ;

    /// Lets go of the pointer.
    fn let_go(self, c: &mut CShadow)
        ensures
            pointer_gone(self.pointed(), old(c)@, final(c)@),
    ;
}

/// A pointer to a file that is there to close it. It takes a permit to borrow the file, and there
/// is only one, so the file is borrowed once and is not written to before or after that.
pub(crate) trait ClosingPointer: Sized {
    /// The permit to borrow the file.
    type Permit;

    /// The file that is pointed to.
    spec fn pointed(&self) -> PosixFile;

    /// Mutably borrows the file, unless it is borrowed.
    fn borrow_once(&mut self, permit: Self::Permit) -> (borrowed: Result<
        PosixFileRefMut<'_>,
        BorrowMutError,
    >)
        ensures
            final(self).pointed() == old(self).pointed(),
            borrowed matches Ok(borrowed) ==> borrowed.is_of(old(self).pointed()),
            borrowed is Err ==> borrow_refused(old(self).pointed().cell()),
    ;

    /// Lets go of the pointer.
    fn let_go(self, c: &mut CShadow)
        ensures
            pointer_gone(self.pointed(), old(c)@, final(c)@),
    ;
}

/// A file that is about to be closed.
pub(crate) struct ClosingFile<P: PipePointer> {
    file: PosixFile<P>,
}

/// The permit to borrow a file that is about to be closed.
pub(crate) struct ClosingPermit {

}

impl<P: PipePointer> FilePointer for PosixFile<P> {
    type Closing = ClosingFile<P>;

    open spec fn pointed(&self) -> PosixFile {
        PosixFile::<P>::pointed(*self)
    }

    fn to_close(self) -> (ClosingFile<P>, ClosingPermit) {
        let closing = ClosingFile { file: self };
        proof {
            assert(ClosingPointer::pointed(&closing) == PosixFile::<P>::pointed(self));
        }
        (closing, ClosingPermit {  })
    }

    fn let_go(self, c: &mut CShadow) {
        self.release(c)
    }
}

impl<P: PipePointer> ClosingPointer for ClosingFile<P> {
    type Permit = ClosingPermit;

    closed spec fn pointed(&self) -> PosixFile {
        PosixFile::<P>::pointed(self.file)
    }

    fn borrow_once(&mut self, permit: ClosingPermit) -> Result<
        PosixFileRefMut<'_>,
        BorrowMutError,
    > {
        self.file.borrow_to_close()
    }

    fn let_go(self, c: &mut CShadow) {
        self.file.release(c)
    }
}

/// What a descriptor needs of its pointer to the count of open descriptors in order to go away. No
/// further pointer to the count can be made through this, so how many there are when a descriptor
/// is closed does not depend on the one who counts.
pub(crate) trait CountPointer: Sized {
    /// The count that is pointed to.
    spec fn pointed(&self) -> AtomicBool;

    /// How many pointers to the count there are.
    fn pointers(&self) -> (number: usize)
        ensures
            number > 0,
            counted(self.pointed(), number),
    ;
}

impl CountPointer for Arc<AtomicBool> {
    open spec fn pointed(&self) -> AtomicBool {
        **self
    }

    fn pointers(&self) -> usize {
        arc_strong_count(self)
    }
}

/// An open descriptor of a file. A clone is a further open descriptor of the same file, with flags
/// of its own. What happens when a descriptor goes away is the same for every kind of pointers.
#[allow(private_bounds)]
pub struct Descriptor<F: FilePointer = PosixFile, C: CountPointer = Arc<AtomicBool>> {
    /// The file that this descriptor points to.
    file: F,
    /// Descriptor flags.
    flags: DescriptorFlags,
    /// A pointer to the file's count of how many open descriptors there are with reference to it.
    /// Since a reference to the file can be held by other objects like an epoll file, there can be
    /// more references to the file than open descriptors.
    open_count: C,
}

/// How a descriptor with these flags, of a file that is described by `file`, is described.
pub open spec fn descriptor_text(file: Seq<char>, flags: DescriptorFlags) -> Seq<char> {
    "Descriptor { file: "@ + file + ", flags: "@ + flags_text(flags.names()) + ", open_count: () }"@
}

/// A file is closed along with its last open descriptor.
pub open spec fn closes_file(open_descriptors: nat) -> bool {
    open_descriptors == 1
}

/// How many open descriptors there are when there are this many pointers to a file's count. One of
/// the pointers is the file's own.
pub open spec fn open_descriptors_of(pointers: usize) -> nat
    recommends
        pointers > 0,
{
    (pointers - 1) as nat
}

/// When all open descriptors of a file go away one after the other, the file is closed with the
/// last of them, if that one is closed, and with no other.
pub proof fn law_last_close_closes_file(opened: nat, gone_before: nat)
    requires
        gone_before < opened,
    ensures
        closes_file((opened - gone_before) as nat) <==> gone_before + 1 == opened,
{
}

/// What it means that a descriptor of `file` went away without closing it: nothing is queued, and
/// the descriptor's pointer to the file goes away.
pub open spec fn only_dropped(
    file: PosixFile,
    queue: Seq<Event>,
    c: CModel,
    queue_after: Seq<Event>,
    c_after: CModel,
) -> bool {
    &&& queue_after == queue
    &&& pointer_gone(file, c, c_after)
}

/// What it means that `file` was closed through a borrow before a descriptor of it went away: the
/// file is as it was, but closed; the events of its change are queued; and the descriptor's pointer
/// to the file goes away.
pub open spec fn closed_through(
    before: PosixFileRefMut<'_>,
    after: PosixFileRefMut<'_>,
    file: PosixFile,
    queue: Seq<Event>,
    c: CModel,
    queue_after: Seq<Event>,
    c_after: CModel,
) -> bool {
    let status = before.file().closed_status();
    &&& before.is_of(file)
    &&& after.is_of(file)
    &&& after.file() == before.file().closed()
    &&& queue_after == queue + before.file().events_of_change(status)
    &&& pointer_gone(file, before.file().c_after_change(status, c), c_after)
}

/// Closes a file that was to be borrowed, and gives the borrow back along with the result. If there
/// is only the error of the borrow, that is given back, and nothing else happens.
pub fn close_borrowed<'a>(
    borrowed: Result<PosixFileRefMut<'a>, BorrowMutError>,
    event_queue: &mut EventQueue,
    c: &mut CShadow,
) -> (closed: Result<(PosixFileRefMut<'a>, SyscallResult), BorrowMutError>)
    ensures
        match borrowed {
            Ok(before) => {
                let status = before.file().closed_status();
                &&& closed matches Ok((after, result))
                &&& result == SyscallResult::Ok(SysCallReg { as_i64: 0 })
                &&& after.same_file(&before)
                &&& after.file() == before.file().closed()
                &&& final(event_queue)@ == old(event_queue)@ + before.file().events_of_change(
                    status,
                )
                &&& final(c)@ == before.file().c_after_change(status, old(c)@)
            },
            Err(error) => {
                &&& closed matches Err(same)
                &&& same == error
                &&& final(event_queue)@ == old(event_queue)@
                &&& final(c)@ == old(c)@
            },
        },
{
    match borrowed {
        Ok(mut file) => {
            let result = file.close(event_queue, c);
            Ok((file, result))
        },
        Err(error) => Err(error),
    }
}

impl Clone for Descriptor {
    fn clone(&self) -> (descriptor: Descriptor)
        ensures
            descriptor.file() == self.file(),
            descriptor.flags() == self.flags(),
            descriptor.is_counted(),
    {
        proof {
            use_type_invariant(self);
        }
        Descriptor {
            file: self.file.clone(),
            flags: self.flags,
            open_count: arc_clone(&self.open_count),
        }
    }
}

#[allow(private_bounds)]
impl<F: FilePointer, C: CountPointer> Descriptor<F, C> {
    /// The file that the descriptor points to.
    pub closed spec fn file(&self) -> PosixFile {
        self.file.pointed()
    }

    /// The flags of the descriptor.
    pub closed spec fn flags(&self) -> DescriptorFlags {
        self.flags
    }

    /// The count that the descriptor is counted in.
    pub closed spec fn count(&self) -> AtomicBool {
        self.open_count.pointed()
    }

    /// The descriptor is counted among the open descriptors of its file.
    pub open spec fn is_counted(&self) -> bool {
        self.count() == self.file().count()
    }

    #[verifier::type_invariant]
    spec fn well_formed(&self) -> bool {
        self.is_counted()
    }

    /// The flags of the descriptor.
    pub fn get_flags(&self) -> (flags: DescriptorFlags)
        ensures
            flags == self.flags(),
    {
        self.flags
    }

    /// Replaces the flags of the descriptor.
    pub fn set_flags(&mut self, flags: DescriptorFlags)
        ensures
            final(self).flags() == flags,
            final(self).file() == old(self).file(),
            final(self).is_counted(),
    {
        proof {
            use_type_invariant(&*self);
        }
        self.flags = flags;
    }

    /// Closes the descriptor, and if this is the last descriptor pointing to its file, closes the
    /// file as well, which gives a result. A file that is borrowed cannot be closed: then there is
    /// an error, and the descriptor goes away without it.
    pub fn close(self, event_queue: &mut EventQueue, c: &mut CShadow) -> (closed: Result<
        Option<SyscallResult>,
        BorrowMutError,
    >)
        ensures
            exists|pointers: usize| #[trigger]
                counted(self.file().count(), pointers) && pointers > 0 && (closed == Ok::<
                    Option<SyscallResult>,
                    BorrowMutError,
                >(None) <==> !closes_file(open_descriptors_of(pointers))) && (closed == Ok::<
                    Option<SyscallResult>,
                    BorrowMutError,
                >(None) <==> pointers != 2),
            match closed {
                Ok(Some(result)) => {
                    &&& result == SyscallResult::Ok(SysCallReg { as_i64: 0 })
                    &&& exists|before: PosixFileRefMut<'_>, after: PosixFileRefMut<'_>|
                        has_resolved(after) && #[trigger] closed_through(
                            before,
                            after,
                            self.file(),
                            old(event_queue)@,
                            old(c)@,
                            final(event_queue)@,
                            final(c)@,
                        )
                },
                _ => (closed is Err ==> borrow_refused(self.file().cell())) && only_dropped(
                    self.file(),
                    old(event_queue)@,
                    old(c)@,
                    final(event_queue)@,
                    final(c)@,
                ),
            },
    {
        proof {
            use_type_invariant(&self);
        }
        // this isn't subject to race conditions since we should never access descriptors
        // from multiple threads at the same time
        let pointers: usize = self.open_count.pointers();
        proof {
            assert(counted(self.file().count(), pointers));
        }
        self.close_as_one_of(pointers - 1, event_queue, c)
    }

    /// Closes the descriptor, which is one of this many open descriptors of its file.
    pub fn close_as_one_of(
        self,
        open_descriptors: usize,
        event_queue: &mut EventQueue,
        c: &mut CShadow,
    ) -> (closed: Result<Option<SyscallResult>, BorrowMutError>)
        ensures
            closed == Ok::<Option<SyscallResult>, BorrowMutError>(None) <==> !closes_file(
                open_descriptors as nat,
            ),
            closed == Ok::<Option<SyscallResult>, BorrowMutError>(None) <==> open_descriptors != 1,
            match closed {
                Ok(Some(result)) => {
                    &&& result == SyscallResult::Ok(SysCallReg { as_i64: 0 })
                    &&& exists|before: PosixFileRefMut<'_>, after: PosixFileRefMut<'_>|
                        has_resolved(after) && #[trigger] closed_through(
                            before,
                            after,
                            self.file(),
                            old(event_queue)@,
                            old(c)@,
                            final(event_queue)@,
                            final(c)@,
                        )
                },
                _ => (closed is Err ==> borrow_refused(self.file().cell())) && only_dropped(
                    self.file(),
                    old(event_queue)@,
                    old(c)@,
                    final(event_queue)@,
                    final(c)@,
                ),
            },
    {
        if open_descriptors != 1 {
            self.release(c);
            return Ok(None);
        }
        let Descriptor { file, flags: _, open_count: _ } = self;
        let (mut file, permit) = file.to_close();
        let ghost mut before: Option<PosixFileRefMut<'_>> = None;
        let ghost mut after: Option<PosixFileRefMut<'_>> = None;
        let closed = {
            let borrowed = file.borrow_once(permit);
            proof {
                before = borrowed.ok();
            }
            match close_borrowed(borrowed, event_queue, c) {
                Ok((closed_file, result)) => {
                    proof {
                        // nothing is written through the borrow after this
                        assert(has_resolved(closed_file));
                        after = Some(closed_file);
                    }
                    Ok(Some(result))
                },
                Err(error) => Err(error),
            }
        };
        file.let_go(c);
        proof {
            if closed is Ok {
                assert(closed_through(
                    before->0,
                    after->0,
                    self.file(),
                    old(event_queue)@,
                    old(c)@,
                    event_queue@,
                    c@,
                ));
            }
        }
        closed
    }

    /// Lets the descriptor go away without closing its file.
    pub fn release(self, c: &mut CShadow)
        ensures
            pointer_gone(self.file(), old(c)@, final(c)@),
    {
        self.file.let_go(c)
    }
}

impl Descriptor {
    /// A further open descriptor of a file. It has no flags.
    pub fn new(file: PosixFile) -> (descriptor: Descriptor)
        ensures
            descriptor.file() == file,
            descriptor.flags().value() == 0,
            descriptor.is_counted(),
    {
        let open_count = file.share_count();
        Descriptor { file, flags: DescriptorFlags::empty(), open_count }
    }

    /// The file that the descriptor points to.
    pub fn get_file(&self) -> (file: &PosixFile)
        ensures
            *file == self.file(),
    {
        &self.file
    }

    /// `text` describes the descriptor.
    pub open spec fn is_described_by(&self, text: Seq<char>) -> bool {
        exists|file: Seq<char>| #[trigger]
            self.file().is_described_by(file) && text == descriptor_text(file, self.flags())
    }

    /// Describes the descriptor, given what describes its file.
    pub fn describe(file: &str, flags: DescriptorFlags) -> (text: String)
        ensures
            text@ == descriptor_text(file@, flags),
    {
        let mut text = String::from_str("Descriptor { file: ");
        text.append(file);
        text.append(", flags: ");
        text.append(flags.debug_string().as_str());
        text.append(", open_count: () }");
        text
    }

    /// Describes the descriptor.
    pub fn debug_string(&self) -> (text: String)
        ensures
            self.is_described_by(text@),
    {
        let file = self.file.debug_string();
        proof {
            assert(self.file().is_described_by(file@));
        }
        Self::describe(file.as_str(), self.flags)
    }
}

/// An address of the C side that any thread may have.
#[derive(Debug)]
struct SyncSendPointer(usize);

/// An owned reference to a descriptor of the C side. Letting go of it decrements the descriptor's
/// reference count.
#[derive(Debug)]
pub struct OwnedLegacyDescriptor(SyncSendPointer);

/// How an owned reference to the descriptor at `ptr` is described.
pub open spec fn owned_text(ptr: usize) -> Seq<char> {
    "OwnedLegacyDescriptor(SyncSendPointer("@ + address_text(ptr) + "))"@
}

impl OwnedLegacyDescriptor {
    /// The address of the descriptor.
    pub closed spec fn address(&self) -> usize {
        (self.0).0
    }

    /// Takes over a reference to the descriptor at `ptr`. Its reference count is not incremented,
    /// but it will be decremented when the reference is let go of.
    pub fn new(ptr: usize) -> (descriptor: OwnedLegacyDescriptor)
        ensures
            descriptor.address() == ptr,
    {
        OwnedLegacyDescriptor(SyncSendPointer(ptr))
    }

    /// The address of the descriptor.
    pub fn ptr(&self) -> (ptr: usize)
        ensures
            ptr == self.address(),
    {
        (self.0).0
    }

    /// Describes the reference. The address is in hexadecimal, as a pointer reads.
    pub fn debug_string(&self) -> (text: String)
        ensures
            text@ == owned_text(self.address()),
    {
        let mut text = String::from_str("OwnedLegacyDescriptor(SyncSendPointer(");
        text.append(address_string(self.ptr()).as_str());
        text.append("))");
        text
    }

    /// Lets go of the reference.
    pub fn release(self, c: &mut CShadow)
        ensures
            final(c)@ == old(c)@.called(CCall::DescriptorUnref { ptr: self.address() }),
    {
        c.call(CCall::DescriptorUnref { ptr: self.ptr() })
    }
}

/// A descriptor of either kind. It has no clone, since a descriptor of the C side has a reference
/// count.
pub enum CompatDescriptor {
    New(Descriptor),
    Legacy(OwnedLegacyDescriptor),
}

// will not compile if `CompatDescriptor` is not Send + Sync
impl IsSend for CompatDescriptor {

}

impl IsSync for CompatDescriptor {

}

impl CompatDescriptor {
    /// The descriptor is the one that the C side has at `ptr`.
    pub open spec fn is_legacy(self, ptr: usize) -> bool {
        self matches CompatDescriptor::Legacy(d) && d.address() == ptr
    }

    /// The address of a descriptor that the C side owns, and zero for any other.
    pub open spec fn legacy_address(self) -> usize {
        match self {
            CompatDescriptor::Legacy(d) => d.address(),
            CompatDescriptor::New(_) => 0,
        }
    }

    /// What becomes of the C side when the descriptor goes away. One that the C side owns is
    /// unreferenced there; with any other, a pointer to its file goes away.
    pub open spec fn gone(self, c: CModel, c_after: CModel) -> bool {
        match self {
            CompatDescriptor::Legacy(d) => c_after == c.called(
                CCall::DescriptorUnref { ptr: d.address() },
            ),
            CompatDescriptor::New(d) => pointer_gone(d.file(), c, c_after),
        }
    }

    /// `text` describes the descriptor.
    pub open spec fn is_described_by(self, text: Seq<char>) -> bool {
        match self {
            CompatDescriptor::Legacy(d) => text == "Legacy("@ + owned_text(d.address()) + ")"@,
            CompatDescriptor::New(d) => exists|new: Seq<char>| #[trigger]
                d.is_described_by(new) && text == "New("@ + new + ")"@,
        }
    }

    /// Describes the descriptor.
    pub fn debug_string(&self) -> (text: String)
        ensures
            self.is_described_by(text@),
    {
        match self {
            CompatDescriptor::Legacy(d) => {
                let mut text = String::from_str("Legacy(");
                text.append(d.debug_string().as_str());
                text.append(")");
                text
            },
            CompatDescriptor::New(d) => {
                let new = d.debug_string();
                let mut text = String::from_str("New(");
                text.append(new.as_str());
                text.append(")");
                proof {
                    assert(d.is_described_by(new@));
                }
                text
            },
        }
    }

    /// Updates the handle of the descriptor. Nothing happens for one that the C side does not own,
    /// since such a descriptor does not store its handle. One that it does own takes a handle that
    /// a C `int` can hold.
    pub fn set_handle(&mut self, handle: u32, c: &mut CShadow)
        requires
            *old(self) is Legacy ==> handle <= i32::MAX,
        ensures
            *final(self) == *old(self),
            final(c)@ == match *old(self) {
                CompatDescriptor::Legacy(d) => old(c)@.called(
                    CCall::DescriptorSetHandle { ptr: d.address(), handle: handle as libc::c_int },
                ),
                CompatDescriptor::New(_) => old(c)@,
            },
    {
        if let CompatDescriptor::Legacy(d) = self {
            c.call(CCall::DescriptorSetHandle { ptr: d.ptr(), handle: handle as libc::c_int });
        }
        // new descriptor types don't store their file handle, so do nothing

    }

    /// Lets the descriptor go away. One that the C side owns has its reference count decremented.
    pub fn release(self, c: &mut CShadow)
        ensures
            self.gone(old(c)@, final(c)@),
    {
        match self {
            CompatDescriptor::New(d) => d.release(c),
            CompatDescriptor::Legacy(d) => d.release(c),
        }
    }
}

/// A descriptor that was made for one of the C side gives the same address back, and when it goes
/// away, the one of the C side is unreferenced once and nothing else happens.
pub proof fn law_legacy_descriptor_is_handed_over(
    descriptor: CompatDescriptor,
    ptr: usize,
    c: CModel,
    c_after: CModel,
)
    requires
        descriptor.is_legacy(ptr),
        descriptor.gone(c, c_after),
    ensures
        descriptor.legacy_address() == ptr,
        c_after == c.called(CCall::DescriptorUnref { ptr }),
{
}

/// A descriptor is described by its file and its flags, and a reference to a descriptor of the C
/// side by the address.
pub proof fn law_descriptor_text(file: Seq<char>, flags: DescriptorFlags, ptr: usize)
    ensures
        descriptor_text(file, flags) == "Descriptor { file: "@ + file + ", flags: "@ + flags_text(
            flags.names(),
        ) + ", open_count: () }"@,
        owned_text(ptr) == "OwnedLegacyDescriptor(SyncSendPointer("@ + address_text(ptr) + "))"@,
{
}

/// A descriptor of either kind is described by its kind and by what describes it.
pub proof fn law_described_descriptor(descriptor: CompatDescriptor, text: Seq<char>)
    requires
        descriptor.is_described_by(text),
    ensures
        descriptor matches CompatDescriptor::Legacy(d) ==> text == "Legacy("@ + owned_text(
            d.address(),
        ) + ")"@,
        descriptor matches CompatDescriptor::New(d) ==> exists|file: Seq<char>| #[trigger]
            d.file().is_described_by(file) && text == "New("@ + descriptor_text(file, d.flags())
                + ")"@,
{
    if let CompatDescriptor::New(d) = descriptor {
        let new = choose|new: Seq<char>| #[trigger]
            d.is_described_by(new) && text == "New("@ + new + ")"@;
        let file = choose|file: Seq<char>| #[trigger]
            d.file().is_described_by(file) && new == descriptor_text(file, d.flags());
        assert(d.file().is_described_by(file) && text == "New("@ + descriptor_text(file, d.flags())
            + ")"@);
    }
}

} // verus!
