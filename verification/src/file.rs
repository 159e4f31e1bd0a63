//! Files, and the borrows through which they are looked at and changed.

use crate::cshadow::CModel;
use crate::cshadow::CShadow;
use crate::event_queue::all_released;
use crate::event_queue::EventQueue;
use crate::flags::FileFlags;
use crate::flags::FileStatus;
use crate::pipe::PipeFile;
use crate::pipe::PipeModel;
use crate::shared::arc_addresses;
use crate::shared::arc_clone;
use crate::shared::arc_into_inner;
use crate::shared::borrow_refused;
use crate::shared::contents;
use crate::shared::contents_mut;
use crate::shared::contents_of_mut;
use crate::shared::lay_at;
use crate::shared::pointed_to;
use crate::shared::ref_cell;
use crate::shared::ref_contents;
use crate::shared::ref_mut_cell;
use crate::shared::ref_mut_contents;
use crate::shared::try_borrow;
use crate::shared::try_borrow_mut;
use crate::status_source::legacy_added;
use crate::status_source::legacy_released;
use crate::status_source::listens;
use crate::status_source::no_repeats;
use crate::status_source::without_legacy;
use crate::syscall::SysCallReg;
use crate::syscall::SyscallResult;
use crate::text::flags_text;
use atomic_refcell::AtomicRef;
use atomic_refcell::AtomicRefCell;
use atomic_refcell::AtomicRefMut;
use atomic_refcell::BorrowError;
use atomic_refcell::BorrowMutError;
use std::sync::atomic::AtomicBool;
use std::sync::Arc;
use vstd::prelude::*;

verus! {

/// A trait we can use as a compile-time check to make sure that an object is Send.
pub(crate) trait IsSend: Send {

}

/// A trait we can use as a compile-time check to make sure that an object is Sync.
pub(crate) trait IsSync: Sync {

}

/// An end of a pipe, with the count of the open descriptors that point to it.
pub struct CountedPipe {
    cell: AtomicRefCell<PipeFile>,
    /// Each open descriptor has a pointer to this as well, and nothing else has. What they point to
    /// is never read: it is there to tell one count from another.
    open_count: Arc<AtomicBool>,
}

impl CountedPipe {
    /// The cell that the pipe is in.
    pub closed spec fn cell(&self) -> AtomicRefCell<PipeFile> {
        self.cell
    }

    /// The count of the open descriptors.
    pub closed spec fn count(&self) -> AtomicBool {
        *self.open_count
    }
}

/// Only the pointers of this crate are pointers to pipes.
pub(crate) trait PipePointerHere {

}

impl PipePointerHere for Arc<CountedPipe> {

}

/// What a file needs of its pointer to a pipe in order to let go of it. No further pointer to the
/// pipe can be made through this, so whether it is the only one does not depend on the one who lets
/// go.
#[allow(private_bounds)]
pub trait PipePointer: Sized + PipePointerHere {
    /// The pointer as such.
    spec fn pointer(&self) -> Arc<CountedPipe>;

    /// Mutably borrows the pipe, unless it is borrowed.
    fn borrow_pipe_mut(&self) -> (borrowed: Result<AtomicRefMut<'_, PipeFile>, BorrowMutError>)
        ensures
            borrowed matches Ok(borrowed) ==> ref_mut_cell(borrowed) == self.pointer().cell(),
            borrowed is Err ==> borrow_refused(self.pointer().cell()),
    ;

    /// Lets go of the pointer, which gives the pipe if it was the only one. It was not if there is
    /// another one to the same pipe in `beside`.
    fn into_pipe(self, beside: Option<&Self>) -> (pipe: Option<CountedPipe>)
        ensures
            pipe matches Some(pipe) ==> pipe == *self.pointer(),
            pipe is Some ==> pointed_to(self.pointer().cell(), 1),
            pipe is None ==> exists|number: usize|
                number > 1 && pointed_to(self.pointer().cell(), number),
            pipe is Some ==> (beside matches Some(other) ==> *other.pointer() != *self.pointer()),
    ;
}

impl PipePointer for Arc<CountedPipe> {
    open spec fn pointer(&self) -> Arc<CountedPipe> {
        *self
    }

    fn borrow_pipe_mut(&self) -> Result<AtomicRefMut<'_, PipeFile>, BorrowMutError> {
        try_borrow_mut(&self.cell)
    }

    fn into_pipe(self, beside: Option<&Self>) -> Option<CountedPipe> {
        let ghost cell = self.pointer().cell();
        let pipe = arc_into_inner(self, beside);
        proof {
            if pipe is None {
                let number: usize = choose|number: usize| number > 1 && pointed_to(cell, number);
                assert(pointed_to(self.pointer().cell(), number));
            }
        }
        pipe
    }
}

/// A POSIX description, or a Linux `struct file`. A clone is the same file. What happens when a
/// pointer to a file goes away is the same for every kind of pointer.
pub enum PosixFile<P: PipePointer = Arc<CountedPipe>> {
    Pipe(P),
}

// will not compile if `PosixFile` is not Send + Sync
impl IsSend for PosixFile {

}

impl IsSync for PosixFile {

}

/// A borrow of a file.
pub enum PosixFileRef<'a> {
    Pipe(AtomicRef<'a, PipeFile>),
}

/// A mutable borrow of a file.
pub enum PosixFileRefMut<'a> {
    Pipe(AtomicRefMut<'a, PipeFile>),
}

/// How a file with this status and these flags is described.
pub open spec fn file_text(file: PipeModel) -> Seq<char> {
    "Pipe"@ + "(status: "@ + flags_text(file.status.names()) + ", flags: "@ + flags_text(
        file.flags.names(),
    ) + ")"@
}

/// How a file that cannot be borrowed is described.
pub open spec fn borrowed_file_text() -> Seq<char> {
    "Pipe"@ + "(already borrowed)"@
}

/// Describes a file with this status and these flags.
fn describe(status: FileStatus, flags: FileFlags) -> (text: String)
    ensures
        text@ == "Pipe"@ + "(status: "@ + flags_text(status.names()) + ", flags: "@ + flags_text(
            flags.names(),
        ) + ")"@,
{
    let mut text = String::from_str("Pipe");
    text.append("(status: ");
    text.append(status.debug_string().as_str());
    text.append(", flags: ");
    text.append(flags.debug_string().as_str());
    text.append(")");
    text
}

impl Clone for PosixFile {
    fn clone(&self) -> (file: PosixFile)
        ensures
            file == *self,
    {
        match self {
            PosixFile::Pipe(f) => PosixFile::Pipe(arc_clone(f)),
        }
    }
}

impl PosixFile {
    /// The cell that the file is in.
    pub open spec fn cell(self) -> AtomicRefCell<PipeFile> {
        match self {
            PosixFile::Pipe(f) => f.cell(),
        }
    }

    /// The count of the open descriptors that point to the file.
    pub open spec fn count(self) -> AtomicBool {
        match self {
            PosixFile::Pipe(f) => f.count(),
        }
    }

    /// A file that no descriptor points to yet.
    pub fn pipe(cell: AtomicRefCell<PipeFile>) -> (file: PosixFile)
        ensures
            file.cell() == cell,
    {
        PosixFile::Pipe(
            Arc::new(CountedPipe { cell, open_count: Arc::new(AtomicBool::new(false)) }),
        )
    }

    /// A further pointer to the count of the open descriptors.
    pub(crate) fn share_count(&self) -> (count: Arc<AtomicBool>)
        ensures
            *count == self.count(),
    {
        match self {
            PosixFile::Pipe(f) => arc_clone(&f.open_count),
        }
    }

    /// Borrows the file, unless it is mutably borrowed.
    pub fn try_borrow(&self) -> (borrowed: Result<PosixFileRef<'_>, BorrowError>)
        ensures
            borrowed matches Ok(borrowed) ==> borrowed.is_of(*self),
            borrowed is Err ==> borrow_refused(self.cell()),
    {
        match self {
            PosixFile::Pipe(f) => PosixFileRef::of_pipe(try_borrow(&f.cell)),
        }
    }

    /// Mutably borrows the file, unless it is borrowed.
    pub fn try_borrow_mut(&self) -> (borrowed: Result<PosixFileRefMut<'_>, BorrowMutError>)
        ensures
            borrowed matches Ok(borrowed) ==> borrowed.is_of(*self),
            borrowed is Err ==> borrow_refused(self.cell()),
    {
        match self {
            PosixFile::Pipe(f) => PosixFileRefMut::of_pipe(try_borrow_mut(&f.cell)),
        }
    }

    /// `text` describes the file: as what a borrow of it shows, or if that was refused, as one that
    /// cannot be borrowed.
    pub open spec fn is_described_by(self, text: Seq<char>) -> bool {
        ||| text == borrowed_file_text() && borrow_refused(self.cell())
        ||| exists|file: PosixFileRef<'_>| #[trigger]
            file.is_of(self) && text == file_text(file.file())
    }

    /// A number by which to tell files apart: that of a file and of its clones is the same as long
    /// as one of them is around. It is an address.
    pub fn canonical_handle(&self) -> (handle: usize)
        ensures
            handle != 0,
            lay_at(self.cell(), handle),
    {
        self.canonical_handles(self).0
    }

    /// The canonical handles of two files. They are equal if and only if the files are the same.
    pub fn canonical_handles(&self, other: &PosixFile) -> (handles: (usize, usize))
        ensures
            handles.0 != 0,
            handles.1 != 0,
            handles.0 == handles.1 <==> *self == *other,
            lay_at(self.cell(), handles.0),
            lay_at(other.cell(), handles.1),
    {
        match (self, other) {
            (PosixFile::Pipe(f), PosixFile::Pipe(g)) => arc_addresses(f, g),
        }
    }

    /// Describes the file that was to be borrowed.
    pub fn describe_borrowed(borrowed: &Result<PosixFileRef<'_>, BorrowError>) -> (text: String)
        ensures
            text@ == match borrowed {
                Ok(file) => file_text(file.file()),
                Err(_) => borrowed_file_text(),
            },
    {
        match borrowed {
            Ok(file) => file.debug_string(),
            Err(_) => {
                let mut text = String::from_str("Pipe");
                text.append("(already borrowed)");
                text
            },
        }
    }

    /// Describes the file, as far as it can be borrowed.
    pub fn debug_string(&self) -> (text: String)
        ensures
            self.is_described_by(text@),
    {
        Self::describe_borrowed(&self.try_borrow())
    }
}

impl<P: PipePointer> PosixFile<P> {
    /// The file that is pointed to.
    pub open spec fn pointed(self) -> PosixFile {
        match self {
            PosixFile::Pipe(f) => PosixFile::Pipe(f.pointer()),
        }
    }

    /// Mutably borrows the file, unless it is borrowed.
    pub(crate) fn borrow_to_close(&self) -> (borrowed: Result<
        PosixFileRefMut<'_>,
        BorrowMutError,
    >)
        ensures
            borrowed matches Ok(borrowed) ==> borrowed.is_of(self.pointed()),
            borrowed is Err ==> borrow_refused(self.pointed().cell()),
    {
        match self {
            PosixFile::Pipe(f) => PosixFileRefMut::of_pipe(f.borrow_pipe_mut()),
        }
    }

    /// Lets go of this pointer to the file. If it was the only one, the file goes away, and its
    /// listeners are let go of.
    pub fn release(self, c: &mut CShadow)
        ensures
            pointer_gone(self.pointed(), old(c)@, final(c)@),
    {
        match self {
            PosixFile::Pipe(f) => {
                let pipe = f.into_pipe(None);
                proof {
                    lemma_pointers_found(self.pointed(), pipe);
                }
                release_pipe(pipe, c)
            },
        }
    }

    /// Lets go of this pointer to the file while there is another one. If that points to the same
    /// file, nothing else happens.
    pub fn release_beside(self, other: &PosixFile<P>, c: &mut CShadow)
        ensures
            pointer_gone(self.pointed(), old(c)@, final(c)@),
            other.pointed() == self.pointed() ==> final(c)@ == old(c)@,
    {
        match (self, other) {
            (PosixFile::Pipe(f), PosixFile::Pipe(g)) => {
                let pipe = f.into_pipe(Some(g));
                proof {
                    lemma_pointers_found(self.pointed(), pipe);
                }
                release_pipe(pipe, c)
            },
        }
    }
}

/// A file goes away with the only pointer to it.
pub open spec fn goes_away(pointers: nat) -> bool {
    pointers == 1
}

/// What it means that one of this many pointers to a file went away. As long as there are others,
/// nothing happens. With the only one, the file goes away.
pub open spec fn let_go(file: PosixFile, pointers: nat, c: CModel, c_after: CModel) -> bool {
    if goes_away(pointers) {
        file_gone(file.cell(), c, c_after)
    } else {
        c_after == c
    }
}

/// What it means that a pointer to a file went away: it was one of as many as there were.
pub open spec fn pointer_gone(file: PosixFile, c: CModel, c_after: CModel) -> bool {
    exists|number: usize| #[trigger]
        pointed_to(file.cell(), number) && number > 0 && let_go(file, number as nat, c, c_after)
}

/// What it means that the file in a cell went away: the listeners that a borrow of it shows were
/// let go of. They stay out of reach only if the borrow was refused.
pub open spec fn file_gone(cell: AtomicRefCell<PipeFile>, c: CModel, c_after: CModel) -> bool {
    ||| exists|borrowed: PosixFileRef<'_>| #[trigger]
        borrowed.cell() == cell && c_after == all_released(borrowed.file().listeners, c)
    ||| c_after == c && borrow_refused(cell)
}

/// If a pointer to the file was let go of and gave this back, it was one of as many as that says.
proof fn lemma_pointers_found(file: PosixFile, pipe: Option<CountedPipe>)
    requires
        pipe matches Some(pipe) ==> pipe.cell() == file.cell(),
        pipe is Some ==> pointed_to(file.cell(), 1),
        pipe is None ==> exists|number: usize| number > 1 && pointed_to(file.cell(), number),
    ensures
        exists|number: usize| #[trigger]
            pointed_to(file.cell(), number) && number > 0 && (goes_away(number as nat) <==> pipe
                is Some),
{
    if pipe is Some {
        assert(pointed_to(file.cell(), 1));
    } else {
        let number: usize = choose|number: usize| number > 1 && pointed_to(file.cell(), number);
        assert(pointed_to(file.cell(), number));
    }
}

/// Does what is left to do when a pointer to a file was let go of. If it was the only one, there is
/// the pipe itself, which goes away here; otherwise nothing happens. Listeners stay out of reach if
/// a mutable borrow of the pipe was forgotten.
pub fn release_pipe(pipe: Option<CountedPipe>, c: &mut CShadow)
    ensures
        match pipe {
            Some(pipe) => file_gone(pipe.cell(), old(c)@, final(c)@),
            None => final(c)@ == old(c)@,
        },
{
    if let Some(pipe) = pipe {
        let borrowed = PosixFileRef::of_pipe(try_borrow(&pipe.cell));
        give_back_listeners_of_borrowed(&borrowed, c);
        proof {
            if borrowed is Ok {
                assert(borrowed->Ok_0.cell() == pipe.cell());
            }
        }
    }
}

/// Lets go of the listeners of a file that was to be borrowed and is about to go away. If there is
/// only the error of the borrow, nothing happens.
pub fn give_back_listeners_of_borrowed(
    borrowed: &Result<PosixFileRef<'_>, BorrowError>,
    c: &mut CShadow,
)
    ensures
        final(c)@ == match borrowed {
            Ok(file) => all_released(file.file().listeners, old(c)@),
            Err(_) => old(c)@,
        },
{
    if let Ok(file) = borrowed {
        file.give_back_listeners(c);
    }
}

impl<'a> PosixFileRef<'a> {
    /// What is borrowed.
    pub open spec fn file(&self) -> PipeModel {
        match self {
            PosixFileRef::Pipe(f) => ref_contents(*f)@,
        }
    }

    /// The cell that is borrowed.
    pub open spec fn cell(&self) -> AtomicRefCell<PipeFile> {
        match self {
            PosixFileRef::Pipe(f) => ref_cell(*f),
        }
    }

    /// It is a borrow of this file.
    pub open spec fn is_of(&self, file: PosixFile) -> bool {
        self.cell() == file.cell()
    }

    /// The borrow of a file that follows from that of its pipe: it succeeds if and only if that
    /// one did, and has the same error otherwise.
    pub fn of_pipe(pipe: Result<AtomicRef<'a, PipeFile>, BorrowError>) -> (borrowed: Result<
        PosixFileRef<'a>,
        BorrowError,
    >)
        ensures
            borrowed == match pipe {
                Ok(f) => Ok(PosixFileRef::Pipe(f)),
                Err(error) => Err(error),
            },
    {
        match pipe {
            Ok(f) => Ok(PosixFileRef::Pipe(f)),
            Err(error) => Err(error),
        }
    }

    /// The status of the file.
    pub fn status(&self) -> (status: FileStatus)
        ensures
            status == self.file().status,
    {
        match self {
            PosixFileRef::Pipe(f) => contents(f).status(),
        }
    }

    /// The flags of the file.
    pub fn get_flags(&self) -> (flags: FileFlags)
        ensures
            flags == self.file().flags,
    {
        match self {
            PosixFileRef::Pipe(f) => contents(f).get_flags(),
        }
    }

    /// Lets go of the listeners of the file, in the order in which they were added. The file is
    /// about to go away.
    fn give_back_listeners(&self, c: &mut CShadow)
        ensures
            final(c)@ == all_released(self.file().listeners, old(c)@),
    {
        match self {
            PosixFileRef::Pipe(f) => contents(f).give_back_listeners(c),
        }
    }

    /// Describes the file.
    pub fn debug_string(&self) -> (text: String)
        ensures
            text@ == file_text(self.file()),
    {
        describe(self.status(), self.get_flags())
    }
}

impl<'a> PosixFileRefMut<'a> {
    /// What is borrowed.
    pub open spec fn file(&self) -> PipeModel {
        match self {
            PosixFileRefMut::Pipe(f) => ref_mut_contents(*f)@,
        }
    }

    /// It is a borrow of this file.
    pub open spec fn is_of(&self, file: PosixFile) -> bool {
        match (self, file) {
            (PosixFileRefMut::Pipe(f), PosixFile::Pipe(g)) => ref_mut_cell(*f) == g.cell(),
        }
    }

    /// It is a borrow of the same file as `other`.
    pub open spec fn same_file(&self, other: &PosixFileRefMut<'a>) -> bool {
        match (self, other) {
            (PosixFileRefMut::Pipe(f), PosixFileRefMut::Pipe(g)) => ref_mut_cell(*f)
                == ref_mut_cell(*g),
        }
    }

    /// The mutable borrow of a file that follows from that of its pipe: it succeeds if and only if
    /// that one did, and has the same error otherwise.
    pub fn of_pipe(pipe: Result<AtomicRefMut<'a, PipeFile>, BorrowMutError>) -> (borrowed: Result<
        PosixFileRefMut<'a>,
        BorrowMutError,
    >)
        ensures
            borrowed == match pipe {
                Ok(f) => Ok(PosixFileRefMut::Pipe(f)),
                Err(error) => Err(error),
            },
    {
        match pipe {
            Ok(f) => Ok(PosixFileRefMut::Pipe(f)),
            Err(error) => Err(error),
        }
    }

    /// The status of the file.
    pub fn status(&self) -> (status: FileStatus)
        ensures
            status == self.file().status,
    {
        match self {
            PosixFileRefMut::Pipe(f) => contents_of_mut(f).status(),
        }
    }

    /// The flags of the file.
    pub fn get_flags(&self) -> (flags: FileFlags)
        ensures
            flags == self.file().flags,
    {
        match self {
            PosixFileRefMut::Pipe(f) => contents_of_mut(f).get_flags(),
        }
    }

    /// Closes the file.
    pub fn close(&mut self, event_queue: &mut EventQueue, c: &mut CShadow) -> (result:
        SyscallResult)
        ensures
            result == SyscallResult::Ok(SysCallReg { as_i64: 0 }),
            final(self).file() == old(self).file().closed(),
            final(self).same_file(old(self)),
            final(event_queue)@ == old(event_queue)@ + old(self).file().events_of_change(
                old(self).file().closed_status(),
            ),
            final(c)@ == old(self).file().c_after_change(
                old(self).file().closed_status(),
                old(c)@,
            ),
    {
        match self {
            PosixFileRefMut::Pipe(f) => contents_mut(f).close(event_queue, c),
        }
    }

    /// Replaces the flags of the file.
    pub fn set_flags(&mut self, flags: FileFlags)
        ensures
            final(self).file() == (PipeModel { flags, ..old(self).file() }),
            final(self).same_file(old(self)),
    {
        match self {
            PosixFileRefMut::Pipe(f) => contents_mut(f).set_flags(flags),
        }
    }

    /// Adds a C status listener to the file. It must not be null.
    pub fn add_legacy_listener(&mut self, ptr: usize, c: &mut CShadow)
        requires
            ptr != 0,
        ensures
            legacy_added(
                old(self).file().listeners,
                old(c)@,
                ptr,
                final(self).file().listeners,
                final(c)@,
            ),
            final(self).file() == (PipeModel {
                listeners: final(self).file().listeners,
                ..old(self).file()
            }),
            no_repeats(final(self).file().listeners),
            final(self).same_file(old(self)),
    {
        match self {
            PosixFileRefMut::Pipe(f) => contents_mut(f).add_legacy_listener(ptr, c),
        }
    }

    /// Removes a C status listener from the file. It must not be null.
    pub fn remove_legacy_listener(&mut self, ptr: usize, c: &mut CShadow)
        requires
            ptr != 0,
        ensures
            final(self).file() == (PipeModel {
                listeners: without_legacy(old(self).file().listeners, ptr),
                ..old(self).file()
            }),
            final(c)@ == legacy_released(old(self).file().listeners, ptr, old(c)@),
            !listens(final(self).file().listeners, ptr),
            no_repeats(final(self).file().listeners),
            final(self).same_file(old(self)),
    {
        match self {
            PosixFileRefMut::Pipe(f) => contents_mut(f).remove_legacy_listener(ptr, c),
        }
    }

    /// Describes the file.
    pub fn debug_string(&self) -> (text: String)
        ensures
            text@ == file_text(self.file()),
    {
        describe(self.status(), self.get_flags())
    }
}

/// A file is described by its status and its flags, and one that cannot be borrowed by the reason.
pub proof fn law_file_text(file: PipeModel)
    ensures
        file_text(file) == "Pipe(status: "@ + flags_text(file.status.names()) + ", flags: "@
            + flags_text(file.flags.names()) + ")"@,
        borrowed_file_text() == "Pipe(already borrowed)"@,
{
    reveal_strlit("Pipe");
    reveal_strlit("(status: ");
    reveal_strlit("Pipe(status: ");
    reveal_strlit("(already borrowed)");
    reveal_strlit("Pipe(already borrowed)");
    assert("Pipe"@ + "(status: "@ =~= "Pipe(status: "@);
    assert("Pipe"@ + "(already borrowed)"@ =~= "Pipe(already borrowed)"@);
}

/// A file is described as what a borrow of it shows, and in no other way unless a borrow was
/// refused.
pub proof fn law_described_file(file: PosixFile, text: Seq<char>)
    requires
        file.is_described_by(text),
    ensures
        !borrow_refused(file.cell()) ==> exists|borrowed: PosixFileRef<'_>| #[trigger]
            borrowed.is_of(file) && text == file_text(borrowed.file()),
        text == borrowed_file_text() || exists|borrowed: PosixFileRef<'_>| #[trigger]
            borrowed.is_of(file) && text == file_text(borrowed.file()),
{
}

} // verus!
