//! What the C side can do with descriptors and files.
//!
//! The functions have the names under which the C side knows them. An address of the C side is a
//! number, and zero is its null pointer; a pointer of the C side to an object of the library is a
//! reference here, or an option where it can be null.

use crate::cshadow::CShadow;
use crate::descriptor::CompatDescriptor;
use crate::descriptor::OwnedLegacyDescriptor;
use crate::file::pointer_gone;
use crate::file::PipePointer;
use crate::file::PosixFile;
use crate::file::PosixFileRef;
use crate::file::PosixFileRefMut;
use crate::flags::Status;
use crate::flags::FILE_STATUS_ALL;
use crate::pipe::PipeModel;
use crate::shared::borrow_refused;
use crate::shared::lay_at;
use crate::status_source::legacy_added;
use crate::status_source::legacy_released;
use crate::status_source::listens;
use crate::status_source::no_repeats;
use crate::status_source::without_legacy;
use atomic_refcell::BorrowError;
use atomic_refcell::BorrowMutError;
use vstd::prelude::*;

verus! {

/// Only references to the files of this crate are lent.
pub(crate) trait LentFileHere {

}

impl LentFileHere for &PosixFile {

}

/// A reference to a posix file object that is good for one borrow, so whoever is lent the file
/// looks at it or changes it once, and no borrow of theirs stands in the way of another.
#[allow(private_bounds)]
pub trait LentFile<'a>: Sized + LentFileHere {
    /// The file that is lent.
    spec fn lent(&self) -> PosixFile;

    /// Borrows the file, unless it is mutably borrowed.
    fn borrow_once(self) -> (borrowed: Result<PosixFileRef<'a>, BorrowError>)
        ensures
            borrowed matches Ok(borrowed) ==> borrowed.is_of(self.lent()),
            borrowed is Err ==> borrow_refused(self.lent().cell()),
    ;

    /// Mutably borrows the file, unless it is borrowed.
    fn borrow_mut_once(self) -> (borrowed: Result<PosixFileRefMut<'a>, BorrowMutError>)
        ensures
            borrowed matches Ok(borrowed) ==> borrowed.is_of(self.lent()),
            borrowed is Err ==> borrow_refused(self.lent().cell()),
    ;
}

impl<'a> LentFile<'a> for &'a PosixFile {
    open spec fn lent(&self) -> PosixFile {
        **self
    }

    fn borrow_once(self) -> Result<PosixFileRef<'a>, BorrowError> {
        self.try_borrow()
    }

    fn borrow_mut_once(self) -> Result<PosixFileRefMut<'a>, BorrowMutError> {
        self.try_borrow_mut()
    }
}

/// The new compat descriptor takes ownership of the reference to the legacy descriptor and does
/// not increment its ref count, but will decrement the ref count when this compat descriptor is
/// freed.
#[allow(non_snake_case)]
pub fn compatdescriptor_fromLegacy(legacy_descriptor: usize) -> (descriptor: CompatDescriptor)
    requires
        legacy_descriptor != 0,
    ensures
        descriptor.is_legacy(legacy_descriptor),
{
    CompatDescriptor::Legacy(OwnedLegacyDescriptor::new(legacy_descriptor))
}

/// If the compat descriptor is a legacy descriptor, returns the address of the legacy descriptor
/// object. Otherwise returns zero. The legacy descriptor's ref count is not modified, so the
/// address must not outlive the lifetime of the compat descriptor.
#[allow(non_snake_case)]
pub fn compatdescriptor_asLegacy(descriptor: &CompatDescriptor) -> (legacy_descriptor: usize)
    ensures
        legacy_descriptor == descriptor.legacy_address(),
{
    if let CompatDescriptor::Legacy(d) = descriptor {
        d.ptr()
    } else {
        0
    }
}

/// Frees the compat descriptor, if there is one. This decrements a legacy descriptor's ref count.
pub fn compatdescriptor_free(descriptor: Option<CompatDescriptor>, c: &mut CShadow)
    ensures
        match descriptor {
            None => final(c)@ == old(c)@,
            Some(descriptor) => descriptor.gone(old(c)@, final(c)@),
        },
{
    if let Some(descriptor) = descriptor {
        descriptor.release(c);
    }
}

/// If the compat descriptor is a new descriptor, returns a reference to the posix file object.
/// Otherwise returns nothing. The posix file object's ref count is not modified.
#[allow(non_snake_case)]
pub fn compatdescriptor_borrowPosixFile(descriptor: &CompatDescriptor) -> (file: Option<&PosixFile>)
    ensures
        file == match descriptor {
            CompatDescriptor::Legacy(_) => None,
            CompatDescriptor::New(d) => Some(&d.file()),
        },
{
    match descriptor {
        CompatDescriptor::Legacy(_) => None,
        CompatDescriptor::New(d) => Some(d.get_file()),
    }
}

/// If the compat descriptor is a new descriptor, returns a further pointer to the posix file
/// object. Otherwise returns nothing. The posix file object's ref count is incremented, so what is
/// returned must always later be passed to [`posixfile_drop`].
#[allow(non_snake_case)]
pub fn compatdescriptor_newRefPosixFile(descriptor: &CompatDescriptor) -> (file: Option<PosixFile>)
    ensures
        file == match descriptor {
            CompatDescriptor::Legacy(_) => None,
            CompatDescriptor::New(d) => Some(d.file()),
        },
{
    match descriptor {
        CompatDescriptor::Legacy(_) => None,
        CompatDescriptor::New(d) => Some(d.get_file().clone()),
    }
}

/// Decrements the ref count of the posix file object. The file is not closed, and as long as other
/// pointers to it are around, nothing else happens.
pub fn posixfile_drop<P: PipePointer>(file: PosixFile<P>, c: &mut CShadow)
    ensures
        pointer_gone(file.pointed(), old(c)@, final(c)@),
{
    file.release(c)
}

/// Decrements the ref count of a posix file object that came from a compat descriptor which is
/// still around, as one from [`compatdescriptor_newRefPosixFile`] does. That descriptor's file
/// stays as it is, and nothing else happens.
pub fn posixfile_drop_beside(file: PosixFile, descriptor: &CompatDescriptor, c: &mut CShadow)
    ensures
        pointer_gone(file, old(c)@, final(c)@),
        descriptor matches CompatDescriptor::New(d) ==> (d.file() == file ==> final(c)@ == old(
            c,
        )@),
{
    match compatdescriptor_borrowPosixFile(descriptor) {
        Some(other) => file.release_beside(other, c),
        None => file.release(c),
    }
}

/// Gets the status of the posix file object, unless it is mutably borrowed.
#[allow(non_snake_case)]
pub fn posixfile_getStatus<'a, L: LentFile<'a>>(file: L) -> (status: Result<Status, BorrowError>)
    ensures
        status matches Ok(status) ==> exists|borrowed: PosixFileRef<'_>| #[trigger]
            borrowed.is_of(file.lent()) && status == borrowed.file().status.value(),
        status matches Ok(status) ==> status & FILE_STATUS_ALL == status,
        status is Err ==> borrow_refused(file.lent().cell()),
{
    status_of_borrowed(file.borrow_once())
}

/// The status of a posix file object that was to be borrowed, or the error of the borrow.
pub fn status_of_borrowed(borrowed: Result<PosixFileRef<'_>, BorrowError>) -> (status: Result<
    Status,
    BorrowError,
>)
    ensures
        status == match borrowed {
            Ok(file) => Ok(file.file().status.value()),
            Err(error) => Err(error),
        },
        status matches Ok(status) ==> status & FILE_STATUS_ALL == status,
{
    match borrowed {
        Ok(file) => Ok(file.status().bits()),
        Err(error) => Err(error),
    }
}

/// Adds a status listener to the posix file object, unless that is borrowed. This will increment
/// the status listener's ref count, and will decrement the ref count when this status listener is
/// removed or when the posix file is freed. The file is left as the borrow shows it when nothing
/// more is written through it.
#[allow(non_snake_case)]
pub fn posixfile_addListener<'a, L: LentFile<'a>>(
    file: L,
    listener: usize,
    c: &mut CShadow,
) -> (added: Result<(), BorrowMutError>)
    requires
        listener != 0,
    ensures
        added is Err ==> final(c)@ == old(c)@ && borrow_refused(file.lent().cell()),
        added is Ok ==> exists|before: PosixFileRefMut<'_>, after: PosixFileRefMut<'_>|
            {
                &&& #[trigger] before.is_of(file.lent())
                &&& #[trigger] after.is_of(file.lent())
                &&& has_resolved(after)
                &&& legacy_added(
                    before.file().listeners,
                    old(c)@,
                    listener,
                    after.file().listeners,
                    final(c)@,
                )
                &&& after.file() == (PipeModel {
                    listeners: after.file().listeners,
                    ..before.file()
                })
                &&& no_repeats(after.file().listeners)
            },
{
    let borrowed = file.borrow_mut_once();
    let ghost before = borrowed;
    match add_listener_of_borrowed(borrowed, listener, c) {
        Ok(after) => {
            proof {
                // nothing is written through the borrow after this
                assert(has_resolved(after));
                assert(before->Ok_0.is_of(file.lent()) && after.is_of(file.lent()));
            }
            Ok(())
        },
        Err(error) => Err(error),
    }
}

/// Adds a status listener to a posix file object that was to be borrowed, and gives the
/// borrow back. If there is only the error of the borrow, that is given back, and nothing else
/// happens.
pub fn add_listener_of_borrowed<'a>(
    borrowed: Result<PosixFileRefMut<'a>, BorrowMutError>,
    listener: usize,
    c: &mut CShadow,
) -> (after: Result<PosixFileRefMut<'a>, BorrowMutError>)
    requires
        listener != 0,
    ensures
        match borrowed {
            Ok(before) => {
                &&& after matches Ok(after)
                &&& after.same_file(&before)
                &&& legacy_added(
                    before.file().listeners,
                    old(c)@,
                    listener,
                    after.file().listeners,
                    final(c)@,
                )
                &&& after.file() == (PipeModel {
                    listeners: after.file().listeners,
                    ..before.file()
                })
                &&& no_repeats(after.file().listeners)
            },
            Err(_) => after == borrowed && final(c)@ == old(c)@,
        },
{
    match borrowed {
        Ok(mut file) => {
            file.add_legacy_listener(listener, c);
            Ok(file)
        },
        Err(error) => Err(error),
    }
}

/// Removes a listener from the posix file object, unless that is borrowed. The file is left as the
/// borrow shows it when nothing more is written through it.
#[allow(non_snake_case)]
pub fn posixfile_removeListener<'a, L: LentFile<'a>>(
    file: L,
    listener: usize,
    c: &mut CShadow,
) -> (removed: Result<(), BorrowMutError>)
    requires
        listener != 0,
    ensures
        removed is Err ==> final(c)@ == old(c)@ && borrow_refused(file.lent().cell()),
        removed is Ok ==> exists|before: PosixFileRefMut<'_>, after: PosixFileRefMut<'_>|
            {
                &&& #[trigger] before.is_of(file.lent())
                &&& #[trigger] after.is_of(file.lent())
                &&& has_resolved(after)
                &&& after.file() == (PipeModel {
                    listeners: without_legacy(before.file().listeners, listener),
                    ..before.file()
                })
                &&& !listens(after.file().listeners, listener)
                &&& no_repeats(after.file().listeners)
                &&& final(c)@ == legacy_released(before.file().listeners, listener, old(c)@)
            },
{
    let borrowed = file.borrow_mut_once();
    let ghost before = borrowed;
    match remove_listener_of_borrowed(borrowed, listener, c) {
        Ok(after) => {
            proof {
                // nothing is written through the borrow after this
                assert(has_resolved(after));
                assert(before->Ok_0.is_of(file.lent()) && after.is_of(file.lent()));
            }
            Ok(())
        },
        Err(error) => Err(error),
    }
}

/// Removes a status listener from a posix file object that was to be borrowed, and gives the
/// borrow back. If there is only the error of the borrow, that is given back, and nothing else
/// happens.
pub fn remove_listener_of_borrowed<'a>(
    borrowed: Result<PosixFileRefMut<'a>, BorrowMutError>,
    listener: usize,
    c: &mut CShadow,
) -> (after: Result<PosixFileRefMut<'a>, BorrowMutError>)
    requires
        listener != 0,
    ensures
        match borrowed {
            Ok(before) => {
                &&& after matches Ok(after)
                &&& after.same_file(&before)
                &&& after.file() == (PipeModel {
                    listeners: without_legacy(before.file().listeners, listener),
                    ..before.file()
                })
                &&& !listens(after.file().listeners, listener)
                &&& no_repeats(after.file().listeners)
                &&& final(c)@ == legacy_released(before.file().listeners, listener, old(c)@)
            },
            Err(_) => after == borrowed && final(c)@ == old(c)@,
        },
{
    match borrowed {
        Ok(mut file) => {
            file.remove_legacy_listener(listener, c);
            Ok(file)
        },
        Err(error) => Err(error),
    }
}

/// Gets the canonical handle for a posix file object. Two posix file objects refer to the same
/// underlying data if their handles are equal: see [`PosixFile::canonical_handles`].
#[allow(non_snake_case)]
pub fn posixfile_getCanonicalHandle(file: &PosixFile) -> (handle: usize)
    ensures
        handle != 0,
        lay_at(file.cell(), handle),
{
    file.canonical_handle()
}

} // verus!
