use atomic_refcell::AtomicRefCell;
use shadow_descriptor::cshadow::CCall;
use shadow_descriptor::cshadow::CShadow;
use shadow_descriptor::descriptor::close_borrowed;
use shadow_descriptor::descriptor::CompatDescriptor;
use shadow_descriptor::descriptor::Descriptor;
use shadow_descriptor::descriptor::OwnedLegacyDescriptor;
use shadow_descriptor::event_queue::EventQueue;
use shadow_descriptor::export::add_listener_of_borrowed;
use shadow_descriptor::export::compatdescriptor_asLegacy;
use shadow_descriptor::export::compatdescriptor_borrowPosixFile;
use shadow_descriptor::export::compatdescriptor_free;
use shadow_descriptor::export::compatdescriptor_fromLegacy;
use shadow_descriptor::export::compatdescriptor_newRefPosixFile;
use shadow_descriptor::export::posixfile_addListener;
use shadow_descriptor::export::posixfile_drop;
use shadow_descriptor::export::posixfile_drop_beside;
use shadow_descriptor::export::posixfile_getCanonicalHandle;
use shadow_descriptor::export::posixfile_getStatus;
use shadow_descriptor::export::posixfile_removeListener;
use shadow_descriptor::export::remove_listener_of_borrowed;
use shadow_descriptor::export::status_of_borrowed;
use shadow_descriptor::file::give_back_listeners_of_borrowed;
use shadow_descriptor::file::release_pipe;
use shadow_descriptor::file::PosixFile;
use shadow_descriptor::file::PosixFileRef;
use shadow_descriptor::file::PosixFileRefMut;
use shadow_descriptor::flags::DescriptorFlags;
use shadow_descriptor::flags::FileFlags;
use shadow_descriptor::flags::FileMode;
use shadow_descriptor::flags::FileStatus;
use shadow_descriptor::listener::NewStatusListenerFilter;
use shadow_descriptor::listener::NotifyFn;
use shadow_descriptor::pipe::PipeFile;
use shadow_descriptor::syscall::SysCallReg;
use shadow_descriptor::text::address_string;
use std::sync::Arc;

fn pipe() -> PosixFile {
    let pipe = PipeFile::new(FileMode::READ(), FileFlags::NONBLOCK());
    PosixFile::pipe(AtomicRefCell::new(pipe))
}

#[test]
fn pipe_starts_active() {
    let mut pipe = PipeFile::new(FileMode::WRITE(), FileFlags::APPEND());
    assert_eq!(pipe.status(), FileStatus::ACTIVE());
    assert_eq!(pipe.mode(), FileMode::WRITE());
    assert_eq!(pipe.get_flags(), FileFlags::APPEND());
    pipe.set_flags(FileFlags::empty());
    assert_eq!(pipe.get_flags(), FileFlags::empty());
}

#[test]
fn closed_pipe_reports_the_change_once() {
    let mut c = CShadow::new();
    let mut queue = EventQueue::new();
    let mut pipe = PipeFile::new(FileMode::READ(), FileFlags::empty());
    let _handle = pipe.add_listener(
        FileStatus::CLOSED(),
        NewStatusListenerFilter::OffToOn,
        NotifyFn { id: 3 },
    );
    pipe.add_legacy_listener(0x40, &mut c);
    c.take_calls();
    let result = pipe.close(&mut queue, &mut c);
    assert!(matches!(result, Ok(SysCallReg { as_i64: 0 })));
    assert_eq!(pipe.status(), FileStatus::CLOSED());
    assert_eq!(queue.len(), 2);
    let event = queue.pop().unwrap();
    let notification = event.run(&mut c).unwrap();
    event.release(&mut c);
    assert_eq!(notification.status, FileStatus::CLOSED());
    assert_eq!(notification.changed, FileStatus::CLOSED().union(FileStatus::ACTIVE()));
    let event = queue.pop().unwrap();
    assert!(event.run(&mut c).is_none());
    event.release(&mut c);
    assert_eq!(
        c.take_calls(),
        vec![CCall::StatusListenerOnStatusChanged { ptr: 0x40, status: 8, changed: 9 }]
    );
    // nothing changes any more
    assert!(pipe.close(&mut queue, &mut c).is_ok());
    assert_eq!(queue.len(), 0);
    pipe.remove_legacy_listener(0x40, &mut c);
    assert_eq!(c.take_calls(), vec![CCall::StatusListenerUnref { ptr: 0x40 }]);
}

#[test]
fn file_can_be_borrowed_more_than_once_but_changed_by_one() {
    let file = pipe();
    {
        let first = file.try_borrow().unwrap();
        let second = file.try_borrow().unwrap();
        assert_eq!(first.status(), second.status());
        assert_eq!(first.get_flags(), FileFlags::NONBLOCK());
        assert!(file.try_borrow_mut().is_err());
    }
    let mut exclusive = file.try_borrow_mut().unwrap();
    assert!(file.try_borrow().is_err());
    assert!(file.try_borrow_mut().is_err());
    exclusive.set_flags(FileFlags::DIRECT());
    assert_eq!(exclusive.get_flags(), FileFlags::DIRECT());
    assert_eq!(exclusive.status(), FileStatus::ACTIVE());
    drop(exclusive);
    assert_eq!(file.try_borrow().unwrap().get_flags(), FileFlags::DIRECT());
}

#[test]
fn clone_is_the_same_file() {
    let file = pipe();
    let clone = file.clone();
    clone.try_borrow_mut().unwrap().set_flags(FileFlags::ASYNC());
    assert_eq!(file.try_borrow().unwrap().get_flags(), FileFlags::ASYNC());
    assert_eq!(file.canonical_handle(), clone.canonical_handle());
    assert_ne!(file.canonical_handle(), pipe().canonical_handle());
    assert_eq!(posixfile_getCanonicalHandle(&file), file.canonical_handle());
}

#[test]
fn file_is_described() {
    let file = pipe();
    assert_eq!(file.debug_string(), "Pipe(status: ACTIVE, flags: NONBLOCK)");
    assert_eq!(
        file.try_borrow().unwrap().debug_string(),
        "Pipe(status: ACTIVE, flags: NONBLOCK)"
    );
    let mut exclusive = file.try_borrow_mut().unwrap();
    assert_eq!(file.debug_string(), "Pipe(already borrowed)");
    exclusive.set_flags(FileFlags::empty());
    assert_eq!(exclusive.debug_string(), "Pipe(status: ACTIVE, flags: (empty))");
}

#[test]
fn last_descriptor_closes_the_file() {
    let mut c = CShadow::new();
    let mut queue = EventQueue::new();
    let file = pipe();
    let first = Descriptor::new(file.clone());
    let second = first.clone();
    let third = second.clone();
    assert!(matches!(first.close(&mut queue, &mut c), Ok(None)));
    assert!(matches!(third.close(&mut queue, &mut c), Ok(None)));
    assert_eq!(file.try_borrow().unwrap().status(), FileStatus::ACTIVE());
    assert!(matches!(
        second.close(&mut queue, &mut c),
        Ok(Some(Ok(SysCallReg { as_i64: 0 })))
    ));
    assert_eq!(file.try_borrow().unwrap().status(), FileStatus::CLOSED());
}

#[test]
fn count_of_open_descriptors_decides() {
    let mut c = CShadow::new();
    let mut queue = EventQueue::new();
    let file = pipe();
    let descriptor = Descriptor::new(file.clone());
    assert!(matches!(descriptor.close_as_one_of(2, &mut queue, &mut c), Ok(None)));
    assert_eq!(file.try_borrow().unwrap().status(), FileStatus::ACTIVE());
    let descriptor = Descriptor::new(file.clone());
    assert!(matches!(descriptor.close_as_one_of(1, &mut queue, &mut c), Ok(Some(Ok(_)))));
    assert_eq!(file.try_borrow().unwrap().status(), FileStatus::CLOSED());
}

#[test]
fn borrowed_file_cannot_be_closed() {
    let mut c = CShadow::new();
    let mut queue = EventQueue::new();
    let file = pipe();
    let descriptor = Descriptor::new(file.clone());
    let borrowed = file.try_borrow().unwrap();
    assert!(descriptor.close(&mut queue, &mut c).is_err());
    assert_eq!(borrowed.status(), FileStatus::ACTIVE());
    assert_eq!(queue.len(), 0);
}

#[test]
fn descriptor_has_flags_of_its_own() {
    let mut first = Descriptor::new(pipe());
    assert_eq!(first.get_flags(), DescriptorFlags::empty());
    let second = first.clone();
    first.set_flags(DescriptorFlags::CLOEXEC());
    assert_eq!(first.get_flags(), DescriptorFlags::CLOEXEC());
    assert_eq!(second.get_flags(), DescriptorFlags::empty());
    assert_eq!(first.clone().get_flags(), DescriptorFlags::CLOEXEC());
    assert_eq!(first.get_file().canonical_handle(), second.get_file().canonical_handle());
}

#[test]
fn closing_the_last_descriptor_lets_go_of_the_listeners() {
    let mut c = CShadow::new();
    let mut queue = EventQueue::new();
    let file = pipe();
    assert!(posixfile_addListener(&file, 0x50, &mut c).is_ok());
    c.take_calls();
    // the descriptor is all that points to the file
    let descriptor = Descriptor::new(file);
    assert!(matches!(descriptor.close(&mut queue, &mut c), Ok(Some(Ok(_)))));
    // the event still holds the listener
    assert_eq!(c.take_calls(), vec![]);
    assert_eq!(queue.len(), 1);
    let event = queue.pop().unwrap();
    event.run(&mut c);
    assert_eq!(
        c.take_calls(),
        vec![CCall::StatusListenerOnStatusChanged { ptr: 0x50, status: 8, changed: 9 }]
    );
    event.release(&mut c);
    assert_eq!(c.take_calls(), vec![CCall::StatusListenerUnref { ptr: 0x50 }]);
}

#[test]
fn listeners_of_a_file_are_counted() {
    let mut c = CShadow::new();
    let file = pipe();
    assert!(posixfile_addListener(&file, 0x50, &mut c).is_ok());
    assert!(posixfile_addListener(&file, 0x60, &mut c).is_ok());
    assert!(posixfile_addListener(&file, 0x50, &mut c).is_ok());
    assert_eq!(
        c.take_calls(),
        vec![CCall::StatusListenerRef { ptr: 0x50 }, CCall::StatusListenerRef { ptr: 0x60 }]
    );
    assert!(posixfile_removeListener(&file, 0x50, &mut c).is_ok());
    assert_eq!(c.take_calls(), vec![CCall::StatusListenerUnref { ptr: 0x50 }]);
    let clone = file.clone();
    posixfile_drop(file, &mut c);
    assert_eq!(c.take_calls(), vec![]);
    posixfile_drop(clone, &mut c);
    assert_eq!(c.take_calls(), vec![CCall::StatusListenerUnref { ptr: 0x60 }]);
}

#[test]
fn borrowed_file_takes_no_listener() {
    let mut c = CShadow::new();
    let file = pipe();
    let borrowed = file.try_borrow().unwrap();
    assert!(posixfile_addListener(&file, 0x50, &mut c).is_err());
    assert!(posixfile_removeListener(&file, 0x50, &mut c).is_err());
    assert_eq!(c.take_calls(), vec![]);
    drop(borrowed);
    let _borrowed = file.try_borrow_mut().unwrap();
    assert!(posixfile_getStatus(&file).is_err());
}

#[test]
fn status_is_given_as_bits() {
    let mut c = CShadow::new();
    let mut queue = EventQueue::new();
    let file = pipe();
    assert!(matches!(posixfile_getStatus(&file), Ok(1)));
    assert!(file.try_borrow_mut().unwrap().close(&mut queue, &mut c).is_ok());
    assert!(matches!(posixfile_getStatus(&file), Ok(8)));
    let status = posixfile_getStatus(&file).unwrap();
    assert_eq!(FileStatus::from_status(status), FileStatus::CLOSED());
}

#[test]
fn legacy_descriptor_is_given_back_when_it_is_freed() {
    let mut c = CShadow::new();
    let descriptor = compatdescriptor_fromLegacy(0x99);
    assert_eq!(compatdescriptor_asLegacy(&descriptor), 0x99);
    assert!(compatdescriptor_borrowPosixFile(&descriptor).is_none());
    assert!(compatdescriptor_newRefPosixFile(&descriptor).is_none());
    assert_eq!(c.take_calls(), vec![]);
    compatdescriptor_free(Some(descriptor), &mut c);
    assert_eq!(c.take_calls(), vec![CCall::DescriptorUnref { ptr: 0x99 }]);
    compatdescriptor_free(None, &mut c);
    assert_eq!(c.take_calls(), vec![]);
}

#[test]
fn new_descriptor_has_a_file() {
    let mut c = CShadow::new();
    let file = pipe();
    let descriptor = CompatDescriptor::New(Descriptor::new(file.clone()));
    assert_eq!(compatdescriptor_asLegacy(&descriptor), 0);
    let borrowed = compatdescriptor_borrowPosixFile(&descriptor).unwrap();
    assert_eq!(borrowed.canonical_handle(), file.canonical_handle());
    let counted = compatdescriptor_newRefPosixFile(&descriptor).unwrap();
    assert_eq!(counted.canonical_handle(), file.canonical_handle());
    posixfile_drop(counted, &mut c);
    compatdescriptor_free(Some(descriptor), &mut c);
    assert_eq!(c.take_calls(), vec![]);
}

#[test]
fn only_a_legacy_descriptor_stores_its_handle() {
    let mut c = CShadow::new();
    let mut legacy = CompatDescriptor::Legacy(OwnedLegacyDescriptor::new(0x99));
    legacy.set_handle(7, &mut c);
    assert_eq!(c.take_calls(), vec![CCall::DescriptorSetHandle { ptr: 0x99, handle: 7 }]);
    legacy.set_handle(i32::MAX as u32, &mut c);
    assert_eq!(
        c.take_calls(),
        vec![CCall::DescriptorSetHandle { ptr: 0x99, handle: i32::MAX }]
    );
    let mut new = CompatDescriptor::New(Descriptor::new(pipe()));
    new.set_handle(u32::MAX, &mut c);
    assert_eq!(c.take_calls(), vec![]);
}

#[test]
fn owned_legacy_descriptor_is_unreferenced_once() {
    let mut c = CShadow::new();
    let owned = OwnedLegacyDescriptor::new(0x88);
    assert_eq!(owned.ptr(), 0x88);
    assert_eq!(c.take_calls(), vec![]);
    owned.release(&mut c);
    assert_eq!(c.take_calls(), vec![CCall::DescriptorUnref { ptr: 0x88 }]);
}

#[test]
fn descriptor_is_described() {
    let mut descriptor = Descriptor::new(pipe());
    assert_eq!(
        descriptor.debug_string(),
        "Descriptor { file: Pipe(status: ACTIVE, flags: NONBLOCK), flags: (empty), \
         open_count: () }"
    );
    descriptor.set_flags(DescriptorFlags::CLOEXEC());
    let _borrowed = descriptor.get_file().try_borrow_mut().unwrap();
    assert_eq!(
        descriptor.debug_string(),
        "Descriptor { file: Pipe(already borrowed), flags: CLOEXEC, open_count: () }"
    );
    assert_eq!(
        Descriptor::describe("file", DescriptorFlags::CLOEXEC()),
        "Descriptor { file: file, flags: CLOEXEC, open_count: () }"
    );
}

#[test]
fn borrow_of_a_pipe_is_one_of_the_file() {
    let cell = AtomicRefCell::new(PipeFile::new(FileMode::READ(), FileFlags::ASYNC()));
    {
        let file = PosixFileRef::of_pipe(cell.try_borrow()).unwrap();
        assert_eq!(file.get_flags(), FileFlags::ASYNC());
        assert!(PosixFileRefMut::of_pipe(cell.try_borrow_mut()).is_err());
    }
    let mut file = PosixFileRefMut::of_pipe(cell.try_borrow_mut()).unwrap();
    assert!(PosixFileRef::of_pipe(cell.try_borrow()).is_err());
    file.set_flags(FileFlags::empty());
    drop(file);
    assert_eq!(cell.borrow().get_flags(), FileFlags::empty());
}

#[test]
fn outcome_of_a_borrow_decides() {
    let mut c = CShadow::new();
    let file = pipe();
    let borrowed = add_listener_of_borrowed(file.try_borrow_mut(), 0x50, &mut c);
    assert_eq!(c.take_calls(), vec![CCall::StatusListenerRef { ptr: 0x50 }]);
    assert!(status_of_borrowed(file.try_borrow()).is_err());
    assert!(add_listener_of_borrowed(file.try_borrow_mut(), 0x60, &mut c).is_err());
    assert!(remove_listener_of_borrowed(file.try_borrow_mut(), 0x50, &mut c).is_err());
    assert_eq!(c.take_calls(), vec![]);
    assert!(remove_listener_of_borrowed(borrowed, 0x50, &mut c).is_ok());
    assert_eq!(c.take_calls(), vec![CCall::StatusListenerUnref { ptr: 0x50 }]);
    assert!(matches!(status_of_borrowed(file.try_borrow()), Ok(1)));
}

#[test]
fn descriptors_of_a_file_are_counted_together() {
    let mut c = CShadow::new();
    let mut queue = EventQueue::new();
    let file = pipe();
    let first = Descriptor::new(file.clone());
    let second = Descriptor::new(file.clone());
    assert!(matches!(first.close(&mut queue, &mut c), Ok(None)));
    assert_eq!(file.try_borrow().unwrap().status(), FileStatus::ACTIVE());
    // one that is let go of does not close the file, but counts no more either
    let third = second.clone();
    second.release(&mut c);
    assert_eq!(file.try_borrow().unwrap().status(), FileStatus::ACTIVE());
    assert!(matches!(third.close(&mut queue, &mut c), Ok(Some(Ok(_)))));
    assert_eq!(file.try_borrow().unwrap().status(), FileStatus::CLOSED());
}

#[test]
fn other_pointers_do_not_keep_a_file_open() {
    let mut c = CShadow::new();
    let mut queue = EventQueue::new();
    let file = pipe();
    let descriptor = CompatDescriptor::New(Descriptor::new(file.clone()));
    let pointer = compatdescriptor_newRefPosixFile(&descriptor).unwrap();
    let descriptor = match descriptor {
        CompatDescriptor::New(descriptor) => descriptor,
        CompatDescriptor::Legacy(_) => unreachable!(),
    };
    assert!(matches!(descriptor.close(&mut queue, &mut c), Ok(Some(Ok(_)))));
    assert!(matches!(posixfile_getStatus(&pointer), Ok(8)));
}

#[test]
fn dropped_pointer_leaves_the_descriptor_as_it_was() {
    let mut c = CShadow::new();
    let mut queue = EventQueue::new();
    let file = pipe();
    assert!(posixfile_addListener(&file, 0x50, &mut c).is_ok());
    c.take_calls();
    let descriptor = CompatDescriptor::New(Descriptor::new(file));
    let pointer = compatdescriptor_newRefPosixFile(&descriptor).unwrap();
    posixfile_drop(pointer, &mut c);
    assert_eq!(c.take_calls(), vec![]);
    let file = compatdescriptor_borrowPosixFile(&descriptor).unwrap();
    assert!(matches!(posixfile_getStatus(file), Ok(1)));
    if let CompatDescriptor::New(descriptor) = descriptor {
        assert!(matches!(descriptor.close(&mut queue, &mut c), Ok(Some(Ok(_)))));
    }
    assert_eq!(queue.len(), 1);
}

#[test]
fn freed_descriptor_lets_go_of_its_file() {
    let mut c = CShadow::new();
    let file = pipe();
    assert!(posixfile_addListener(&file, 0x50, &mut c).is_ok());
    c.take_calls();
    compatdescriptor_free(Some(CompatDescriptor::New(Descriptor::new(file))), &mut c);
    assert_eq!(c.take_calls(), vec![CCall::StatusListenerUnref { ptr: 0x50 }]);
}

#[test]
fn file_with_a_forgotten_borrow_can_be_dropped() {
    let mut c = CShadow::new();
    let file = pipe();
    assert!(posixfile_addListener(&file, 0x50, &mut c).is_ok());
    c.take_calls();
    std::mem::forget(file.try_borrow().unwrap());
    posixfile_drop(file, &mut c);
    assert_eq!(c.take_calls(), vec![CCall::StatusListenerUnref { ptr: 0x50 }]);
    // a mutable one leaves the listeners out of reach
    let file = pipe();
    assert!(posixfile_addListener(&file, 0x50, &mut c).is_ok());
    c.take_calls();
    std::mem::forget(file.try_borrow_mut().unwrap());
    posixfile_drop(file, &mut c);
    assert_eq!(c.take_calls(), vec![]);
}

#[test]
fn outcome_of_a_borrow_decides_a_close() {
    let mut c = CShadow::new();
    let mut queue = EventQueue::new();
    let file = pipe();
    assert!(posixfile_addListener(&file, 0x50, &mut c).is_ok());
    c.take_calls();
    let (borrowed, result) = close_borrowed(file.try_borrow_mut(), &mut queue, &mut c).unwrap();
    assert!(matches!(result, Ok(SysCallReg { as_i64: 0 })));
    assert_eq!(borrowed.status(), FileStatus::CLOSED());
    assert_eq!(queue.len(), 1);
    assert!(close_borrowed(file.try_borrow_mut(), &mut queue, &mut c).is_err());
    assert_eq!(queue.len(), 1);
    assert_eq!(c.take_calls(), vec![]);
}

#[test]
fn outcome_of_a_borrow_decides_whether_listeners_are_let_go_of() {
    let mut c = CShadow::new();
    let file = pipe();
    assert!(posixfile_addListener(&file, 0x50, &mut c).is_ok());
    assert!(posixfile_addListener(&file, 0x60, &mut c).is_ok());
    c.take_calls();
    let borrowed = file.try_borrow_mut();
    give_back_listeners_of_borrowed(&file.try_borrow(), &mut c);
    assert_eq!(c.take_calls(), vec![]);
    drop(borrowed);
    give_back_listeners_of_borrowed(&file.try_borrow(), &mut c);
    assert_eq!(
        c.take_calls(),
        vec![CCall::StatusListenerUnref { ptr: 0x50 }, CCall::StatusListenerUnref { ptr: 0x60 }]
    );
}

#[test]
fn only_the_last_pointer_gives_the_pipe() {
    let mut c = CShadow::new();
    let file = pipe();
    assert!(posixfile_addListener(&file, 0x50, &mut c).is_ok());
    c.take_calls();
    release_pipe(None, &mut c);
    assert_eq!(c.take_calls(), vec![]);
    let PosixFile::Pipe(first) = file.clone();
    let PosixFile::Pipe(second) = file;
    let pipe = Arc::into_inner(first);
    assert!(pipe.is_none());
    release_pipe(pipe, &mut c);
    assert_eq!(c.take_calls(), vec![]);
    let pipe = Arc::into_inner(second);
    assert!(pipe.is_some());
    release_pipe(pipe, &mut c);
    assert_eq!(c.take_calls(), vec![CCall::StatusListenerUnref { ptr: 0x50 }]);
}

#[test]
fn pointer_is_dropped_beside_a_descriptor() {
    let mut c = CShadow::new();
    let file = pipe();
    assert!(posixfile_addListener(&file, 0x50, &mut c).is_ok());
    let other = pipe();
    assert!(posixfile_addListener(&other, 0x60, &mut c).is_ok());
    c.take_calls();
    let descriptor = CompatDescriptor::New(Descriptor::new(file));
    let pointer = compatdescriptor_newRefPosixFile(&descriptor).unwrap();
    posixfile_drop_beside(pointer, &descriptor, &mut c);
    assert_eq!(c.take_calls(), vec![]);
    let file = compatdescriptor_borrowPosixFile(&descriptor).unwrap();
    assert!(matches!(posixfile_getStatus(file), Ok(1)));
    // the descriptor is not one of this file, which goes away
    posixfile_drop_beside(other, &descriptor, &mut c);
    assert_eq!(c.take_calls(), vec![CCall::StatusListenerUnref { ptr: 0x60 }]);
    // nor is one that the C side owns
    let legacy = compatdescriptor_fromLegacy(0x99);
    let third = pipe();
    assert!(posixfile_addListener(&third, 0x70, &mut c).is_ok());
    c.take_calls();
    posixfile_drop_beside(third, &legacy, &mut c);
    assert_eq!(c.take_calls(), vec![CCall::StatusListenerUnref { ptr: 0x70 }]);
}

#[test]
fn handles_tell_files_apart() {
    let file = pipe();
    let other = pipe();
    let (a, b) = file.canonical_handles(&other);
    assert_ne!(a, b);
    assert_ne!(a, 0);
    assert_ne!(b, 0);
    assert_eq!(a, file.canonical_handle());
    assert_eq!(b, other.canonical_handle());
    let (a, b) = file.canonical_handles(&file.clone());
    assert_eq!(a, b);
}

#[test]
fn descriptor_of_either_kind_is_described() {
    let legacy = OwnedLegacyDescriptor::new(0x1a2f);
    assert_eq!(legacy.debug_string(), "OwnedLegacyDescriptor(SyncSendPointer(0x1a2f))");
    assert_eq!(
        CompatDescriptor::Legacy(legacy).debug_string(),
        "Legacy(OwnedLegacyDescriptor(SyncSendPointer(0x1a2f)))"
    );
    assert_eq!(
        CompatDescriptor::New(Descriptor::new(pipe())).debug_string(),
        "New(Descriptor { file: Pipe(status: ACTIVE, flags: NONBLOCK), flags: (empty), \
         open_count: () })"
    );
}

#[test]
fn address_is_in_hexadecimal() {
    assert_eq!(address_string(0), "0x0");
    assert_eq!(address_string(15), "0xf");
    assert_eq!(address_string(16), "0x10");
    assert_eq!(address_string(usize::MAX), format!("{:#x}", usize::MAX));
    assert_eq!(address_string(0x123_4567_89ab), "0x123456789ab");
}
