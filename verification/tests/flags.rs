use shadow_descriptor::flags::DescriptorFlags;
use shadow_descriptor::flags::FileFlags;
use shadow_descriptor::flags::FileMode;
use shadow_descriptor::flags::FileStatus;
use shadow_descriptor::flags::Status;

#[test]
fn file_flags_have_the_values_of_the_platform() {
    assert_eq!(FileFlags::NONBLOCK().bits(), libc::O_NONBLOCK);
    assert_eq!(FileFlags::APPEND().bits(), libc::O_APPEND);
    assert_eq!(FileFlags::ASYNC().bits(), libc::O_ASYNC);
    assert_eq!(FileFlags::DIRECT().bits(), libc::O_DIRECT);
    assert_eq!(FileFlags::NOATIME().bits(), libc::O_NOATIME);
    assert_eq!(FileFlags::NONBLOCK().bits(), 0x800);
    assert_eq!(FileFlags::APPEND().bits(), 0x400);
    assert_eq!(FileFlags::ASYNC().bits(), 0x2000);
    assert_eq!(FileFlags::DIRECT().bits(), 0x4000);
    assert_eq!(FileFlags::NOATIME().bits(), 0x40000);
}

#[test]
fn descriptor_flag_has_the_value_of_the_platform() {
    assert_eq!(DescriptorFlags::CLOEXEC().bits(), libc::FD_CLOEXEC as u32);
    assert_eq!(DescriptorFlags::CLOEXEC().bits(), 1);
    assert_eq!(DescriptorFlags::empty().bits(), 0);
    assert_eq!(DescriptorFlags::from_bits(1), Some(DescriptorFlags::CLOEXEC()));
    assert_eq!(DescriptorFlags::from_bits(2), None);
}

#[test]
fn file_flags_accept_no_other_bits() {
    assert_eq!(FileFlags::from_bits(0), Some(FileFlags::empty()));
    assert_eq!(
        FileFlags::from_bits(libc::O_NONBLOCK | libc::O_DIRECT),
        Some(FileFlags::NONBLOCK().union(FileFlags::DIRECT()))
    );
    assert_eq!(FileFlags::from_bits(libc::O_RDWR), None);
    assert_eq!(FileFlags::from_bits(libc::O_NONBLOCK | libc::O_CREAT), None);
    assert_eq!(FileFlags::from_bits(-1), None);
}

#[test]
fn file_mode_accepts_no_other_bits() {
    assert_eq!(FileMode::READ().bits(), 1);
    assert_eq!(FileMode::WRITE().bits(), 2);
    assert_eq!(FileMode::from_bits(2), Some(FileMode::WRITE()));
    assert_eq!(FileMode::from_bits(3).map(|mode| mode.bits()), Some(3));
    assert_eq!(FileMode::from_bits(4), None);
}

#[test]
fn status_goes_to_the_c_side_and_back() {
    for bits in 0..32 {
        let status = FileStatus::from_bits(bits).unwrap();
        assert_eq!(Status::from(status), bits);
        assert_eq!(FileStatus::from_status(Status::from(status)), status);
    }
    assert_eq!(FileStatus::from_bits(32), None);
    assert_eq!(FileStatus::from_bits(33), None);
    assert_eq!(FileStatus::from_bits(-1), None);
}

#[test]
fn status_flags_are_distinct_bits() {
    assert_eq!(FileStatus::ACTIVE().bits(), 1);
    assert_eq!(FileStatus::READABLE().bits(), 2);
    assert_eq!(FileStatus::WRITABLE().bits(), 4);
    assert_eq!(FileStatus::CLOSED().bits(), 8);
    assert_eq!(FileStatus::FUTEX_WAKEUP().bits(), 16);
}

#[test]
fn status_sets_combine() {
    let a = FileStatus::from_bits(0b0011).unwrap();
    let b = FileStatus::from_bits(0b0110).unwrap();
    assert_eq!(a.union(b).bits(), 0b0111);
    assert_eq!(a.intersection(b).bits(), 0b0010);
    assert_eq!(a.difference(b).bits(), 0b0001);
    assert_eq!(a.symmetric_difference(b).bits(), 0b0101);
    assert!(a.intersects(b));
    assert!(!a.intersects(FileStatus::CLOSED()));
    assert!(!a.intersects(FileStatus::empty()));
    assert!(FileStatus::empty().is_empty());
    assert!(!a.is_empty());
}

#[test]
fn flags_are_described_by_their_names() {
    assert_eq!(FileStatus::empty().debug_string(), "(empty)");
    assert_eq!(FileStatus::READABLE().debug_string(), "READABLE");
    assert_eq!(
        FileStatus::from_bits(31).unwrap().debug_string(),
        "ACTIVE | READABLE | WRITABLE | CLOSED | FUTEX_WAKEUP"
    );
    assert_eq!(FileFlags::empty().debug_string(), "(empty)");
    assert_eq!(
        FileFlags::NOATIME().union(FileFlags::NONBLOCK()).debug_string(),
        "NONBLOCK | NOATIME"
    );
    assert_eq!(
        FileFlags::APPEND().union(FileFlags::ASYNC()).union(FileFlags::DIRECT()).debug_string(),
        "APPEND | ASYNC | DIRECT"
    );
    assert_eq!(FileMode::READ().debug_string(), "READ");
    assert_eq!(FileMode::all().debug_string(), "READ | WRITE");
    assert_eq!(FileMode::empty().debug_string(), "(empty)");
    assert_eq!(DescriptorFlags::CLOEXEC().debug_string(), "CLOEXEC");
    assert_eq!(DescriptorFlags::empty().debug_string(), "(empty)");
}

#[test]
fn sets_have_bounds() {
    assert_eq!(FileFlags::all().bits(), 0x46c00);
    assert_eq!(FileMode::all().bits(), 3);
    assert_eq!(FileStatus::all().bits(), 31);
    assert_eq!(DescriptorFlags::all(), DescriptorFlags::CLOEXEC());
    assert!(FileFlags::all().is_all());
    assert!(!FileFlags::ASYNC().is_all());
    assert!(FileMode::empty().is_empty());
    assert!(!FileMode::READ().is_empty());
    assert!(FileStatus::all().is_all());
    assert!(DescriptorFlags::empty().is_empty());
    assert!(DescriptorFlags::CLOEXEC().is_all());
    assert_eq!(FileFlags::all().complement(), FileFlags::empty());
    assert_eq!(FileMode::READ().complement(), FileMode::WRITE());
    assert_eq!(FileStatus::ACTIVE().complement().bits(), 30);
    assert_eq!(DescriptorFlags::empty().complement(), DescriptorFlags::all());
}

#[test]
fn unnamed_bits_are_cut_off() {
    assert_eq!(FileFlags::from_bits_truncate(-1), FileFlags::all());
    assert_eq!(FileFlags::from_bits_truncate(libc::O_RDWR), FileFlags::empty());
    assert_eq!(FileMode::from_bits_truncate(6), FileMode::WRITE());
    assert_eq!(FileStatus::from_bits_truncate(0x21), FileStatus::ACTIVE());
    assert_eq!(DescriptorFlags::from_bits_truncate(3), DescriptorFlags::CLOEXEC());
}

#[test]
fn sets_are_compared() {
    let flags = FileFlags::NONBLOCK().union(FileFlags::APPEND());
    assert!(flags.contains(FileFlags::APPEND()));
    assert!(flags.contains(FileFlags::empty()));
    assert!(!FileFlags::APPEND().contains(flags));
    assert!(flags.intersects(FileFlags::APPEND().union(FileFlags::ASYNC())));
    assert!(!flags.intersects(FileFlags::ASYNC()));
    assert!(FileMode::all().contains(FileMode::READ()));
    assert!(!FileMode::READ().intersects(FileMode::WRITE()));
    assert!(!FileStatus::READABLE().contains(FileStatus::WRITABLE()));
    assert!(DescriptorFlags::CLOEXEC().contains(DescriptorFlags::empty()));
    assert!(!DescriptorFlags::CLOEXEC().intersects(DescriptorFlags::empty()));
}

#[test]
fn sets_are_changed() {
    let mut flags = FileFlags::NONBLOCK();
    flags.insert(FileFlags::APPEND());
    assert_eq!(flags.bits(), 0xc00);
    flags.toggle(FileFlags::APPEND().union(FileFlags::ASYNC()));
    assert_eq!(flags, FileFlags::NONBLOCK().union(FileFlags::ASYNC()));
    flags.remove(FileFlags::NONBLOCK());
    assert_eq!(flags, FileFlags::ASYNC());
    flags.set(FileFlags::DIRECT(), true);
    flags.set(FileFlags::ASYNC(), false);
    assert_eq!(flags, FileFlags::DIRECT());
    let mut mode = FileMode::READ();
    mode.toggle(FileMode::all());
    assert_eq!(mode, FileMode::WRITE());
    assert_eq!(mode.symmetric_difference(FileMode::all()), FileMode::READ());
    let mut status = FileStatus::all();
    status.remove(FileStatus::CLOSED());
    assert_eq!(status.bits(), 23);
    let mut flags = DescriptorFlags::empty();
    flags.set(DescriptorFlags::CLOEXEC(), true);
    assert_eq!(flags.difference(DescriptorFlags::CLOEXEC()), DescriptorFlags::empty());
    assert_eq!(flags.intersection(DescriptorFlags::all()), DescriptorFlags::CLOEXEC());
}
