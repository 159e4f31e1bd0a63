//! The flag sets that files and descriptors carry.
//!
//! Each set is kept as the bits of an integer, and no set ever holds a bit that none of its flags
//! names.

use crate::text::flags_text;
use crate::text::with_name;
use crate::text::FlagsText;
use vstd::prelude::*;

verus! {

/// `O_NONBLOCK` on x86-64 Linux.
pub const O_NONBLOCK: libc::c_int = 0x800;

/// `O_APPEND` on x86-64 Linux.
pub const O_APPEND: libc::c_int = 0x400;

/// `O_ASYNC` on x86-64 Linux.
pub const O_ASYNC: libc::c_int = 0x2000;

/// `O_DIRECT` on x86-64 Linux.
pub const O_DIRECT: libc::c_int = 0x4000;

/// `O_NOATIME` on x86-64 Linux.
pub const O_NOATIME: libc::c_int = 0x4_0000;

/// `FD_CLOEXEC` on x86-64 Linux.
pub const FD_CLOEXEC: libc::c_int = 1;

/// The bits that the flags of [`FileFlags`] name.
pub const FILE_FLAGS_ALL: libc::c_int = O_NONBLOCK | O_APPEND | O_ASYNC | O_DIRECT | O_NOATIME;

/// [`libc::O_NONBLOCK`], which is claimed to have its x86-64 Linux value. The library is for that
/// platform: on another one the number can be another, and the claim is not made.
#[verifier::external_body]
fn libc_o_nonblock() -> (value: libc::c_int)
    ensures
        value == O_NONBLOCK,
{
    libc::O_NONBLOCK
}

/// [`libc::O_APPEND`], which is claimed to have its x86-64 Linux value. The library is for that
/// platform: on another one the number can be another, and the claim is not made.
#[verifier::external_body]
fn libc_o_append() -> (value: libc::c_int)
    ensures
        value == O_APPEND,
{
    libc::O_APPEND
}

/// [`libc::O_ASYNC`], which is claimed to have its x86-64 Linux value. The library is for that
/// platform: on another one the number can be another, and the claim is not made.
#[verifier::external_body]
fn libc_o_async() -> (value: libc::c_int)
    ensures
        value == O_ASYNC,
{
    libc::O_ASYNC
}

/// [`libc::O_DIRECT`], which is claimed to have its x86-64 Linux value. The library is for that
/// platform: on another one the number can be another, and the claim is not made.
#[verifier::external_body]
fn libc_o_direct() -> (value: libc::c_int)
    ensures
        value == O_DIRECT,
{
    libc::O_DIRECT
}

/// [`libc::O_NOATIME`], which is claimed to have its x86-64 Linux value. The library is for that
/// platform: on another one the number can be another, and the claim is not made.
#[verifier::external_body]
fn libc_o_noatime() -> (value: libc::c_int)
    ensures
        value == O_NOATIME,
{
    libc::O_NOATIME
}

/// [`libc::FD_CLOEXEC`], which is claimed to have its x86-64 Linux value. The library is for that
/// platform, and the claim is not made for another one.
#[verifier::external_body]
fn libc_fd_cloexec() -> (value: libc::c_int)
    ensures
        value == FD_CLOEXEC,
{
    libc::FD_CLOEXEC
}

/// Sets of named bits are closed under the operations on sets.
proof fn lemma_named_i32(a: i32, b: i32, named: i32)
    by (bit_vector)
    requires
        a & named == a,
        b & named == b,
    ensures
        (a | b) & named == a | b,
        (a & b) & named == a & b,
        (a & !b) & named == a & !b,
        (a ^ b) & named == a ^ b,
{
}

/// What is left of some bits are named ones, if the others are taken out.
proof fn lemma_truncated_i32(bits: i32, named: i32)
    by (bit_vector)
    ensures
        (bits & named) & named == bits & named,
{
}

/// No bits, and all the named ones, are named bits.
proof fn lemma_bounds_i32(named: i32)
    by (bit_vector)
    ensures
        0 & named == 0,
        named & named == named,
{
}

/// Sets of named bits are closed under the operations on sets.
proof fn lemma_named_u32(a: u32, b: u32, named: u32)
    by (bit_vector)
    requires
        a & named == a,
        b & named == b,
    ensures
        (a | b) & named == a | b,
        (a & b) & named == a & b,
        (a & !b) & named == a & !b,
        (a ^ b) & named == a ^ b,
{
}

/// What is left of some bits are named ones, if the others are taken out.
proof fn lemma_truncated_u32(bits: u32, named: u32)
    by (bit_vector)
    ensures
        (bits & named) & named == bits & named,
{
}

/// No bits, and all the named ones, are named bits.
proof fn lemma_bounds_u32(named: u32)
    by (bit_vector)
    ensures
        0 & named == 0,
        named & named == named,
{
}

/// Flags that can potentially be changed from the plugin (analogous to the status flags in the
/// Linux `filp->f_flags`). Not all `O_` flags are valid here. For example, file access mode flags
/// (such as `O_RDWR`) are stored elsewhere, and file creation flags (such as `O_CREAT`) are not
/// stored anywhere. Many of these can be represented in different ways, for example `O_NONBLOCK`,
/// `SOCK_NONBLOCK`, `EFD_NONBLOCK` and `GRND_NONBLOCK`, and not all have the same value.
#[derive(Clone, Copy, Debug, PartialEq, Eq, Structural)]
pub struct FileFlags {
    bits: libc::c_int,
}

impl FileFlags {
    /// The bits of the set.
    pub closed spec fn value(self) -> libc::c_int {
        self.bits
    }

    #[verifier::type_invariant]
    spec fn well_formed(self) -> bool {
        self.bits & FILE_FLAGS_ALL == self.bits
    }

    /// The names of the flags in the set, in the order of their declaration.
    pub open spec fn names(self) -> Seq<Seq<char>> {
        let bits = self.value();
        let names = with_name(Seq::empty(), bits & O_NONBLOCK != 0, "NONBLOCK"@);
        let names = with_name(names, bits & O_APPEND != 0, "APPEND"@);
        let names = with_name(names, bits & O_ASYNC != 0, "ASYNC"@);
        let names = with_name(names, bits & O_DIRECT != 0, "DIRECT"@);
        with_name(names, bits & O_NOATIME != 0, "NOATIME"@)
    }

    /// The set of `O_NONBLOCK` alone.
    #[allow(non_snake_case)]
    pub fn NONBLOCK() -> (set: FileFlags)
        ensures
            set.value() == O_NONBLOCK,
    {
        assert(O_NONBLOCK & FILE_FLAGS_ALL == O_NONBLOCK) by (bit_vector);
        FileFlags { bits: libc_o_nonblock() }
    }

    /// The set of `O_APPEND` alone.
    #[allow(non_snake_case)]
    pub fn APPEND() -> (set: FileFlags)
        ensures
            set.value() == O_APPEND,
    {
        assert(O_APPEND & FILE_FLAGS_ALL == O_APPEND) by (bit_vector);
        FileFlags { bits: libc_o_append() }
    }

    /// The set of `O_ASYNC` alone.
    #[allow(non_snake_case)]
    pub fn ASYNC() -> (set: FileFlags)
        ensures
            set.value() == O_ASYNC,
    {
        assert(O_ASYNC & FILE_FLAGS_ALL == O_ASYNC) by (bit_vector);
        FileFlags { bits: libc_o_async() }
    }

    /// The set of `O_DIRECT` alone.
    #[allow(non_snake_case)]
    pub fn DIRECT() -> (set: FileFlags)
        ensures
            set.value() == O_DIRECT,
    {
        assert(O_DIRECT & FILE_FLAGS_ALL == O_DIRECT) by (bit_vector);
        FileFlags { bits: libc_o_direct() }
    }

    /// The set of `O_NOATIME` alone.
    #[allow(non_snake_case)]
    pub fn NOATIME() -> (set: FileFlags)
        ensures
            set.value() == O_NOATIME,
    {
        assert(O_NOATIME & FILE_FLAGS_ALL == O_NOATIME) by (bit_vector);
        FileFlags { bits: libc_o_noatime() }
    }

    /// The bits of the set. None of them is a bit that no flag names.
    pub fn bits(&self) -> (bits: libc::c_int)
        ensures
            bits == self.value(),
            bits & FILE_FLAGS_ALL == bits,
    {
        proof {
            use_type_invariant(self);
        }
        self.bits
    }

    /// The set with these bits, or nothing if one of them is not the bit of a flag.
    pub fn from_bits(bits: libc::c_int) -> (set: Option<FileFlags>)
        ensures
            set is Some <==> bits & FILE_FLAGS_ALL == bits,
            set matches Some(set) ==> set.value() == bits,
    {
        if bits & FILE_FLAGS_ALL == bits {
            Some(FileFlags { bits })
        } else {
            None
        }
    }

    /// The set of no flags.
    pub fn empty() -> (set: FileFlags)
        ensures
            set.value() == 0,
    {
        proof {
            lemma_bounds_i32(FILE_FLAGS_ALL);
        }
        FileFlags { bits: 0 }
    }

    /// The set of all flags.
    pub fn all() -> (set: FileFlags)
        ensures
            set.value() == FILE_FLAGS_ALL,
    {
        proof {
            lemma_bounds_i32(FILE_FLAGS_ALL);
        }
        FileFlags { bits: FILE_FLAGS_ALL }
    }

    /// The set with those of these bits that are the bit of a flag.
    pub fn from_bits_truncate(bits: libc::c_int) -> (set: FileFlags)
        ensures
            set.value() == bits & FILE_FLAGS_ALL,
    {
        proof {
            lemma_truncated_i32(bits, FILE_FLAGS_ALL);
        }
        FileFlags { bits: bits & FILE_FLAGS_ALL }
    }

    /// Whether the set has no flags.
    pub fn is_empty(&self) -> (empty: bool)
        ensures
            empty == (self.value() == 0),
    {
        self.bits == 0
    }

    /// Whether the set has all flags.
    pub fn is_all(&self) -> (all: bool)
        ensures
            all == (self.value() == FILE_FLAGS_ALL),
    {
        self.bits == FILE_FLAGS_ALL
    }

    /// Whether a flag is in both sets.
    pub fn intersects(&self, other: FileFlags) -> (intersects: bool)
        ensures
            intersects == (self.value() & other.value() != 0),
    {
        self.bits & other.bits != 0
    }

    /// Whether each flag in `other` is in `self`.
    pub fn contains(&self, other: FileFlags) -> (contains: bool)
        ensures
            contains == (self.value() & other.value() == other.value()),
    {
        self.bits & other.bits == other.bits
    }

    /// The set of the flags in `self` and those in `other`.
    pub fn union(self, other: FileFlags) -> (set: FileFlags)
        ensures
            set.value() == self.value() | other.value(),
    {
        proof {
            use_type_invariant(&self);
            use_type_invariant(&other);
            lemma_named_i32(self.bits, other.bits, FILE_FLAGS_ALL);
        }
        FileFlags { bits: self.bits | other.bits }
    }

    /// The set of the flags that are in both sets.
    pub fn intersection(self, other: FileFlags) -> (set: FileFlags)
        ensures
            set.value() == self.value() & other.value(),
    {
        proof {
            use_type_invariant(&self);
            use_type_invariant(&other);
            lemma_named_i32(self.bits, other.bits, FILE_FLAGS_ALL);
        }
        FileFlags { bits: self.bits & other.bits }
    }

    /// The set of the flags in `self` that are not in `other`.
    pub fn difference(self, other: FileFlags) -> (set: FileFlags)
        ensures
            set.value() == self.value() & !other.value(),
    {
        proof {
            use_type_invariant(&self);
            use_type_invariant(&other);
            lemma_named_i32(self.bits, other.bits, FILE_FLAGS_ALL);
        }
        FileFlags { bits: self.bits & !other.bits }
    }

    /// The set of the flags that are in one of the sets but not in the other.
    pub fn symmetric_difference(self, other: FileFlags) -> (set: FileFlags)
        ensures
            set.value() == self.value() ^ other.value(),
    {
        proof {
            use_type_invariant(&self);
            use_type_invariant(&other);
            lemma_named_i32(self.bits, other.bits, FILE_FLAGS_ALL);
        }
        FileFlags { bits: self.bits ^ other.bits }
    }

    /// The set of the flags that are not in `self`.
    pub fn complement(self) -> (set: FileFlags)
        ensures
            set.value() == !self.value() & FILE_FLAGS_ALL,
    {
        Self::from_bits_truncate(!self.bits)
    }

    /// Adds the flags in `other`.
    pub fn insert(&mut self, other: FileFlags)
        ensures
            final(self).value() == old(self).value() | other.value(),
    {
        *self = self.union(other);
    }

    /// Takes out the flags in `other`.
    pub fn remove(&mut self, other: FileFlags)
        ensures
            final(self).value() == old(self).value() & !other.value(),
    {
        *self = self.difference(other);
    }

    /// Adds those of the flags in `other` that are not in the set, and takes out the rest of them.
    pub fn toggle(&mut self, other: FileFlags)
        ensures
            final(self).value() == old(self).value() ^ other.value(),
    {
        *self = self.symmetric_difference(other);
    }

    /// Adds the flags in `other`, or takes them out.
    pub fn set(&mut self, other: FileFlags, present: bool)
        ensures
            final(self).value() == if present {
                old(self).value() | other.value()
            } else {
                old(self).value() & !other.value()
            },
    {
        if present {
            self.insert(other);
        } else {
            self.remove(other);
        }
    }

    /// The names of the flags in the set, as they are shown to a person.
    pub fn debug_string(&self) -> (text: String)
        ensures
            text@ == flags_text(self.names()),
    {
        let text = FlagsText::new();
        let text = text.with(self.bits & O_NONBLOCK != 0, "NONBLOCK");
        let text = text.with(self.bits & O_APPEND != 0, "APPEND");
        let text = text.with(self.bits & O_ASYNC != 0, "ASYNC");
        let text = text.with(self.bits & O_DIRECT != 0, "DIRECT");
        let text = text.with(self.bits & O_NOATIME != 0, "NOATIME");
        text.finish()
    }
}

/// The bit of [`FileMode::READ`].
pub const FILE_MODE_READ: u32 = 0b01;

/// The bit of [`FileMode::WRITE`].
pub const FILE_MODE_WRITE: u32 = 0b10;

/// The bits that the flags of [`FileMode`] name.
pub const FILE_MODE_ALL: u32 = FILE_MODE_READ | FILE_MODE_WRITE;

/// Flags that should generally not change (analogous to the Linux `filp->f_mode`). Since the
/// plugin never sees these values and the kernel does not expose them, they do not match the
/// kernel's `FMODE_` values.
#[derive(Clone, Copy, Debug, PartialEq, Eq, Structural)]
pub struct FileMode {
    bits: u32,
}

impl FileMode {
    /// The bits of the set.
    pub closed spec fn value(self) -> u32 {
        self.bits
    }

    #[verifier::type_invariant]
    spec fn well_formed(self) -> bool {
        self.bits & FILE_MODE_ALL == self.bits
    }

    /// The names of the flags in the set, in the order of their declaration.
    pub open spec fn names(self) -> Seq<Seq<char>> {
        let bits = self.value();
        let names = with_name(Seq::empty(), bits & FILE_MODE_READ != 0, "READ"@);
        with_name(names, bits & FILE_MODE_WRITE != 0, "WRITE"@)
    }

    /// The mode of a file that is only read.
    #[allow(non_snake_case)]
    pub fn READ() -> (set: FileMode)
        ensures
            set.value() == FILE_MODE_READ,
    {
        assert(FILE_MODE_READ & FILE_MODE_ALL == FILE_MODE_READ) by (bit_vector);
        FileMode { bits: FILE_MODE_READ }
    }

    /// The mode of a file that is only written.
    #[allow(non_snake_case)]
    pub fn WRITE() -> (set: FileMode)
        ensures
            set.value() == FILE_MODE_WRITE,
    {
        assert(FILE_MODE_WRITE & FILE_MODE_ALL == FILE_MODE_WRITE) by (bit_vector);
        FileMode { bits: FILE_MODE_WRITE }
    }

    /// The bits of the set. None of them is a bit that no flag names.
    pub fn bits(&self) -> (bits: u32)
        ensures
            bits == self.value(),
            bits & FILE_MODE_ALL == bits,
    {
        proof {
            use_type_invariant(self);
        }
        self.bits
    }

    /// The set with these bits, or nothing if one of them is not the bit of a flag.
    pub fn from_bits(bits: u32) -> (set: Option<FileMode>)
        ensures
            set is Some <==> bits & FILE_MODE_ALL == bits,
            set matches Some(set) ==> set.value() == bits,
    {
        if bits & FILE_MODE_ALL == bits {
            Some(FileMode { bits })
        } else {
            None
        }
    }

    /// The set of no flags.
    pub fn empty() -> (set: FileMode)
        ensures
            set.value() == 0,
    {
        proof {
            lemma_bounds_u32(FILE_MODE_ALL);
        }
        FileMode { bits: 0 }
    }

    /// The set of all flags.
    pub fn all() -> (set: FileMode)
        ensures
            set.value() == FILE_MODE_ALL,
    {
        proof {
            lemma_bounds_u32(FILE_MODE_ALL);
        }
        FileMode { bits: FILE_MODE_ALL }
    }

    /// The set with those of these bits that are the bit of a flag.
    pub fn from_bits_truncate(bits: u32) -> (set: FileMode)
        ensures
            set.value() == bits & FILE_MODE_ALL,
    {
        proof {
            lemma_truncated_u32(bits, FILE_MODE_ALL);
        }
        FileMode { bits: bits & FILE_MODE_ALL }
    }

    /// Whether the set has no flags.
    pub fn is_empty(&self) -> (empty: bool)
        ensures
            empty == (self.value() == 0),
    {
        self.bits == 0
    }

    /// Whether the set has all flags.
    pub fn is_all(&self) -> (all: bool)
        ensures
            all == (self.value() == FILE_MODE_ALL),
    {
        self.bits == FILE_MODE_ALL
    }

    /// Whether a flag is in both sets.
    pub fn intersects(&self, other: FileMode) -> (intersects: bool)
        ensures
            intersects == (self.value() & other.value() != 0),
    {
        self.bits & other.bits != 0
    }

    /// Whether each flag in `other` is in `self`.
    pub fn contains(&self, other: FileMode) -> (contains: bool)
        ensures
            contains == (self.value() & other.value() == other.value()),
    {
        self.bits & other.bits == other.bits
    }

    /// The set of the flags in `self` and those in `other`.
    pub fn union(self, other: FileMode) -> (set: FileMode)
        ensures
            set.value() == self.value() | other.value(),
    {
        proof {
            use_type_invariant(&self);
            use_type_invariant(&other);
            lemma_named_u32(self.bits, other.bits, FILE_MODE_ALL);
        }
        FileMode { bits: self.bits | other.bits }
    }

    /// The set of the flags that are in both sets.
    pub fn intersection(self, other: FileMode) -> (set: FileMode)
        ensures
            set.value() == self.value() & other.value(),
    {
        proof {
            use_type_invariant(&self);
            use_type_invariant(&other);
            lemma_named_u32(self.bits, other.bits, FILE_MODE_ALL);
        }
        FileMode { bits: self.bits & other.bits }
    }

    /// The set of the flags in `self` that are not in `other`.
    pub fn difference(self, other: FileMode) -> (set: FileMode)
        ensures
            set.value() == self.value() & !other.value(),
    {
        proof {
            use_type_invariant(&self);
            use_type_invariant(&other);
            lemma_named_u32(self.bits, other.bits, FILE_MODE_ALL);
        }
        FileMode { bits: self.bits & !other.bits }
    }

    /// The set of the flags that are in one of the sets but not in the other.
    pub fn symmetric_difference(self, other: FileMode) -> (set: FileMode)
        ensures
            set.value() == self.value() ^ other.value(),
    {
        proof {
            use_type_invariant(&self);
            use_type_invariant(&other);
            lemma_named_u32(self.bits, other.bits, FILE_MODE_ALL);
        }
        FileMode { bits: self.bits ^ other.bits }
    }

    /// The set of the flags that are not in `self`.
    pub fn complement(self) -> (set: FileMode)
        ensures
            set.value() == !self.value() & FILE_MODE_ALL,
    {
        Self::from_bits_truncate(!self.bits)
    }

    /// Adds the flags in `other`.
    pub fn insert(&mut self, other: FileMode)
        ensures
            final(self).value() == old(self).value() | other.value(),
    {
        *self = self.union(other);
    }

    /// Takes out the flags in `other`.
    pub fn remove(&mut self, other: FileMode)
        ensures
            final(self).value() == old(self).value() & !other.value(),
    {
        *self = self.difference(other);
    }

    /// Adds those of the flags in `other` that are not in the set, and takes out the rest of them.
    pub fn toggle(&mut self, other: FileMode)
        ensures
            final(self).value() == old(self).value() ^ other.value(),
    {
        *self = self.symmetric_difference(other);
    }

    /// Adds the flags in `other`, or takes them out.
    pub fn set(&mut self, other: FileMode, present: bool)
        ensures
            final(self).value() == if present {
                old(self).value() | other.value()
            } else {
                old(self).value() & !other.value()
            },
    {
        if present {
            self.insert(other);
        } else {
            self.remove(other);
        }
    }

    /// The names of the flags in the set, as they are shown to a person.
    pub fn debug_string(&self) -> (text: String)
        ensures
            text@ == flags_text(self.names()),
    {
        let text = FlagsText::new();
        let text = text.with(self.bits & FILE_MODE_READ != 0, "READ");
        let text = text.with(self.bits & FILE_MODE_WRITE != 0, "WRITE");
        text.finish()
    }
}

/// A file's status as the C side holds it.
pub type Status = libc::c_int;

/// The C side's bit for a descriptor that is active.
pub const STATUS_DESCRIPTOR_ACTIVE: Status = 1;

/// The C side's bit for a descriptor that can be read.
pub const STATUS_DESCRIPTOR_READABLE: Status = 2;

/// The C side's bit for a descriptor that can be written.
pub const STATUS_DESCRIPTOR_WRITABLE: Status = 4;

/// The C side's bit for a descriptor that is closed.
pub const STATUS_DESCRIPTOR_CLOSED: Status = 8;

/// The C side's bit for a futex that was woken.
pub const STATUS_FUTEX_WAKEUP: Status = 16;

/// The bits that the flags of [`FileStatus`] name.
pub const FILE_STATUS_ALL: Status = STATUS_DESCRIPTOR_ACTIVE | STATUS_DESCRIPTOR_READABLE
    | STATUS_DESCRIPTOR_WRITABLE | STATUS_DESCRIPTOR_CLOSED | STATUS_FUTEX_WAKEUP;

/// What can currently be said of a file.
#[derive(Clone, Copy, Debug, PartialEq, Eq, Structural)]
pub struct FileStatus {
    bits: Status,
}

impl FileStatus {
    /// The bits of the set.
    pub closed spec fn value(self) -> Status {
        self.bits
    }

    #[verifier::type_invariant]
    spec fn well_formed(self) -> bool {
        self.bits & FILE_STATUS_ALL == self.bits
    }

    /// The set with these bits.
    pub closed spec fn of_value(bits: Status) -> FileStatus {
        FileStatus { bits }
    }

    /// A set is determined by its bits.
    pub broadcast proof fn lemma_of_value(bits: Status)
        ensures
            (#[trigger] FileStatus::of_value(bits)).value() == bits,
            forall|set: FileStatus| #[trigger] set.value() == bits ==> set == FileStatus::of_value(bits),
    {
    }

    /// A flag is in both sets.
    pub open spec fn meets(self, other: FileStatus) -> bool {
        self.value() & other.value() != 0
    }

    /// The names of the flags in the set, in the order of their declaration.
    pub open spec fn names(self) -> Seq<Seq<char>> {
        let bits = self.value();
        let names = with_name(Seq::empty(), bits & STATUS_DESCRIPTOR_ACTIVE != 0, "ACTIVE"@);
        let names = with_name(names, bits & STATUS_DESCRIPTOR_READABLE != 0, "READABLE"@);
        let names = with_name(names, bits & STATUS_DESCRIPTOR_WRITABLE != 0, "WRITABLE"@);
        let names = with_name(names, bits & STATUS_DESCRIPTOR_CLOSED != 0, "CLOSED"@);
        with_name(names, bits & STATUS_FUTEX_WAKEUP != 0, "FUTEX_WAKEUP"@)
    }

    /// Has been initialized, and it is now OK to unblock any plugin waiting on a particular
    /// status.
    #[allow(non_snake_case)]
    pub fn ACTIVE() -> (set: FileStatus)
        ensures
            set.value() == STATUS_DESCRIPTOR_ACTIVE,
    {
        assert(STATUS_DESCRIPTOR_ACTIVE & FILE_STATUS_ALL == STATUS_DESCRIPTOR_ACTIVE)
            by (bit_vector);
        FileStatus { bits: STATUS_DESCRIPTOR_ACTIVE }
    }

    /// Can be read, i.e. there is data waiting for the user.
    #[allow(non_snake_case)]
    pub fn READABLE() -> (set: FileStatus)
        ensures
            set.value() == STATUS_DESCRIPTOR_READABLE,
    {
        assert(STATUS_DESCRIPTOR_READABLE & FILE_STATUS_ALL == STATUS_DESCRIPTOR_READABLE)
            by (bit_vector);
        FileStatus { bits: STATUS_DESCRIPTOR_READABLE }
    }

    /// Can be written, i.e. there is available buffer space.
    #[allow(non_snake_case)]
    pub fn WRITABLE() -> (set: FileStatus)
        ensures
            set.value() == STATUS_DESCRIPTOR_WRITABLE,
    {
        assert(STATUS_DESCRIPTOR_WRITABLE & FILE_STATUS_ALL == STATUS_DESCRIPTOR_WRITABLE)
            by (bit_vector);
        FileStatus { bits: STATUS_DESCRIPTOR_WRITABLE }
    }

    /// The user already called close.
    #[allow(non_snake_case)]
    pub fn CLOSED() -> (set: FileStatus)
        ensures
            set.value() == STATUS_DESCRIPTOR_CLOSED,
    {
        assert(STATUS_DESCRIPTOR_CLOSED & FILE_STATUS_ALL == STATUS_DESCRIPTOR_CLOSED)
            by (bit_vector);
        FileStatus { bits: STATUS_DESCRIPTOR_CLOSED }
    }

    /// A wakeup operation occurred on a futex.
    #[allow(non_snake_case)]
    pub fn FUTEX_WAKEUP() -> (set: FileStatus)
        ensures
            set.value() == STATUS_FUTEX_WAKEUP,
    {
        assert(STATUS_FUTEX_WAKEUP & FILE_STATUS_ALL == STATUS_FUTEX_WAKEUP) by (bit_vector);
        FileStatus { bits: STATUS_FUTEX_WAKEUP }
    }

    /// The bits of the set. None of them is a bit that no flag names.
    pub fn bits(&self) -> (bits: Status)
        ensures
            bits == self.value(),
            bits & FILE_STATUS_ALL == bits,
    {
        proof {
            use_type_invariant(self);
        }
        self.bits
    }

    /// The set with these bits, or nothing if one of them is not the bit of a flag.
    pub fn from_bits(bits: Status) -> (set: Option<FileStatus>)
        ensures
            set is Some <==> bits & FILE_STATUS_ALL == bits,
            set matches Some(set) ==> set.value() == bits,
    {
        if bits & FILE_STATUS_ALL == bits {
            Some(FileStatus { bits })
        } else {
            None
        }
    }

    /// The set that the C side holds as `status`, which must have no unexpected bits.
    pub fn from_status(status: Status) -> (set: FileStatus)
        requires
            status & FILE_STATUS_ALL == status,
        ensures
            set.value() == status,
            set == FileStatus::of_value(status),
    {
        FileStatus { bits: status }
    }

    /// The set of no flags.
    pub fn empty() -> (set: FileStatus)
        ensures
            set.value() == 0,
    {
        proof {
            lemma_bounds_i32(FILE_STATUS_ALL);
        }
        FileStatus { bits: 0 }
    }

    /// The set of all flags.
    pub fn all() -> (set: FileStatus)
        ensures
            set.value() == FILE_STATUS_ALL,
    {
        proof {
            lemma_bounds_i32(FILE_STATUS_ALL);
        }
        FileStatus { bits: FILE_STATUS_ALL }
    }

    /// The set with those of these bits that are the bit of a flag.
    pub fn from_bits_truncate(bits: Status) -> (set: FileStatus)
        ensures
            set.value() == bits & FILE_STATUS_ALL,
    {
        proof {
            lemma_truncated_i32(bits, FILE_STATUS_ALL);
        }
        FileStatus { bits: bits & FILE_STATUS_ALL }
    }

    /// Whether the set has no flags.
    pub fn is_empty(&self) -> (empty: bool)
        ensures
            empty == (self.value() == 0),
    {
        self.bits == 0
    }

    /// Whether the set has all flags.
    pub fn is_all(&self) -> (all: bool)
        ensures
            all == (self.value() == FILE_STATUS_ALL),
    {
        self.bits == FILE_STATUS_ALL
    }

    /// Whether a flag is in both sets.
    pub fn intersects(&self, other: FileStatus) -> (intersects: bool)
        ensures
            intersects == self.meets(other),
    {
        self.bits & other.bits != 0
    }

    /// Whether each flag in `other` is in `self`.
    pub fn contains(&self, other: FileStatus) -> (contains: bool)
        ensures
            contains == (self.value() & other.value() == other.value()),
    {
        self.bits & other.bits == other.bits
    }

    /// The set of the flags in `self` and those in `other`.
    pub fn union(self, other: FileStatus) -> (set: FileStatus)
        ensures
            set.value() == self.value() | other.value(),
    {
        proof {
            use_type_invariant(&self);
            use_type_invariant(&other);
            lemma_named_i32(self.bits, other.bits, FILE_STATUS_ALL);
        }
        FileStatus { bits: self.bits | other.bits }
    }

    /// The set of the flags that are in both sets.
    pub fn intersection(self, other: FileStatus) -> (set: FileStatus)
        ensures
            set.value() == self.value() & other.value(),
    {
        proof {
            use_type_invariant(&self);
            use_type_invariant(&other);
            lemma_named_i32(self.bits, other.bits, FILE_STATUS_ALL);
        }
        FileStatus { bits: self.bits & other.bits }
    }

    /// The set of the flags in `self` that are not in `other`.
    pub fn difference(self, other: FileStatus) -> (set: FileStatus)
        ensures
            set.value() == self.value() & !other.value(),
    {
        proof {
            use_type_invariant(&self);
            use_type_invariant(&other);
            lemma_named_i32(self.bits, other.bits, FILE_STATUS_ALL);
        }
        FileStatus { bits: self.bits & !other.bits }
    }

    /// The set of the flags that are in one of the sets but not in the other.
    pub fn symmetric_difference(self, other: FileStatus) -> (set: FileStatus)
        ensures
            set.value() == self.value() ^ other.value(),
    {
        proof {
            use_type_invariant(&self);
            use_type_invariant(&other);
            lemma_named_i32(self.bits, other.bits, FILE_STATUS_ALL);
        }
        FileStatus { bits: self.bits ^ other.bits }
    }

    /// The set of the flags that are not in `self`.
    pub fn complement(self) -> (set: FileStatus)
        ensures
            set.value() == !self.value() & FILE_STATUS_ALL,
    {
        Self::from_bits_truncate(!self.bits)
    }

    /// Adds the flags in `other`.
    pub fn insert(&mut self, other: FileStatus)
        ensures
            final(self).value() == old(self).value() | other.value(),
    {
        *self = self.union(other);
    }

    /// Takes out the flags in `other`.
    pub fn remove(&mut self, other: FileStatus)
        ensures
            final(self).value() == old(self).value() & !other.value(),
    {
        *self = self.difference(other);
    }

    /// Adds those of the flags in `other` that are not in the set, and takes out the rest of them.
    pub fn toggle(&mut self, other: FileStatus)
        ensures
            final(self).value() == old(self).value() ^ other.value(),
    {
        *self = self.symmetric_difference(other);
    }

    /// Adds the flags in `other`, or takes them out.
    pub fn set(&mut self, other: FileStatus, present: bool)
        ensures
            final(self).value() == if present {
                old(self).value() | other.value()
            } else {
                old(self).value() & !other.value()
            },
    {
        if present {
            self.insert(other);
        } else {
            self.remove(other);
        }
    }

    /// The names of the flags in the set, as they are shown to a person.
    pub fn debug_string(&self) -> (text: String)
        ensures
            text@ == flags_text(self.names()),
    {
        let text = FlagsText::new();
        let text = text.with(self.bits & STATUS_DESCRIPTOR_ACTIVE != 0, "ACTIVE");
        let text = text.with(self.bits & STATUS_DESCRIPTOR_READABLE != 0, "READABLE");
        let text = text.with(self.bits & STATUS_DESCRIPTOR_WRITABLE != 0, "WRITABLE");
        let text = text.with(self.bits & STATUS_DESCRIPTOR_CLOSED != 0, "CLOSED");
        let text = text.with(self.bits & STATUS_FUTEX_WAKEUP != 0, "FUTEX_WAKEUP");
        text.finish()
    }
}

impl vstd::std_specs::convert::FromSpecImpl<FileStatus> for Status {
    open spec fn obeys_from_spec() -> bool {
        true
    }

    open spec fn from_spec(status: FileStatus) -> Status {
        status.value()
    }
}

impl From<FileStatus> for Status {
    fn from(status: FileStatus) -> (bits: Status)
        ensures
            bits == status.value(),
    {
        status.bits
    }
}

/// A status that goes to the C side and back is the same status, and so are the bits of one that
/// comes from there.
pub proof fn law_status_roundtrip(status: FileStatus, bits: Status)
    ensures
        FileStatus::of_value(status.value()) == status,
        FileStatus::of_value(bits).value() == bits,
{
}

/// The bits that the flags of [`DescriptorFlags`] name.
pub const DESCRIPTOR_FLAGS_ALL: u32 = 1;

/// The flags of a descriptor. Linux only supports a single one:
/// <https://www.gnu.org/software/libc/manual/html_node/Descriptor-Flags.html>.
#[derive(Clone, Copy, Debug, PartialEq, Eq, Structural)]
pub struct DescriptorFlags {
    bits: u32,
}

impl DescriptorFlags {
    /// The bits of the set.
    pub closed spec fn value(self) -> u32 {
        self.bits
    }

    #[verifier::type_invariant]
    spec fn well_formed(self) -> bool {
        self.bits & DESCRIPTOR_FLAGS_ALL == self.bits
    }

    /// The names of the flags in the set.
    pub open spec fn names(self) -> Seq<Seq<char>> {
        with_name(Seq::empty(), self.value() & DESCRIPTOR_FLAGS_ALL != 0, "CLOEXEC"@)
    }

    /// The set of `FD_CLOEXEC` alone.
    #[allow(non_snake_case)]
    pub fn CLOEXEC() -> (set: DescriptorFlags)
        ensures
            set.value() == FD_CLOEXEC,
    {
        assert(1u32 & DESCRIPTOR_FLAGS_ALL == 1) by (bit_vector);
        DescriptorFlags { bits: libc_fd_cloexec() as u32 }
    }

    /// The bits of the set. None of them is a bit that no flag names.
    pub fn bits(&self) -> (bits: u32)
        ensures
            bits == self.value(),
            bits & DESCRIPTOR_FLAGS_ALL == bits,
    {
        proof {
            use_type_invariant(self);
        }
        self.bits
    }

    /// The set with these bits, or nothing if one of them is not the bit of a flag.
    pub fn from_bits(bits: u32) -> (set: Option<DescriptorFlags>)
        ensures
            set is Some <==> bits & DESCRIPTOR_FLAGS_ALL == bits,
            set matches Some(set) ==> set.value() == bits,
    {
        if bits & DESCRIPTOR_FLAGS_ALL == bits {
            Some(DescriptorFlags { bits })
        } else {
            None
        }
    }

    /// The set of no flags.
    pub fn empty() -> (set: DescriptorFlags)
        ensures
            set.value() == 0,
    {
        proof {
            lemma_bounds_u32(DESCRIPTOR_FLAGS_ALL);
        }
        DescriptorFlags { bits: 0 }
    }

    /// The set of all flags.
    pub fn all() -> (set: DescriptorFlags)
        ensures
            set.value() == DESCRIPTOR_FLAGS_ALL,
    {
        proof {
            lemma_bounds_u32(DESCRIPTOR_FLAGS_ALL);
        }
        DescriptorFlags { bits: DESCRIPTOR_FLAGS_ALL }
    }

    /// The set with those of these bits that are the bit of a flag.
    pub fn from_bits_truncate(bits: u32) -> (set: DescriptorFlags)
        ensures
            set.value() == bits & DESCRIPTOR_FLAGS_ALL,
    {
        proof {
            lemma_truncated_u32(bits, DESCRIPTOR_FLAGS_ALL);
        }
        DescriptorFlags { bits: bits & DESCRIPTOR_FLAGS_ALL }
    }

    /// Whether the set has no flags.
    pub fn is_empty(&self) -> (empty: bool)
        ensures
            empty == (self.value() == 0),
    {
        self.bits == 0
    }

    /// Whether the set has all flags.
    pub fn is_all(&self) -> (all: bool)
        ensures
            all == (self.value() == DESCRIPTOR_FLAGS_ALL),
    {
        self.bits == DESCRIPTOR_FLAGS_ALL
    }

    /// Whether a flag is in both sets.
    pub fn intersects(&self, other: DescriptorFlags) -> (intersects: bool)
        ensures
            intersects == (self.value() & other.value() != 0),
    {
        self.bits & other.bits != 0
    }

    /// Whether each flag in `other` is in `self`.
    pub fn contains(&self, other: DescriptorFlags) -> (contains: bool)
        ensures
            contains == (self.value() & other.value() == other.value()),
    {
        self.bits & other.bits == other.bits
    }

    /// The set of the flags in `self` and those in `other`.
    pub fn union(self, other: DescriptorFlags) -> (set: DescriptorFlags)
        ensures
            set.value() == self.value() | other.value(),
    {
        proof {
            use_type_invariant(&self);
            use_type_invariant(&other);
            lemma_named_u32(self.bits, other.bits, DESCRIPTOR_FLAGS_ALL);
        }
        DescriptorFlags { bits: self.bits | other.bits }
    }

    /// The set of the flags that are in both sets.
    pub fn intersection(self, other: DescriptorFlags) -> (set: DescriptorFlags)
        ensures
            set.value() == self.value() & other.value(),
    {
        proof {
            use_type_invariant(&self);
            use_type_invariant(&other);
            lemma_named_u32(self.bits, other.bits, DESCRIPTOR_FLAGS_ALL);
        }
        DescriptorFlags { bits: self.bits & other.bits }
    }

    /// The set of the flags in `self` that are not in `other`.
    pub fn difference(self, other: DescriptorFlags) -> (set: DescriptorFlags)
        ensures
            set.value() == self.value() & !other.value(),
    {
        proof {
            use_type_invariant(&self);
            use_type_invariant(&other);
            lemma_named_u32(self.bits, other.bits, DESCRIPTOR_FLAGS_ALL);
        }
        DescriptorFlags { bits: self.bits & !other.bits }
    }

    /// The set of the flags that are in one of the sets but not in the other.
    pub fn symmetric_difference(self, other: DescriptorFlags) -> (set: DescriptorFlags)
        ensures
            set.value() == self.value() ^ other.value(),
    {
        proof {
            use_type_invariant(&self);
            use_type_invariant(&other);
            lemma_named_u32(self.bits, other.bits, DESCRIPTOR_FLAGS_ALL);
        }
        DescriptorFlags { bits: self.bits ^ other.bits }
    }

    /// The set of the flags that are not in `self`.
    pub fn complement(self) -> (set: DescriptorFlags)
        ensures
            set.value() == !self.value() & DESCRIPTOR_FLAGS_ALL,
    {
        Self::from_bits_truncate(!self.bits)
    }

    /// Adds the flags in `other`.
    pub fn insert(&mut self, other: DescriptorFlags)
        ensures
            final(self).value() == old(self).value() | other.value(),
    {
        *self = self.union(other);
    }

    /// Takes out the flags in `other`.
    pub fn remove(&mut self, other: DescriptorFlags)
        ensures
            final(self).value() == old(self).value() & !other.value(),
    {
        *self = self.difference(other);
    }

    /// Adds those of the flags in `other` that are not in the set, and takes out the rest of them.
    pub fn toggle(&mut self, other: DescriptorFlags)
        ensures
            final(self).value() == old(self).value() ^ other.value(),
    {
        *self = self.symmetric_difference(other);
    }

    /// Adds the flags in `other`, or takes them out.
    pub fn set(&mut self, other: DescriptorFlags, present: bool)
        ensures
            final(self).value() == if present {
                old(self).value() | other.value()
            } else {
                old(self).value() & !other.value()
            },
    {
        if present {
            self.insert(other);
        } else {
            self.remove(other);
        }
    }

    /// The names of the flags in the set, as they are shown to a person.
    pub fn debug_string(&self) -> (text: String)
        ensures
            text@ == flags_text(self.names()),
    {
        let text = FlagsText::new();
        let text = text.with(self.bits & DESCRIPTOR_FLAGS_ALL != 0, "CLOEXEC");
        text.finish()
    }
}

/// The names of file flags are those of the bits that are on, in the order of the flags.
pub proof fn law_file_flags_names(set: FileFlags)
    ensures
        set.names() == (if set.value() & 0x800 != 0 {
                seq!["NONBLOCK"@]
            } else {
                Seq::empty()
            }) + (if set.value() & 0x400 != 0 {
                seq!["APPEND"@]
            } else {
                Seq::empty()
            }) + (if set.value() & 0x2000 != 0 {
                seq!["ASYNC"@]
            } else {
                Seq::empty()
            }) + (if set.value() & 0x4000 != 0 {
                seq!["DIRECT"@]
            } else {
                Seq::empty()
            }) + (if set.value() & 0x4_0000 != 0 {
                seq!["NOATIME"@]
            } else {
                Seq::empty()
            }),
{
    assert(set.names() =~= (if set.value() & 0x800 != 0 {
                seq!["NONBLOCK"@]
            } else {
                Seq::empty()
            }) + (if set.value() & 0x400 != 0 {
                seq!["APPEND"@]
            } else {
                Seq::empty()
            }) + (if set.value() & 0x2000 != 0 {
                seq!["ASYNC"@]
            } else {
                Seq::empty()
            }) + (if set.value() & 0x4000 != 0 {
                seq!["DIRECT"@]
            } else {
                Seq::empty()
            }) + (if set.value() & 0x4_0000 != 0 {
                seq!["NOATIME"@]
            } else {
                Seq::empty()
            }));
}

/// The names of a mode are those of the bits that are on, in the order of the flags.
pub proof fn law_file_mode_names(set: FileMode)
    ensures
        set.names() == (if set.value() & 1 != 0 {
                seq!["READ"@]
            } else {
                Seq::empty()
            }) + (if set.value() & 2 != 0 {
                seq!["WRITE"@]
            } else {
                Seq::empty()
            }),
{
    assert(set.names() =~= (if set.value() & 1 != 0 {
                seq!["READ"@]
            } else {
                Seq::empty()
            }) + (if set.value() & 2 != 0 {
                seq!["WRITE"@]
            } else {
                Seq::empty()
            }));
}

/// The names of a status are those of the bits that are on, in the order of the flags.
pub proof fn law_file_status_names(set: FileStatus)
    ensures
        set.names() == (if set.value() & 1 != 0 {
                seq!["ACTIVE"@]
            } else {
                Seq::empty()
            }) + (if set.value() & 2 != 0 {
                seq!["READABLE"@]
            } else {
                Seq::empty()
            }) + (if set.value() & 4 != 0 {
                seq!["WRITABLE"@]
            } else {
                Seq::empty()
            }) + (if set.value() & 8 != 0 {
                seq!["CLOSED"@]
            } else {
                Seq::empty()
            }) + (if set.value() & 16 != 0 {
                seq!["FUTEX_WAKEUP"@]
            } else {
                Seq::empty()
            }),
{
    assert(set.names() =~= (if set.value() & 1 != 0 {
                seq!["ACTIVE"@]
            } else {
                Seq::empty()
            }) + (if set.value() & 2 != 0 {
                seq!["READABLE"@]
            } else {
                Seq::empty()
            }) + (if set.value() & 4 != 0 {
                seq!["WRITABLE"@]
            } else {
                Seq::empty()
            }) + (if set.value() & 8 != 0 {
                seq!["CLOSED"@]
            } else {
                Seq::empty()
            }) + (if set.value() & 16 != 0 {
                seq!["FUTEX_WAKEUP"@]
            } else {
                Seq::empty()
            }));
}

/// The name of descriptor flags is that of the only one, if it is on.
pub proof fn law_descriptor_flags_names(set: DescriptorFlags)
    ensures
        set.names() == (if set.value() & 1 != 0 {
                seq!["CLOEXEC"@]
            } else {
                Seq::empty()
            }),
{
    assert(set.names() =~= (if set.value() & 1 != 0 {
                seq!["CLOEXEC"@]
            } else {
                Seq::empty()
            }));
}

} // verus!
