//! How many open descriptors and other pointers a file has, and what becomes of the file as they
//! come and go.
//!
//! A descriptor is open from when it is made, as a new one or as the clone of another, until it is
//! closed or let go of. Each has a pointer to its file; there are others, such as those that the C
//! side has asked for.

use crate::cshadow::CModel;
use crate::descriptor::closes_file;
use crate::descriptor::open_descriptors_of;
use crate::descriptor::Descriptor;
use crate::file::goes_away;
use crate::file::pointer_gone;
use crate::file::PosixFile;
use crate::shared::counted;
use crate::shared::pointed_to;
use crate::syscall::SyscallResult;
use atomic_refcell::BorrowMutError;
use vstd::prelude::*;
use vstd::seq_lib::*;

verus! {

/// The files that open descriptors point to, one for each descriptor.
pub open spec fn files_of(open: Seq<Descriptor>) -> Seq<PosixFile> {
    open.map_values(|descriptor: Descriptor| descriptor.file())
}

/// How many of the open descriptors point to a file.
pub open spec fn open_descriptors(open: Seq<Descriptor>, file: PosixFile) -> nat {
    files_of(open).to_multiset().count(file)
}

/// How many pointers there are to a file, from the open descriptors and from elsewhere.
pub open spec fn pointers(open: Seq<Descriptor>, others: Seq<PosixFile>, file: PosixFile) -> nat {
    (files_of(open) + others).to_multiset().count(file)
}

/// How many pointers there are to the count of a file's open descriptors: the file has one, and
/// each of the descriptors has another.
pub open spec fn count_pointers(open: Seq<Descriptor>, file: PosixFile) -> nat {
    open_descriptors(open, file) + 1
}

/// All open descriptors of a file are counted together, however they were made.
pub proof fn law_descriptors_of_a_file_share_its_count(a: Descriptor, b: Descriptor)
    requires
        a.is_counted(),
        b.is_counted(),
        a.file() == b.file(),
    ensures
        a.count() == b.count(),
{
}

/// There are never more open descriptors of a file than pointers to it. What is between the two
/// numbers are the pointers from elsewhere.
pub proof fn law_descriptors_within_pointers(
    open: Seq<Descriptor>,
    others: Seq<PosixFile>,
    file: PosixFile,
)
    ensures
        open_descriptors(open, file) <= pointers(open, others, file),
        pointers(open, others, file) == open_descriptors(open, file) + others.to_multiset().count(
            file,
        ),
{
    lemma_multiset_commutative(files_of(open), others);
}

/// When a descriptor is opened, as a new one or as a clone, there is one more of its file, and one
/// more pointer to it. For any other file there are as many as before.
pub proof fn law_opened(
    open: Seq<Descriptor>,
    others: Seq<PosixFile>,
    descriptor: Descriptor,
    file: PosixFile,
)
    ensures
        open_descriptors(open.push(descriptor), file) == open_descriptors(open, file) + if file
            == descriptor.file() {
            1nat
        } else {
            0
        },
        pointers(open.push(descriptor), others, file) == pointers(open, others, file) + if file
            == descriptor.file() {
            1nat
        } else {
            0
        },
{
    assert(files_of(open.push(descriptor)) =~= files_of(open).push(descriptor.file()));
    to_multiset_build(files_of(open), descriptor.file());
    law_descriptors_within_pointers(open, others, file);
    law_descriptors_within_pointers(open.push(descriptor), others, file);
}

/// When a descriptor goes away, closed or not, there is one less of its file, and one pointer less
/// to it. For any other file there are as many as before.
pub proof fn law_gone(open: Seq<Descriptor>, others: Seq<PosixFile>, at: int, file: PosixFile)
    requires
        0 <= at < open.len(),
    ensures
        open_descriptors(open, file) == open_descriptors(open.remove(at), file) + if file
            == open[at].file() {
            1nat
        } else {
            0
        },
        pointers(open, others, file) == pointers(open.remove(at), others, file) + if file
            == open[at].file() {
            1nat
        } else {
            0
        },
{
    assert(files_of(open.remove(at)) =~= files_of(open).remove(at));
    to_multiset_remove(files_of(open), at);
    files_of(open).to_multiset_ensures();
    assert(files_of(open)[at] == open[at].file());
    assert(files_of(open).contains(open[at].file()));
    law_descriptors_within_pointers(open, others, file);
    law_descriptors_within_pointers(open.remove(at), others, file);
}

/// Closing a descriptor closes its file if and only if no other open descriptor points to the file.
/// It does not matter how these were made, in which order others went away before or whether they
/// were closed, nor which pointers to the file there are elsewhere.
pub proof fn law_last_descriptor_closes_file(open: Seq<Descriptor>, at: int)
    requires
        0 <= at < open.len(),
    ensures
        closes_file(open_descriptors(open, open[at].file())) <==> forall|other: int|
            0 <= other < open.len() && other != at ==> (#[trigger] open[other]).file()
                != open[at].file(),
{
    let file = open[at].file();
    let rest = open.remove(at);
    law_gone(open, Seq::empty(), at, file);
    files_of(rest).to_multiset_ensures();
    assert(closes_file(open_descriptors(open, file)) <==> !files_of(rest).contains(file));
    if files_of(rest).contains(file) {
        let i = choose|i: int| 0 <= i < files_of(rest).len() && files_of(rest)[i] == file;
        let other = if i < at {
            i
        } else {
            i + 1
        };
        assert(rest[i] == open[other]);
        assert(open[other].file() == file);
    } else {
        assert forall|other: int| 0 <= other < open.len() && other != at implies (
        #[trigger] open[other]).file() != file by {
            let i = if other < at {
                other
            } else {
                other - 1
            };
            assert(rest[i] == open[other]);
            assert(files_of(rest)[i] == open[other].file());
        }
    }
}

/// Of two descriptors that were each made for the same file, whichever is closed first does not
/// close it, and the other does.
pub proof fn law_two_descriptors_of_a_file(first: Descriptor, second: Descriptor)
    requires
        first.file() == second.file(),
    ensures
        !closes_file(open_descriptors(seq![first, second], first.file())),
        closes_file(open_descriptors(seq![first, second].remove(0), second.file())),
        closes_file(open_descriptors(seq![first, second].remove(1), first.file())),
{
    let both = seq![first, second];
    assert(both[1].file() == both[0].file());
    law_last_descriptor_closes_file(both, 0);
    law_last_descriptor_closes_file(both.remove(0), 0);
    law_last_descriptor_closes_file(both.remove(1), 0);
    assert(both.remove(0)[0] == second);
    assert(both.remove(1)[0] == first);
}

/// The number of pointers to a file's count tells how many open descriptors the file has.
pub proof fn law_count_tells_descriptors(open: Seq<Descriptor>, file: PosixFile)
    requires
        count_pointers(open, file) <= usize::MAX,
    ensures
        open_descriptors_of(count_pointers(open, file) as usize) == open_descriptors(open, file),
{
}

/// A close does without closing the file if and only if another open descriptor points to the file,
/// whatever flags there are. What is asked of the close is that it goes by the pointers to the
/// count that there are when it is called: those of the open descriptors, and the file's own.
pub proof fn law_close_goes_by_open_descriptors(
    open: Seq<Descriptor>,
    at: int,
    closed: Result<Option<SyscallResult>, BorrowMutError>,
)
    requires
        0 <= at < open.len(),
        exists|found: usize| #[trigger]
            counted(open[at].file().count(), found) && found > 0 && (closed == Ok::<
                Option<SyscallResult>,
                BorrowMutError,
            >(None) <==> found != 2),
        forall|found: usize| #[trigger]
            counted(open[at].file().count(), found) ==> found == count_pointers(
                open,
                open[at].file(),
            ),
    ensures
        closed == Ok::<Option<SyscallResult>, BorrowMutError>(None) <==> exists|other: int|
            0 <= other < open.len() && other != at && (#[trigger] open[other]).file()
                == open[at].file(),
{
    law_last_descriptor_closes_file(open, at);
}

/// A further pointer to a file makes one more of them, and when it is dropped, there are as many as
/// before. As long as an open descriptor points to the file, dropping the other pointer changes
/// nothing else: the file neither is closed nor goes away, and no listener is let go of. What is
/// asked of the drop is that it takes the pointer for the only one only if it is.
pub proof fn law_dropped_pointer(
    open: Seq<Descriptor>,
    others: Seq<PosixFile>,
    at: int,
    c: CModel,
    c_after: CModel,
)
    requires
        0 <= at < open.len(),
        pointer_gone(open[at].file(), c, c_after),
        pointed_to(open[at].file().cell(), 1) ==> goes_away(
            pointers(open, others.push(open[at].file()), open[at].file()),
        ),
    ensures
        pointers(open, others.push(open[at].file()), open[at].file()) == pointers(
            open,
            others,
            open[at].file(),
        ) + 1,
        pointers(
            open,
            others.push(open[at].file()).remove(others.len() as int),
            open[at].file(),
        ) == pointers(open, others, open[at].file()),
        !goes_away(pointers(open, others.push(open[at].file()), open[at].file())),
        c_after == c,
{
    let file = open[at].file();
    to_multiset_build(others, file);
    law_descriptors_within_pointers(open, others, file);
    law_descriptors_within_pointers(open, others.push(file), file);
    law_gone(open, others, at, file);
    assert(others.push(file).remove(others.len() as int) =~= others);
}

/// A file goes away with the last of its pointers, and not with any other.
pub proof fn law_last_pointer(open: Seq<Descriptor>, others: Seq<PosixFile>, at: int)
    requires
        0 <= at < others.len(),
    ensures
        goes_away(pointers(open, others, others[at])) <==> open_descriptors(open, others[at]) == 0
            && !others.remove(at).contains(others[at]),
{
    let file = others[at];
    law_descriptors_within_pointers(open, others, file);
    to_multiset_remove(others, at);
    others.to_multiset_ensures();
    others.remove(at).to_multiset_ensures();
    assert(others.contains(file));
    assert(others.to_multiset().count(file) == others.remove(at).to_multiset().count(file) + 1);
    assert(others.remove(at).contains(file) <==> others.remove(at).to_multiset().count(file) > 0);
}

} // verus!
