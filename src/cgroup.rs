//! The model of one cgroup directory and of the writes that controllers make
//! to its control files.
use vstd::prelude::*;
use vstd::string::*;

verus! {

/// One write of a value to a control file of a cgroup directory.
pub struct CgroupWrite {
    /// The name of the controller that asked for the write, for diagnostics.
    pub controller: String,
    /// The control file's name, relative to the cgroup directory.
    pub file: String,
    /// The text written to the file.
    pub value: String,
}

impl CgroupWrite {
    pub open spec fn pair(self) -> (Seq<char>, Seq<char>) {
        (self.file@, self.value@)
    }
}

/// The text that lifts a limit.
pub const MAX: &'static str = "max";

/// A write of `value` to `file` on behalf of `controller`.
pub fn control_write(controller: &str, file: &str, value: String) -> (r: CgroupWrite)
    ensures
        r.controller@ == controller@,
        r.file@ == file@,
        r.value@ == value@,
{
    CgroupWrite {
        controller: String::from_str(controller),
        file: String::from_str(file),
        value,
    }
}

/// The (file, value) pairs of a sequence of writes.
pub open spec fn write_pairs(w: Seq<CgroupWrite>) -> Seq<(Seq<char>, Seq<char>)> {
    w.map_values(|x: CgroupWrite| x.pair())
}

/// The contents of a cgroup directory, file name to file text, after the
/// given writes were made to it in order.
pub open spec fn after_writes(
    files: Map<Seq<char>, Seq<char>>,
    writes: Seq<(Seq<char>, Seq<char>)>,
) -> Map<Seq<char>, Seq<char>>
    decreases writes.len(),
{
    if writes.len() == 0 {
        files
    } else {
        after_writes(files, writes.drop_last()).insert(writes.last().0, writes.last().1)
    }
}

/// The files that a sequence of writes touches.
pub open spec fn written_files(writes: Seq<(Seq<char>, Seq<char>)>) -> Set<Seq<char>> {
    Set::new(|f: Seq<char>| exists|i: int| 0 <= i < writes.len() && #[trigger] writes[i].0 == f)
}

/// Writes leave every file that they do not name as it was.
pub proof fn lemma_untouched_files(
    files: Map<Seq<char>, Seq<char>>,
    writes: Seq<(Seq<char>, Seq<char>)>,
    f: Seq<char>,
)
    requires
        !written_files(writes).contains(f),
    ensures
        after_writes(files, writes).contains_key(f) == files.contains_key(f),
        files.contains_key(f) ==> after_writes(files, writes)[f] == files[f],
    decreases writes.len(),
{
    if writes.len() > 0 {
        let dl = writes.drop_last();
        assert forall|i: int| 0 <= i < dl.len() implies dl[i].0 != f by {
            assert(writes[i].0 == dl[i].0);
        }
        assert(writes[writes.len() - 1].0 != f);
        lemma_untouched_files(files, dl, f);
    }
}

/// Two directories that agree outside `others` and the files that the writes
/// name still agree outside `others` after the same writes.
proof fn lemma_same_writes_agree(
    a: Map<Seq<char>, Seq<char>>,
    b: Map<Seq<char>, Seq<char>>,
    writes: Seq<(Seq<char>, Seq<char>)>,
    others: Set<Seq<char>>,
)
    requires
        forall|f: Seq<char>|
            !others.contains(f) && !written_files(writes).contains(f) ==> (a.contains_key(f)
                == b.contains_key(f) && (a.contains_key(f) ==> a[f] == b[f])),
    ensures
        forall|f: Seq<char>|
            !others.contains(f) ==> (after_writes(a, writes).contains_key(f) == after_writes(
                b,
                writes,
            ).contains_key(f) && (after_writes(a, writes).contains_key(f) ==> after_writes(
                a,
                writes,
            )[f] == after_writes(b, writes)[f])),
    decreases writes.len(),
{
    if writes.len() > 0 {
        let dl = writes.drop_last();
        let last = writes.last();
        let others2 = others.insert(last.0);
        assert forall|f: Seq<char>|
            !others2.contains(f) && !written_files(dl).contains(f) implies (a.contains_key(f)
                == b.contains_key(f) && (a.contains_key(f) ==> a[f] == b[f])) by {
            if written_files(writes).contains(f) {
                let i = choose|i: int| 0 <= i < writes.len() && #[trigger] writes[i].0 == f;
                if i < writes.len() - 1 {
                    assert(dl[i].0 == f);
                }
            }
        }
        lemma_same_writes_agree(a, b, dl, others2);
        assert forall|f: Seq<char>| !others.contains(f) implies (after_writes(a, writes).contains_key(f)
            == after_writes(b, writes).contains_key(f) && (after_writes(a, writes).contains_key(f)
            ==> after_writes(a, writes)[f] == after_writes(b, writes)[f])) by {
            if f != last.0 {
                assert(!others2.contains(f));
            }
        }
    } else {
        assert forall|f: Seq<char>| !others.contains(f) implies !written_files(writes).contains(f) by {}
    }
}

/// Making the same writes a second time changes nothing.
pub proof fn lemma_writes_idempotent(
    files: Map<Seq<char>, Seq<char>>,
    writes: Seq<(Seq<char>, Seq<char>)>,
)
    ensures
        after_writes(after_writes(files, writes), writes) == after_writes(files, writes),
{
    let once = after_writes(files, writes);
    let none = Set::<Seq<char>>::empty();
    assert forall|f: Seq<char>|
        !none.contains(f) && !written_files(writes).contains(f) implies (once.contains_key(f)
            == files.contains_key(f) && (once.contains_key(f) ==> once[f] == files[f])) by {
        lemma_untouched_files(files, writes, f);
    }
    lemma_same_writes_agree(once, files, writes, none);
    let twice = after_writes(once, writes);
    assert forall|f: Seq<char>| #[trigger] twice.contains_key(f) == once.contains_key(f) by {
        assert(!none.contains(f));
    }
    assert forall|f: Seq<char>| #[trigger] twice.contains_key(f) implies twice[f] == once[f] by {
        assert(!none.contains(f));
    }
    assert(twice =~= once);
}

/// What became of one write to a control file.
pub enum WriteOutcome {
    /// The file took the value.
    Written,
    /// The file does not exist: the controller is not available here.
    Missing,
    /// The file exists but the write was refused (permissions, or a value
    /// that the kernel rejects).
    Rejected,
}

/// The errors of applying resource limits to a cgroup.
pub enum CgroupError {
    /// A control file does not exist.
    UnsupportedController { controller: String, file: String },
    /// A write to a control file was refused.
    ApplyFailed { controller: String, file: String, value: String },
    /// The process could not join the cgroup: it exited, or the cgroup is
    /// frozen or gone.
    AttachFailed { pid: u32 },
    /// The cgroup could not be removed: processes still belong to it.
    TeardownFailed,
}

/// What became of removing a cgroup directory.
pub enum RemoveOutcome {
    /// The directory was removed.
    Removed,
    /// There was no such directory.
    AlreadyGone,
    /// Processes still belong to the cgroup.
    Busy,
}

/// Places cgroups of containers under one root of the unified hierarchy.
pub struct CgroupManager {
    /// The directory under which each container gets its own cgroup.
    pub root: String,
}

impl CgroupManager {
    /// The cgroup directory of a container: its identifier under the root.
    pub fn path_for(&self, container_id: &str) -> (r: String)
        ensures
            r@ == self.root@ + seq!['/'] + container_id@,
    {
        let slash = "/";
        proof {
            reveal_strlit("/");
        }
        let path = self.root.clone().concat(slash);
        path.concat(container_id)
    }

    /// The result of writing a process id to the cgroup's membership file.
    pub fn attach_result(pid: u32, outcome: WriteOutcome) -> (r: Result<(), CgroupError>)
        ensures
            outcome is Written ==> r is Ok,
            !(outcome is Written) ==> r == Err::<(), CgroupError>(CgroupError::AttachFailed { pid }),
    {
        match outcome {
            WriteOutcome::Written => Ok(()),
            _ => Err(CgroupError::AttachFailed { pid }),
        }
    }

    /// The result of removing a cgroup: one that is already gone counts as
    /// removed.
    pub fn delete_result(outcome: RemoveOutcome) -> (r: Result<(), CgroupError>)
        ensures
            outcome is Busy ==> r == Err::<(), CgroupError>(CgroupError::TeardownFailed),
            !(outcome is Busy) ==> r is Ok,
    {
        match outcome {
            RemoveOutcome::Busy => Err(CgroupError::TeardownFailed),
            _ => Ok(()),
        }
    }
}

/// The result of one write, given what became of it; an error names the
/// controller, the file and, for a refused value, the value.
pub fn write_result(w: &CgroupWrite, outcome: WriteOutcome) -> (r: Result<(), CgroupError>)
    ensures
        outcome is Written <==> r is Ok,
        outcome is Missing ==> r == Err::<(), CgroupError>(
            CgroupError::UnsupportedController { controller: w.controller, file: w.file },
        ),
        outcome is Rejected ==> r == Err::<(), CgroupError>(
            CgroupError::ApplyFailed { controller: w.controller, file: w.file, value: w.value },
        ),
{
    match outcome {
        WriteOutcome::Written => Ok(()),
        WriteOutcome::Missing => Err(
            CgroupError::UnsupportedController {
                controller: w.controller.clone(),
                file: w.file.clone(),
            },
        ),
        WriteOutcome::Rejected => Err(
            CgroupError::ApplyFailed {
                controller: w.controller.clone(),
                file: w.file.clone(),
                value: w.value.clone(),
            },
        ),
    }
}

} // verus!
