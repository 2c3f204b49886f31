//! The cpuset controller: cpu and memory-node affinity.
use vstd::prelude::*;
use vstd::string::*;
use crate::cgroup::{control_write, CgroupWrite, write_pairs, after_writes};
use crate::controller::{Controller, CpuResources, ResourceSpec};

verus! {

/// The control file that lists the cpus the cgroup may run on.
pub const CGROUP_CPUSET_CPUS: &'static str = "cpuset.cpus";

/// The control file that lists the memory nodes the cgroup may allocate on.
pub const CGROUP_CPUSET_MEMS: &'static str = "cpuset.mems";

/// The controller's name, as errors report it.
pub const CPUSET_NAME: &'static str = "cpuset";

/// The cpuset controller.
pub struct CpuSet {}

/// The writes for the cpu affinity settings: the cpu list first, then the
/// memory node list, each only where it is set.
pub open spec fn cpuset_pairs(c: CpuResources) -> Seq<(Seq<char>, Seq<char>)> {
    (match c.cpus {
        Some(v) => seq![(CGROUP_CPUSET_CPUS@, v@)],
        None => Seq::empty(),
    }) + (match c.mems {
        Some(v) => seq![(CGROUP_CPUSET_MEMS@, v@)],
        None => Seq::empty(),
    })
}

impl CpuSet {
    /// The writes for the given cpu affinity settings.
    pub fn apply_cpu(cpu: &CpuResources) -> (r: Vec<CgroupWrite>)
        ensures
            write_pairs(r@) == cpuset_pairs(*cpu),
            forall|i: int| 0 <= i < r@.len() ==> (#[trigger] r@[i]).controller@ == CPUSET_NAME@,
    {
        let mut out: Vec<CgroupWrite> = Vec::new();
        if let Some(cpus) = &cpu.cpus {
            out.push(control_write(CPUSET_NAME, CGROUP_CPUSET_CPUS, cpus.clone()));
        }
        if let Some(mems) = &cpu.mems {
            out.push(control_write(CPUSET_NAME, CGROUP_CPUSET_MEMS, mems.clone()));
        }
        assert(write_pairs(out@) =~= cpuset_pairs(*cpu));
        out
    }
}

impl Controller for CpuSet {
    open spec fn planned(spec: &ResourceSpec) -> Seq<(Seq<char>, Seq<char>)> {
        match spec.cpu {
            Some(c) => cpuset_pairs(c),
            None => Seq::empty(),
        }
    }

    fn apply(spec: &ResourceSpec) -> (r: Vec<CgroupWrite>) {
        match &spec.cpu {
            Some(cpu) => CpuSet::apply_cpu(cpu),
            None => Vec::new(),
        }
    }
}

/// The two control files of the controller are distinct.
pub proof fn lemma_cpuset_files_distinct()
    ensures
        CGROUP_CPUSET_CPUS@ != CGROUP_CPUSET_MEMS@,
{
    reveal_strlit("cpuset.cpus");
    reveal_strlit("cpuset.mems");
    assert(CGROUP_CPUSET_CPUS@[8] != CGROUP_CPUSET_MEMS@[8]);
}

/// With only the cpu list set, the cpu list file afterwards holds exactly
/// that list, and every other file is as it was.
pub proof fn lemma_cpus_read_back(files: Map<Seq<char>, Seq<char>>, spec: &ResourceSpec, cpus: Seq<char>)
    requires
        spec.cpu is Some,
        spec.cpu->Some_0.mems is None,
        spec.cpu->Some_0.cpus is Some,
        spec.cpu->Some_0.cpus->Some_0@ == cpus,
    ensures
        after_writes(files, <CpuSet as Controller>::planned(spec))
            == files.insert(CGROUP_CPUSET_CPUS@, cpus),
{
    let w = <CpuSet as Controller>::planned(spec);
    assert(w =~= seq![(CGROUP_CPUSET_CPUS@, cpus)]);
    assert(w.drop_last() =~= Seq::<(Seq<char>, Seq<char>)>::empty());
    assert(after_writes(files, w.drop_last()) == files);
}

/// With only the memory node list set, the memory node file afterwards holds
/// exactly that list, and every other file is as it was.
pub proof fn lemma_mems_read_back(files: Map<Seq<char>, Seq<char>>, spec: &ResourceSpec, mems: Seq<char>)
    requires
        spec.cpu is Some,
        spec.cpu->Some_0.cpus is None,
        spec.cpu->Some_0.mems is Some,
        spec.cpu->Some_0.mems->Some_0@ == mems,
    ensures
        after_writes(files, <CpuSet as Controller>::planned(spec))
            == files.insert(CGROUP_CPUSET_MEMS@, mems),
{
    let w = <CpuSet as Controller>::planned(spec);
    assert(w =~= seq![(CGROUP_CPUSET_MEMS@, mems)]);
    assert(w.drop_last() =~= Seq::<(Seq<char>, Seq<char>)>::empty());
    assert(after_writes(files, w.drop_last()) == files);
}

} // verus!
