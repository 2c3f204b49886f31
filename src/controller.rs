//! The resource specification and the uniform contract of the resource
//! controllers, and the set of controllers applied together to one cgroup.
use vstd::prelude::*;
use crate::cgroup::{CgroupWrite, write_pairs, after_writes, lemma_writes_idempotent};
use crate::cpu::Cpu;
use crate::cpuset::{CpuSet, CGROUP_CPUSET_CPUS, lemma_cpus_read_back};
use crate::memory::Memory;
use crate::pids::Pids;

verus! {

/// Limits of the cpu controllers; an unset field leaves its control file
/// alone.
pub struct CpuResources {
    /// The relative share of cpu time, on the scale of 2 to 262144.
    pub shares: Option<u64>,
    /// The cpu time, in microseconds, that the processes may use in each
    /// period; zero or less lifts the limit.
    pub quota: Option<i64>,
    /// The length of a period, in microseconds.
    pub period: Option<u64>,
    /// The list of cpus that the processes may run on, such as "0-3,8".
    pub cpus: Option<String>,
    /// The list of memory nodes that the processes may allocate on.
    pub mems: Option<String>,
}

/// The controller-agnostic description of a container's resource limits.
/// `None` means "do not touch this kernel knob".
pub struct ResourceSpec {
    pub cpu: Option<CpuResources>,
    pub memory: Option<MemoryResources>,
    pub pids: Option<PidsResources>,
}

/// Limits of the memory controller, in bytes; -1 lifts a limit.
pub struct MemoryResources {
    /// The hard limit of memory use.
    pub limit: Option<i64>,
    /// The memory that the processes keep under pressure.
    pub reservation: Option<i64>,
}

/// The limit of the pids controller.
pub struct PidsResources {
    /// The largest number of processes; zero or less lifts the limit.
    pub limit: i64,
}

/// Whether every optional setting of the specification is unset.
pub open spec fn is_unset(spec: &ResourceSpec) -> bool {
    &&& match spec.cpu {
        None => true,
        Some(c) => c.shares is None && c.quota is None && c.period is None && c.cpus is None
            && c.mems is None,
    }
    &&& match spec.memory {
        None => true,
        Some(m) => m.limit is None && m.reservation is None,
    }
    &&& spec.pids is None
}

/// A resource controller: it reads the part of the specification that is
/// its own and says which control files receive which values.
pub trait Controller {
    /// The (file, value) writes that this controller makes for `spec`.
    spec fn planned(spec: &ResourceSpec) -> Seq<(Seq<char>, Seq<char>)>;

    /// The writes that this controller makes for `spec`, in order.
    fn apply(spec: &ResourceSpec) -> (r: Vec<CgroupWrite>)
        ensures
            write_pairs(r@) == Self::planned(spec),
    ;
}

/// The kinds of controller that a controller set holds.
pub enum ControllerKind {
    Cpu,
    CpuSet,
    Memory,
    Pids,
}

impl ControllerKind {
    pub open spec fn planned(self, spec: &ResourceSpec) -> Seq<(Seq<char>, Seq<char>)> {
        match self {
            ControllerKind::Cpu => <Cpu as Controller>::planned(spec),
            ControllerKind::CpuSet => <CpuSet as Controller>::planned(spec),
            ControllerKind::Memory => <Memory as Controller>::planned(spec),
            ControllerKind::Pids => <Pids as Controller>::planned(spec),
        }
    }

    /// The writes of this kind of controller for `spec`.
    pub fn apply(&self, spec: &ResourceSpec) -> (r: Vec<CgroupWrite>)
        ensures
            write_pairs(r@) == self.planned(spec),
    {
        match self {
            ControllerKind::Cpu => <Cpu as Controller>::apply(spec),
            ControllerKind::CpuSet => <CpuSet as Controller>::apply(spec),
            ControllerKind::Memory => <Memory as Controller>::apply(spec),
            ControllerKind::Pids => <Pids as Controller>::apply(spec),
        }
    }
}

/// The writes of a sequence of controllers, one controller after the other.
pub open spec fn set_plan(kinds: Seq<ControllerKind>, spec: &ResourceSpec) -> Seq<
    (Seq<char>, Seq<char>),
>
    decreases kinds.len(),
{
    if kinds.len() == 0 {
        Seq::empty()
    } else {
        set_plan(kinds.drop_last(), spec) + kinds.last().planned(spec)
    }
}

/// An ordered collection of controllers, applied together to one cgroup.
pub struct ControllerSet {
    pub kinds: Vec<ControllerKind>,
}

impl ControllerSet {
    /// Every controller of the unified hierarchy, in declaration order.
    pub fn unified() -> (r: ControllerSet)
        ensures
            r.kinds@ == unified_kinds(),
    {
        ControllerSet {
            kinds: vec![
                ControllerKind::Cpu,
                ControllerKind::CpuSet,
                ControllerKind::Memory,
                ControllerKind::Pids,
            ],
        }
    }

    /// The writes of all the controllers of the set for `spec`, controller
    /// after controller. The caller makes them in this order and stops at
    /// the first that fails; what was written before stays.
    pub fn apply_all(&self, spec: &ResourceSpec) -> (r: Vec<CgroupWrite>)
        ensures
            write_pairs(r@) == set_plan(self.kinds@, spec),
    {
        let mut out: Vec<CgroupWrite> = Vec::new();
        let n = self.kinds.len();
        let mut i: usize = 0;
        while i < n
            invariant
                n == self.kinds@.len(),
                0 <= i <= n,
                write_pairs(out@) == set_plan(self.kinds@.subrange(0, i as int), spec),
            decreases n - i,
        {
            let mut w = self.kinds[i].apply(spec);
            let ghost before = out@;
            let ghost added = w@;
            out.append(&mut w);
            proof {
                let ks = self.kinds@.subrange(0, i + 1);
                assert(ks.drop_last() =~= self.kinds@.subrange(0, i as int));
                assert(out@ == before + added);
                assert(write_pairs(out@) =~= write_pairs(before) + write_pairs(added));
            }
            i = i + 1;
        }
        assert(self.kinds@.subrange(0, n as int) =~= self.kinds@);
        out
    }
}

/// A specification with every optional field unset makes no controller of
/// any set write anything: the cgroup directory stays as it was.
pub proof fn lemma_unset_spec_writes_nothing(
    kinds: Seq<ControllerKind>,
    spec: &ResourceSpec,
    files: Map<Seq<char>, Seq<char>>,
)
    requires
        is_unset(spec),
    ensures
        set_plan(kinds, spec) == Seq::<(Seq<char>, Seq<char>)>::empty(),
        after_writes(files, set_plan(kinds, spec)) == files,
    decreases kinds.len(),
{
    if kinds.len() > 0 {
        lemma_unset_spec_writes_nothing(kinds.drop_last(), spec, files);
        assert(set_plan(kinds, spec) =~= Seq::<(Seq<char>, Seq<char>)>::empty());
    }
}

/// The controllers of the unified hierarchy, in the order that
/// `ControllerSet::unified` holds them.
pub open spec fn unified_kinds() -> Seq<ControllerKind> {
    seq![ControllerKind::Cpu, ControllerKind::CpuSet, ControllerKind::Memory, ControllerKind::Pids]
}

/// With the unified set, a specification whose one setting is the cpu list
/// changes the cpu list file to exactly that list and leaves every other
/// file as it was.
pub proof fn lemma_only_cpus_changes(files: Map<Seq<char>, Seq<char>>, spec: &ResourceSpec, cpus: Seq<char>)
    requires
        spec.cpu is Some,
        spec.cpu->Some_0.cpus is Some,
        spec.cpu->Some_0.cpus->Some_0@ == cpus,
        spec.cpu->Some_0.mems is None,
        spec.cpu->Some_0.shares is None,
        spec.cpu->Some_0.quota is None,
        spec.cpu->Some_0.period is None,
        spec.memory is None,
        spec.pids is None,
    ensures
        after_writes(files, set_plan(unified_kinds(), spec)) == files.insert(CGROUP_CPUSET_CPUS@, cpus),
{
    let k = unified_kinds();
    assert(k.drop_last() =~= seq![ControllerKind::Cpu, ControllerKind::CpuSet, ControllerKind::Memory]);
    assert(k.drop_last().drop_last() =~= seq![ControllerKind::Cpu, ControllerKind::CpuSet]);
    assert(k.drop_last().drop_last().drop_last() =~= seq![ControllerKind::Cpu]);
    assert(k.drop_last().drop_last().drop_last().drop_last() =~= Seq::<ControllerKind>::empty());
    let k1 = k.drop_last().drop_last().drop_last();
    let k2 = k.drop_last().drop_last();
    let k3 = k.drop_last();
    let none = Seq::<(Seq<char>, Seq<char>)>::empty();
    assert(<Cpu as Controller>::planned(spec) =~= none);
    assert(<CpuSet as Controller>::planned(spec) =~= seq![(CGROUP_CPUSET_CPUS@, cpus)]);
    assert(<Memory as Controller>::planned(spec) =~= none);
    assert(<Pids as Controller>::planned(spec) =~= none);
    assert(set_plan(k1.drop_last(), spec) == none);
    assert(set_plan(k1, spec) =~= none);
    assert(set_plan(k2, spec) =~= seq![(CGROUP_CPUSET_CPUS@, cpus)]);
    assert(set_plan(k3, spec) =~= seq![(CGROUP_CPUSET_CPUS@, cpus)]);
    assert(set_plan(k, spec) =~= seq![(CGROUP_CPUSET_CPUS@, cpus)]);
    lemma_cpus_read_back(files, spec, cpus);
}

/// Applying the same specification twice with the same controllers leaves
/// the cgroup directory as applying it once does.
pub proof fn lemma_reapply_idempotent(
    kinds: Seq<ControllerKind>,
    spec: &ResourceSpec,
    files: Map<Seq<char>, Seq<char>>,
)
    ensures
        after_writes(after_writes(files, set_plan(kinds, spec)), set_plan(kinds, spec))
            == after_writes(files, set_plan(kinds, spec)),
{
    lemma_writes_idempotent(files, set_plan(kinds, spec));
}

} // verus!
