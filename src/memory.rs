//! The memory controller: memory use limits.
use vstd::prelude::*;
use crate::cgroup::{control_write, CgroupWrite, write_pairs, MAX};
use crate::controller::{Controller, MemoryResources, ResourceSpec};
use crate::decimal::{i64_text, signed_decimal};

verus! {

/// The control file of the hard memory limit.
pub const CGROUP_MEMORY_MAX: &'static str = "memory.max";

/// The control file of the memory kept under pressure.
pub const CGROUP_MEMORY_LOW: &'static str = "memory.low";

/// The controller's name, as errors report it.
pub const MEMORY_NAME: &'static str = "memory";

/// The memory controller.
pub struct Memory {}

/// The text of a memory amount: -1 lifts the limit; any other value is
/// written as it is, and the kernel refuses a negative one.
pub open spec fn memory_text(v: i64) -> Seq<char> {
    if v == -1 {
        MAX@
    } else {
        signed_decimal(v as int)
    }
}

fn memory_value(v: i64) -> (r: String)
    ensures
        r@ == memory_text(v),
{
    if v == -1 {
        String::from_str(MAX)
    } else {
        i64_text(v)
    }
}

/// The writes for the memory limits: the hard limit first, then the
/// reservation, each only where it is set.
pub open spec fn memory_pairs(m: MemoryResources) -> Seq<(Seq<char>, Seq<char>)> {
    (match m.limit {
        Some(v) => seq![(CGROUP_MEMORY_MAX@, memory_text(v))],
        None => Seq::empty(),
    }) + (match m.reservation {
        Some(v) => seq![(CGROUP_MEMORY_LOW@, memory_text(v))],
        None => Seq::empty(),
    })
}

impl Controller for Memory {
    open spec fn planned(spec: &ResourceSpec) -> Seq<(Seq<char>, Seq<char>)> {
        match spec.memory {
            Some(m) => memory_pairs(m),
            None => Seq::empty(),
        }
    }

    fn apply(spec: &ResourceSpec) -> (r: Vec<CgroupWrite>) {
        let mut out: Vec<CgroupWrite> = Vec::new();
        if let Some(m) = &spec.memory {
            if let Some(limit) = m.limit {
                out.push(control_write(MEMORY_NAME, CGROUP_MEMORY_MAX, memory_value(limit)));
            }
            if let Some(reservation) = m.reservation {
                out.push(control_write(MEMORY_NAME, CGROUP_MEMORY_LOW, memory_value(reservation)));
            }
        }
        assert(write_pairs(out@) =~= Self::planned(spec));
        out
    }
}

} // verus!
