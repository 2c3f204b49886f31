//! The pids controller: the number of processes.
use vstd::prelude::*;
use crate::cgroup::{control_write, CgroupWrite, write_pairs, MAX};
use crate::controller::{Controller, ResourceSpec};
use crate::decimal::{decimal, u64_text};

verus! {

/// The control file of the largest number of processes.
pub const CGROUP_PIDS_MAX: &'static str = "pids.max";

/// The controller's name, as errors report it.
pub const PIDS_NAME: &'static str = "pids";

/// The pids controller.
pub struct Pids {}

/// The text of a process limit: the number where it is positive, else no
/// limit.
pub open spec fn pids_limit_text(limit: i64) -> Seq<char> {
    if limit > 0 {
        decimal(limit as nat)
    } else {
        MAX@
    }
}

impl Controller for Pids {
    open spec fn planned(spec: &ResourceSpec) -> Seq<(Seq<char>, Seq<char>)> {
        match spec.pids {
            Some(p) => seq![(CGROUP_PIDS_MAX@, pids_limit_text(p.limit))],
            None => Seq::empty(),
        }
    }

    fn apply(spec: &ResourceSpec) -> (r: Vec<CgroupWrite>) {
        let mut out: Vec<CgroupWrite> = Vec::new();
        if let Some(p) = &spec.pids {
            let text = if p.limit > 0 {
                u64_text(p.limit as u64)
            } else {
                String::from_str(MAX)
            };
            out.push(control_write(PIDS_NAME, CGROUP_PIDS_MAX, text));
        }
        assert(write_pairs(out@) =~= Self::planned(spec));
        out
    }
}

} // verus!
