//! The cpu controller: cpu time weight and bandwidth.
use vstd::prelude::*;
use vstd::string::*;
use crate::cgroup::{control_write, CgroupWrite, write_pairs, MAX};
use crate::controller::{Controller, CpuResources, ResourceSpec};
use crate::decimal::{decimal, u64_text};

verus! {

/// The control file of the relative cpu weight.
pub const CGROUP_CPU_WEIGHT: &'static str = "cpu.weight";

/// The control file of the cpu bandwidth limit: quota and period.
pub const CGROUP_CPU_MAX: &'static str = "cpu.max";

/// The controller's name, as errors report it.
pub const CPU_NAME: &'static str = "cpu";

/// The smallest and largest cpu shares.
pub const MIN_SHARES: u64 = 2;

pub const MAX_SHARES: u64 = 262144;

/// The largest cpu weight; the smallest is 1.
pub const MAX_WEIGHT: u64 = 10000;

/// The cpu controller.
pub struct Cpu {}

/// The cpu weight of a share value: shares, held to their range, mapped
/// linearly from 2..262144 onto 1..10000, rounding down.
pub open spec fn cpu_weight(shares: u64) -> nat {
    let c: int = if shares < MIN_SHARES {
        MIN_SHARES as int
    } else if shares > MAX_SHARES {
        MAX_SHARES as int
    } else {
        shares as int
    };
    (1 + ((c - MIN_SHARES) * (MAX_WEIGHT - 1)) / (MAX_SHARES - MIN_SHARES)) as nat
}

/// The text of the bandwidth limit: the quota where it is positive, else no
/// limit, followed by the period where it is set.
pub open spec fn cpu_max_text(quota: Option<i64>, period: Option<u64>) -> Seq<char> {
    let q = match quota {
        Some(v) => if v > 0 {
            decimal(v as nat)
        } else {
            MAX@
        },
        None => MAX@,
    };
    match period {
        Some(p) => q + seq![' '] + decimal(p as nat),
        None => q,
    }
}

/// The writes for the cpu limits: the weight where shares are set and not
/// zero, then the bandwidth where a quota or a period is set.
pub open spec fn cpu_pairs(c: CpuResources) -> Seq<(Seq<char>, Seq<char>)> {
    (match c.shares {
        Some(s) => if s != 0 {
            seq![(CGROUP_CPU_WEIGHT@, decimal(cpu_weight(s)))]
        } else {
            Seq::empty()
        },
        None => Seq::empty(),
    }) + (if c.quota is Some || c.period is Some {
        seq![(CGROUP_CPU_MAX@, cpu_max_text(c.quota, c.period))]
    } else {
        Seq::empty()
    })
}

impl Cpu {
    /// The cpu weight of a share value.
    pub fn weight(shares: u64) -> (r: u64)
        ensures
            r == cpu_weight(shares),
            1 <= r <= MAX_WEIGHT,
    {
        let c: u64 = if shares < MIN_SHARES {
            MIN_SHARES
        } else if shares > MAX_SHARES {
            MAX_SHARES
        } else {
            shares
        };
        assert((c - MIN_SHARES) * (MAX_WEIGHT - 1) <= (MAX_SHARES - MIN_SHARES) * (MAX_WEIGHT - 1))
            by (nonlinear_arith)
            requires
                MIN_SHARES <= c <= MAX_SHARES,
        ;
        let w = 1 + ((c - MIN_SHARES) * (MAX_WEIGHT - 1)) / (MAX_SHARES - MIN_SHARES);
        assert(((c - MIN_SHARES) * (MAX_WEIGHT - 1)) / (MAX_SHARES - MIN_SHARES) <= MAX_WEIGHT - 1)
            by (nonlinear_arith)
            requires
                (c - MIN_SHARES) * (MAX_WEIGHT - 1) <= (MAX_SHARES - MIN_SHARES) * (MAX_WEIGHT - 1),
                MAX_SHARES - MIN_SHARES > 0,
        ;
        w
    }

    fn max_value(quota: Option<i64>, period: Option<u64>) -> (r: String)
        ensures
            r@ == cpu_max_text(quota, period),
    {
        let q = match quota {
            Some(v) => if v > 0 {
                u64_text(v as u64)
            } else {
                String::from_str(MAX)
            },
            None => String::from_str(MAX),
        };
        match period {
            Some(p) => {
                let space = " ";
                proof {
                    reveal_strlit(" ");
                }
                let r = q.concat(space).concat(u64_text(p).as_str());
                r
            },
            None => q,
        }
    }
}

impl Controller for Cpu {
    open spec fn planned(spec: &ResourceSpec) -> Seq<(Seq<char>, Seq<char>)> {
        match spec.cpu {
            Some(c) => cpu_pairs(c),
            None => Seq::empty(),
        }
    }

    fn apply(spec: &ResourceSpec) -> (r: Vec<CgroupWrite>) {
        let mut out: Vec<CgroupWrite> = Vec::new();
        if let Some(c) = &spec.cpu {
            if let Some(s) = c.shares {
                if s != 0 {
                    let w = Cpu::weight(s);
                    out.push(control_write(CPU_NAME, CGROUP_CPU_WEIGHT, u64_text(w)));
                }
            }
            if c.quota.is_some() || c.period.is_some() {
                out.push(control_write(CPU_NAME, CGROUP_CPU_MAX, Cpu::max_value(c.quota, c.period)));
            }
        }
        assert(write_pairs(out@) =~= Self::planned(spec));
        out
    }
}

} // verus!
