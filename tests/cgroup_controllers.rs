use std::collections::HashMap;

use youki::cgroup::{write_result, CgroupError, CgroupManager, CgroupWrite, RemoveOutcome, WriteOutcome};
use youki::controller::{ControllerSet, CpuResources, MemoryResources, PidsResources, ResourceSpec};
use youki::cpu::Cpu;
use youki::decimal::{i64_text, u64_text};
use youki::cpuset::{CpuSet, CGROUP_CPUSET_CPUS, CGROUP_CPUSET_MEMS};

fn write_all(dir: &mut HashMap<String, String>, writes: &[CgroupWrite]) {
    for w in writes {
        dir.insert(w.file.clone(), w.value.clone());
    }
}

fn fresh_dir() -> HashMap<String, String> {
    let mut dir = HashMap::new();
    dir.insert(CGROUP_CPUSET_CPUS.to_string(), String::new());
    dir.insert(CGROUP_CPUSET_MEMS.to_string(), String::new());
    dir
}

fn cpuset(cpus: Option<&str>, mems: Option<&str>) -> CpuResources {
    CpuResources {
        shares: None,
        quota: None,
        period: None,
        cpus: cpus.map(|s| s.to_string()),
        mems: mems.map(|s| s.to_string()),
    }
}

fn cpu(cpus: Option<&str>, mems: Option<&str>) -> ResourceSpec {
    ResourceSpec {
        cpu: Some(cpuset(cpus, mems)),
        memory: None,
        pids: None,
    }
}

#[test]
fn test_set_cpus() {
    let cpuset = cpuset(Some("1-3"), None);
    let writes = CpuSet::apply_cpu(&cpuset);
    let mut dir = fresh_dir();
    write_all(&mut dir, &writes);
    assert_eq!(dir[CGROUP_CPUSET_CPUS], "1-3");
}

#[test]
fn test_set_mems() {
    let cpuset = cpuset(None, Some("1-3"));
    let writes = CpuSet::apply_cpu(&cpuset);
    let mut dir = fresh_dir();
    write_all(&mut dir, &writes);
    assert_eq!(dir[CGROUP_CPUSET_MEMS], "1-3");
}

#[test]
fn cpuset_writes_name_file_value_and_controller() {
    let writes = CpuSet::apply_cpu(&cpuset(Some("0-1"), Some("0")));
    assert_eq!(writes.len(), 2);
    assert_eq!(writes[0].file, "cpuset.cpus");
    assert_eq!(writes[0].value, "0-1");
    assert_eq!(writes[0].controller, "cpuset");
    assert_eq!(writes[1].file, "cpuset.mems");
    assert_eq!(writes[1].value, "0");
}

#[test]
fn unset_spec_writes_nothing() {
    let set = ControllerSet::unified();
    assert!(set.apply_all(&ResourceSpec { cpu: None, memory: None, pids: None }).is_empty());
    let unset = ResourceSpec {
        cpu: None,
        memory: Some(MemoryResources { limit: None, reservation: None }),
        pids: None,
    };
    assert!(set.apply_all(&unset).is_empty());
    assert!(set.apply_all(&cpu(None, None)).is_empty());
    let mut dir = fresh_dir();
    let before = dir.clone();
    write_all(&mut dir, &set.apply_all(&cpu(None, None)));
    assert_eq!(dir, before);
}

#[test]
fn reapplying_is_idempotent() {
    let set = ControllerSet::unified();
    let spec = cpu(Some("0-3"), Some("1"));
    let mut dir = fresh_dir();
    write_all(&mut dir, &set.apply_all(&spec));
    let once = dir.clone();
    write_all(&mut dir, &set.apply_all(&spec));
    assert_eq!(dir, once);
}

#[test]
fn cpuset_end_to_end_update() {
    let set = ControllerSet::unified();
    let mut dir = fresh_dir();
    write_all(&mut dir, &set.apply_all(&cpu(Some("0-1"), Some("0"))));
    assert_eq!(dir[CGROUP_CPUSET_CPUS], "0-1");
    assert_eq!(dir[CGROUP_CPUSET_MEMS], "0");
    let update = set.apply_all(&cpu(Some("2"), None));
    assert_eq!(update.len(), 1);
    write_all(&mut dir, &update);
    assert_eq!(dir[CGROUP_CPUSET_CPUS], "2");
    assert_eq!(dir[CGROUP_CPUSET_MEMS], "0");
}

#[test]
fn write_outcomes_map_to_errors() {
    let w = CgroupWrite {
        controller: "cpuset".to_string(),
        file: "cpuset.cpus".to_string(),
        value: "9-7".to_string(),
    };
    assert!(write_result(&w, WriteOutcome::Written).is_ok());
    match write_result(&w, WriteOutcome::Missing) {
        Err(CgroupError::UnsupportedController { controller, file }) => {
            assert_eq!(controller, "cpuset");
            assert_eq!(file, "cpuset.cpus");
        }
        _ => panic!("expected an unsupported controller"),
    }
    match write_result(&w, WriteOutcome::Rejected) {
        Err(CgroupError::ApplyFailed { controller, file, value }) => {
            assert_eq!(controller, "cpuset");
            assert_eq!(file, "cpuset.cpus");
            assert_eq!(value, "9-7");
        }
        _ => panic!("expected a refused write"),
    }
}

#[test]
fn manager_paths_and_outcomes() {
    let m = CgroupManager { root: "/sys/fs/cgroup/youki".to_string() };
    assert_eq!(m.path_for("c1"), "/sys/fs/cgroup/youki/c1");
    assert!(CgroupManager::attach_result(42, WriteOutcome::Written).is_ok());
    assert!(matches!(
        CgroupManager::attach_result(42, WriteOutcome::Missing),
        Err(CgroupError::AttachFailed { pid: 42 })
    ));
    assert!(CgroupManager::delete_result(RemoveOutcome::Removed).is_ok());
    assert!(CgroupManager::delete_result(RemoveOutcome::AlreadyGone).is_ok());
    assert!(matches!(
        CgroupManager::delete_result(RemoveOutcome::Busy),
        Err(CgroupError::TeardownFailed)
    ));
}

fn pairs(writes: &[CgroupWrite]) -> Vec<(String, String)> {
    writes.iter().map(|w| (w.file.clone(), w.value.clone())).collect()
}

fn p(f: &str, v: &str) -> (String, String) {
    (f.to_string(), v.to_string())
}

#[test]
fn decimal_text() {
    assert_eq!(u64_text(0), "0");
    assert_eq!(u64_text(7), "7");
    assert_eq!(u64_text(1024), "1024");
    assert_eq!(u64_text(u64::MAX), u64::MAX.to_string());
    assert_eq!(i64_text(-1), "-1");
    assert_eq!(i64_text(-250), "-250");
    assert_eq!(i64_text(i64::MIN), i64::MIN.to_string());
    assert_eq!(i64_text(i64::MAX), i64::MAX.to_string());
}

#[test]
fn cpu_weight_from_shares() {
    assert_eq!(Cpu::weight(2), 1);
    assert_eq!(Cpu::weight(1024), 39);
    assert_eq!(Cpu::weight(262144), 10000);
    assert_eq!(Cpu::weight(1), 1);
    assert_eq!(Cpu::weight(u64::MAX), 10000);
}

#[test]
fn cpu_controller_writes() {
    let set = ControllerSet::unified();
    let mut c = cpuset(None, None);
    c.shares = Some(1024);
    c.quota = Some(50000);
    c.period = Some(100000);
    let spec = ResourceSpec { cpu: Some(c), memory: None, pids: None };
    assert_eq!(
        pairs(&set.apply_all(&spec)),
        vec![p("cpu.weight", "39"), p("cpu.max", "50000 100000")]
    );
    let mut c = cpuset(None, None);
    c.shares = Some(0);
    c.quota = Some(-1);
    let spec = ResourceSpec { cpu: Some(c), memory: None, pids: None };
    assert_eq!(pairs(&set.apply_all(&spec)), vec![p("cpu.max", "max")]);
    let mut c = cpuset(None, None);
    c.period = Some(250000);
    let spec = ResourceSpec { cpu: Some(c), memory: None, pids: None };
    assert_eq!(pairs(&set.apply_all(&spec)), vec![p("cpu.max", "max 250000")]);
}

#[test]
fn memory_and_pids_writes() {
    let set = ControllerSet::unified();
    let spec = ResourceSpec {
        cpu: None,
        memory: Some(MemoryResources { limit: Some(536870912), reservation: Some(-1) }),
        pids: Some(PidsResources { limit: 64 }),
    };
    let writes = set.apply_all(&spec);
    assert_eq!(
        pairs(&writes),
        vec![p("memory.max", "536870912"), p("memory.low", "max"), p("pids.max", "64")]
    );
    assert_eq!(writes[0].controller, "memory");
    assert_eq!(writes[2].controller, "pids");
    let spec = ResourceSpec {
        cpu: None,
        memory: Some(MemoryResources { limit: Some(-1), reservation: Some(-5) }),
        pids: Some(PidsResources { limit: 0 }),
    };
    assert_eq!(
        pairs(&set.apply_all(&spec)),
        vec![p("memory.max", "max"), p("memory.low", "-5"), p("pids.max", "max")]
    );
}

#[test]
fn controllers_apply_in_declaration_order() {
    let set = ControllerSet::unified();
    let mut c = cpuset(Some("0"), Some("0"));
    c.shares = Some(2);
    let spec = ResourceSpec {
        cpu: Some(c),
        memory: Some(MemoryResources { limit: Some(4096), reservation: None }),
        pids: Some(PidsResources { limit: -1 }),
    };
    let files: Vec<String> = set.apply_all(&spec).iter().map(|w| w.file.clone()).collect();
    assert_eq!(files, vec!["cpu.weight", "cpuset.cpus", "cpuset.mems", "memory.max", "pids.max"]);
}
