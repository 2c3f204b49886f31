use youki::builder::{BuildError, ConfigConflict, ContainerBuilder, LaunchMode};
use youki::env::unique_env;
use youki::exec::{parse_key_val, Exec, KeyValError};

fn pair(k: &str, v: &str) -> (String, String) {
    (k.to_string(), v.to_string())
}

fn sorted(mut v: Vec<(String, String)>) -> Vec<(String, String)> {
    v.sort();
    v
}

#[test]
fn tenant_with_rootfs_is_invalid() {
    let r = ContainerBuilder::new("c1".to_string())
        .as_tenant()
        .with_rootfs("/rootfs".to_string())
        .build();
    assert!(matches!(r, Err(BuildError::InvalidConfig(ConfigConflict::RootfsForTenant))));
}

#[test]
fn init_without_rootfs_is_invalid() {
    let r = ContainerBuilder::new("c1".to_string()).build();
    assert!(matches!(r, Err(BuildError::InvalidConfig(ConfigConflict::MissingRootfs))));
}

#[test]
fn init_with_rootfs_builds() {
    let p = ContainerBuilder::new("c1".to_string())
        .with_rootfs("/rootfs".to_string())
        .with_container_args(vec!["sh".to_string()])
        .build()
        .ok()
        .expect("valid init configuration");
    assert_eq!(p.mode, LaunchMode::InitContainer);
    assert_eq!(p.rootfs, Some("/rootfs".to_string()));
    assert_eq!(p.args, vec!["sh".to_string()]);
    assert_eq!(p.container_id, "c1");
    assert!(p.env.is_none());
}

#[test]
fn second_env_replaces_first() {
    let p = ContainerBuilder::new("c1".to_string())
        .as_tenant()
        .with_env(vec![pair("A", "1"), pair("B", "2")])
        .with_env(vec![pair("C", "3")])
        .build()
        .ok()
        .expect("valid tenant configuration");
    assert_eq!(p.env, Some(vec![pair("C", "3")]));
}

#[test]
fn env_duplicates_keep_last_value() {
    let u = unique_env(&vec![pair("A", "1"), pair("B", "2"), pair("A", "3")]);
    assert_eq!(sorted(u), vec![pair("A", "3"), pair("B", "2")]);
}

fn exec_options() -> Exec {
    Exec {
        console_socket: Some("/tmp/console.sock".to_string()),
        tty: false,
        cwd: Some("/work".to_string()),
        pid_file: Some("/tmp/pid".to_string()),
        env: vec![pair("PATH", "/bin"), pair("X", "1"), pair("X", "2")],
        no_new_privs: true,
        process: None,
        detach: false,
        container_id: "box".to_string(),
        command: vec!["ls".to_string(), "-l".to_string()],
    }
}

#[test]
fn exec_builds_tenant_plan() {
    let p = exec_options()
        .exec("/run/youki".to_string())
        .ok()
        .expect("exec plan");
    assert_eq!(p.mode, LaunchMode::TenantProcess);
    assert_eq!(p.container_id, "box");
    assert_eq!(p.root_path, Some("/run/youki".to_string()));
    assert_eq!(p.rootfs, None);
    assert_eq!(p.console_socket, Some("/tmp/console.sock".to_string()));
    assert_eq!(p.pid_file, Some("/tmp/pid".to_string()));
    assert_eq!(p.cwd, Some("/work".to_string()));
    assert!(p.no_new_privs);
    assert_eq!(p.args, vec!["ls".to_string(), "-l".to_string()]);
    assert_eq!(
        sorted(p.env.expect("environment")),
        vec![pair("PATH", "/bin"), pair("X", "2")]
    );
}

#[test]
fn exec_without_env_inherits() {
    let mut e = exec_options();
    e.env = Vec::new();
    e.cwd = None;
    let p = e.exec("/run/youki".to_string()).ok().expect("exec plan");
    assert!(p.env.is_none());
    assert!(p.cwd.is_none());
}

#[test]
fn key_val_splits_at_first_equals() {
    assert_eq!(parse_key_val("A=b=c"), Ok(pair("A", "b=c")));
    assert_eq!(parse_key_val("KEY="), Ok(pair("KEY", "")));
    assert_eq!(parse_key_val("=v"), Ok(pair("", "v")));
    assert_eq!(parse_key_val("PATH=/usr/bin"), Ok(pair("PATH", "/usr/bin")));
}

#[test]
fn key_val_without_equals_fails() {
    assert_eq!(parse_key_val("novalue"), Err(KeyValError::MissingEquals));
    assert_eq!(parse_key_val(""), Err(KeyValError::MissingEquals));
}
