//! The container builder: configuration assembled call by call, validated
//! once, and turned into a launch plan.
use vstd::prelude::*;
use crate::env::{env_map, names_unique, unique_env};

verus! {

/// Whether a launch creates a new container or joins a running one.
#[derive(PartialEq, Eq, Structural, Clone, Copy, Debug)]
pub enum LaunchMode {
    /// A new container: its init process in fresh namespaces.
    InitContainer,
    /// A process that joins the namespaces of a running container.
    TenantProcess,
}

/// The combination of options that made a configuration invalid.
#[derive(PartialEq, Eq, Structural, Clone, Copy, Debug)]
pub enum ConfigConflict {
    /// A root filesystem was given for a tenant process, which shares the
    /// container's.
    RootfsForTenant,
    /// A new container was asked for without a root filesystem.
    MissingRootfs,
}

/// The errors of building.
#[derive(PartialEq, Eq, Structural, Clone, Copy, Debug)]
pub enum BuildError {
    InvalidConfig(ConfigConflict),
}

/// The configuration of a launch, assembled by the builder's calls.
pub struct ContainerBuilder {
    /// The container's identifier.
    pub container_id: String,
    /// The directory under which the runtime records its containers.
    pub root_path: Option<String>,
    /// The root filesystem of a new container.
    pub rootfs: Option<String>,
    /// The socket that receives the pseudoterminal's master end.
    pub console_socket: Option<String>,
    /// The file that receives the process id.
    pub pid_file: Option<String>,
    /// The working directory of the process.
    pub cwd: Option<String>,
    /// The environment that replaces the inherited one, when set.
    pub env: Option<Vec<(String, String)>>,
    /// Whether the process may not gain privileges.
    pub no_new_privs: bool,
    /// A process specification that overrides command, environment and
    /// working directory.
    pub process: Option<String>,
    /// The command and its arguments.
    pub args: Vec<String>,
    pub mode: LaunchMode,
}

/// A validated configuration, ready for the launcher.
pub struct LaunchPlan {
    pub container_id: String,
    pub root_path: Option<String>,
    pub rootfs: Option<String>,
    pub console_socket: Option<String>,
    pub pid_file: Option<String>,
    pub cwd: Option<String>,
    /// The environment, each name once.
    pub env: Option<Vec<(String, String)>>,
    pub no_new_privs: bool,
    pub process: Option<String>,
    pub args: Vec<String>,
    pub mode: LaunchMode,
}

/// The error of a configuration, if any: a tenant process takes no root
/// filesystem, and a new container needs one.
pub open spec fn config_conflict(b: ContainerBuilder) -> Option<ConfigConflict> {
    match b.mode {
        LaunchMode::TenantProcess => if b.rootfs is Some {
            Some(ConfigConflict::RootfsForTenant)
        } else {
            None
        },
        LaunchMode::InitContainer => if b.rootfs is None {
            Some(ConfigConflict::MissingRootfs)
        } else {
            None
        },
    }
}

/// The configuration with the root filesystem set.
pub open spec fn rootfs_set(b: ContainerBuilder, rootfs: String) -> ContainerBuilder {
    ContainerBuilder { rootfs: Some(rootfs), ..b }
}

/// The configuration switched to a tenant process.
pub open spec fn tenant(b: ContainerBuilder) -> ContainerBuilder {
    ContainerBuilder { mode: LaunchMode::TenantProcess, ..b }
}

/// The configuration with the environment set.
pub open spec fn env_set(b: ContainerBuilder, env: Vec<(String, String)>) -> ContainerBuilder {
    ContainerBuilder { env: Some(env), ..b }
}

/// Whether an optional environment holds the same mapping as another, each
/// name once.
pub open spec fn same_env(
    plan: Option<Vec<(String, String)>>,
    given: Option<Vec<(String, String)>>,
) -> bool {
    match given {
        None => plan is None,
        Some(g) => plan is Some && names_unique(plan->Some_0@) && env_map(plan->Some_0@)
            == env_map(g@),
    }
}

/// The plan holds every setting of the configuration as given, the
/// environment with each name once.
pub open spec fn plan_follows(p: LaunchPlan, b: ContainerBuilder) -> bool {
    &&& p.container_id == b.container_id
    &&& p.root_path == b.root_path
    &&& p.rootfs == b.rootfs
    &&& p.console_socket == b.console_socket
    &&& p.pid_file == b.pid_file
    &&& p.cwd == b.cwd
    &&& same_env(p.env, b.env)
    &&& p.no_new_privs == b.no_new_privs
    &&& p.process == b.process
    &&& p.args@ == b.args@
    &&& p.mode == b.mode
}

impl ContainerBuilder {
    /// A configuration for a new container with the given identifier and
    /// nothing else set.
    pub fn new(container_id: String) -> (r: ContainerBuilder)
        ensures
            r == (ContainerBuilder {
                container_id,
                root_path: None,
                rootfs: None,
                console_socket: None,
                pid_file: None,
                cwd: None,
                env: None,
                no_new_privs: false,
                process: None,
                args: r.args,
                mode: LaunchMode::InitContainer,
            }),
            r.args@ == Seq::<String>::empty(),
    {
        ContainerBuilder {
            container_id,
            root_path: None,
            rootfs: None,
            console_socket: None,
            pid_file: None,
            cwd: None,
            env: None,
            no_new_privs: false,
            process: None,
            args: Vec::new(),
            mode: LaunchMode::InitContainer,
        }
    }

    pub fn with_root_path(self, root_path: String) -> (r: ContainerBuilder)
        ensures
            r == (ContainerBuilder { root_path: Some(root_path), ..self }),
    {
        ContainerBuilder { root_path: Some(root_path), ..self }
    }

    pub fn with_rootfs(self, rootfs: String) -> (r: ContainerBuilder)
        ensures
            r == rootfs_set(self, rootfs),
    {
        ContainerBuilder { rootfs: Some(rootfs), ..self }
    }

    pub fn with_console_socket(self, socket: String) -> (r: ContainerBuilder)
        ensures
            r == (ContainerBuilder { console_socket: Some(socket), ..self }),
    {
        ContainerBuilder { console_socket: Some(socket), ..self }
    }

    pub fn with_pid_file(self, pid_file: String) -> (r: ContainerBuilder)
        ensures
            r == (ContainerBuilder { pid_file: Some(pid_file), ..self }),
    {
        ContainerBuilder { pid_file: Some(pid_file), ..self }
    }

    /// Switches to launching a process in the running container.
    pub fn as_tenant(self) -> (r: ContainerBuilder)
        ensures
            r == tenant(self),
    {
        ContainerBuilder { mode: LaunchMode::TenantProcess, ..self }
    }

    pub fn with_cwd(self, cwd: String) -> (r: ContainerBuilder)
        ensures
            r == (ContainerBuilder { cwd: Some(cwd), ..self }),
    {
        ContainerBuilder { cwd: Some(cwd), ..self }
    }

    /// Sets the environment; a second call replaces the first mapping
    /// whole, it does not merge with it.
    pub fn with_env(self, env: Vec<(String, String)>) -> (r: ContainerBuilder)
        ensures
            r == env_set(self, env),
    {
        ContainerBuilder { env: Some(env), ..self }
    }

    pub fn with_no_new_privs(self, no_new_privs: bool) -> (r: ContainerBuilder)
        ensures
            r == (ContainerBuilder { no_new_privs, ..self }),
    {
        ContainerBuilder { no_new_privs, ..self }
    }

    pub fn with_process(self, process: String) -> (r: ContainerBuilder)
        ensures
            r == (ContainerBuilder { process: Some(process), ..self }),
    {
        ContainerBuilder { process: Some(process), ..self }
    }

    pub fn with_container_args(self, args: Vec<String>) -> (r: ContainerBuilder)
        ensures
            r == (ContainerBuilder { args, ..self }),
    {
        ContainerBuilder { args, ..self }
    }

    /// Validates the configuration and turns it into a launch plan: the
    /// error names the conflict where there is one, and the plan otherwise
    /// holds every setting as given, the environment with each name once.
    pub fn build(self) -> (r: Result<LaunchPlan, BuildError>)
        ensures
            config_conflict(self) matches Some(c) ==> r == Err::<LaunchPlan, BuildError>(
                BuildError::InvalidConfig(c),
            ),
            config_conflict(self) is None <==> r is Ok,
            r matches Ok(p) ==> plan_follows(p, self),
    {
        match self.mode {
            LaunchMode::TenantProcess => {
                if self.rootfs.is_some() {
                    return Err(BuildError::InvalidConfig(ConfigConflict::RootfsForTenant));
                }
            },
            LaunchMode::InitContainer => {
                if self.rootfs.is_none() {
                    return Err(BuildError::InvalidConfig(ConfigConflict::MissingRootfs));
                }
            },
        }
        let env = match &self.env {
            Some(e) => Some(unique_env(e)),
            None => None,
        };
        Ok(LaunchPlan {
            container_id: self.container_id,
            root_path: self.root_path,
            rootfs: self.rootfs,
            console_socket: self.console_socket,
            pid_file: self.pid_file,
            cwd: self.cwd,
            env,
            no_new_privs: self.no_new_privs,
            process: self.process,
            args: self.args,
            mode: self.mode,
        })
    }
}

/// A tenant process given a root filesystem fails to build, whatever else
/// was set, and so does a new container that was never given one.
pub proof fn lemma_rootfs_conflicts(b: ContainerBuilder, rootfs: String)
    ensures
        config_conflict(rootfs_set(tenant(b), rootfs)) == Some(ConfigConflict::RootfsForTenant),
        b.mode == LaunchMode::InitContainer && b.rootfs is None ==> config_conflict(b) == Some(
            ConfigConflict::MissingRootfs,
        ),
{
}

/// Setting the environment a second time replaces the first mapping whole:
/// the result is as if only the second had been set.
pub proof fn lemma_env_last_set_wins(
    b: ContainerBuilder,
    first: Vec<(String, String)>,
    second: Vec<(String, String)>,
)
    ensures
        env_set(env_set(b, first), second) == env_set(b, second),
        env_set(env_set(b, first), second).env == Some(second),
{
}

} // verus!
