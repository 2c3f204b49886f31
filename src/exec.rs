//! The options of running a further process in an existing container, and
//! the launch plan that they make.
use vstd::prelude::*;
use vstd::string::*;
use crate::env::copy_pairs;
use crate::builder::{BuildError, ContainerBuilder, LaunchMode, LaunchPlan, same_env};

verus! {

/// The options of running a process inside a running container.
pub struct Exec {
    /// The socket that receives the pseudoterminal's master end.
    pub console_socket: Option<String>,
    /// Whether a pseudoterminal is wanted.
    pub tty: bool,
    /// The working directory of the process.
    pub cwd: Option<String>,
    /// The file that receives the process id.
    pub pid_file: Option<String>,
    /// Environment variables of the process, in the order given.
    pub env: Vec<(String, String)>,
    /// Whether the process may not gain privileges.
    pub no_new_privs: bool,
    /// A process specification to run in place of the command.
    pub process: Option<String>,
    /// Whether to detach from the process.
    pub detach: bool,
    /// The identifier of the container.
    pub container_id: String,
    /// The command and its arguments.
    pub command: Vec<String>,
}

/// The plan of an exec: a tenant process of the container with the given
/// options, under the runtime's state directory `root_path`.
pub open spec fn exec_plan(e: Exec, root_path: String, p: LaunchPlan) -> bool {
    &&& p.mode == LaunchMode::TenantProcess
    &&& p.container_id == e.container_id
    &&& p.root_path == Some(root_path)
    &&& p.rootfs is None
    &&& p.console_socket == e.console_socket
    &&& p.pid_file == e.pid_file
    &&& p.cwd == e.cwd
    &&& same_env(p.env, if e.env@.len() == 0 { None } else { Some(e.env) })
    &&& p.no_new_privs == e.no_new_privs
    &&& p.process == e.process
    &&& p.args@ == e.command@
}

impl Exec {
    /// The launch plan of this exec: a tenant process, which always passes
    /// validation. The environment is replaced only where variables were
    /// given; a name given twice keeps its last value.
    pub fn exec(&self, root_path: String) -> (r: Result<LaunchPlan, BuildError>)
        ensures
            r matches Ok(p) && exec_plan(*self, root_path, p),
    {
        let mut builder = ContainerBuilder::new(self.container_id.clone()).with_root_path(
            root_path,
        );
        if let Some(console_socket) = &self.console_socket {
            builder = builder.with_console_socket(console_socket.clone());
        }
        if let Some(pid_file) = &self.pid_file {
            builder = builder.with_pid_file(pid_file.clone());
        }
        let mut builder = builder.as_tenant();
        if let Some(cwd) = &self.cwd {
            builder = builder.with_cwd(cwd.clone());
        }
        if self.env.len() > 0 {
            builder = builder.with_env(copy_pairs(&self.env));
        }
        builder = builder.with_no_new_privs(self.no_new_privs);
        if let Some(process) = &self.process {
            builder = builder.with_process(process.clone());
        }
        let command = self.command.clone();
        assert(command@ =~= self.command@);
        builder.with_container_args(command).build()
    }
}

/// The error of an argument of the form `NAME=value`.
#[derive(PartialEq, Eq, Structural, Clone, Copy, Debug)]
pub enum KeyValError {
    /// The argument holds no `=`.
    MissingEquals,
}

/// Splits `NAME=value` at the first `=`: the name is what stands before it,
/// the value all that follows, further `=` included.
pub fn parse_key_val(s: &str) -> (r: Result<(String, String), KeyValError>)
    ensures
        r is Err <==> (forall|i: int| 0 <= i < s@.len() ==> s@[i] != '='),
        r is Err ==> r == Err::<(String, String), KeyValError>(KeyValError::MissingEquals),
        r matches Ok(kv) ==> (exists|pos: int|
            0 <= pos < s@.len() && s@[pos] == '=' && (forall|j: int| 0 <= j < pos ==> s@[j] != '=')
                && kv.0@ == s@.subrange(0, pos) && kv.1@ == s@.subrange(pos + 1, s@.len() as int)),
{
    let n = s.unicode_len();
    let mut i: usize = 0;
    while i < n
        invariant
            n == s@.len(),
            0 <= i <= n,
            forall|j: int| 0 <= j < i ==> s@[j] != '=',
        decreases n - i,
    {
        if s.get_char(i) == '=' {
            let key = String::from_str(s.substring_char(0, i));
            let value = String::from_str(s.substring_char(i + 1, n));
            return Ok((key, value));
        }
        i = i + 1;
    }
    Err(KeyValError::MissingEquals)
}

} // verus!
