//! The parent's side of the launch protocol: which step it takes on each
//! message from the new process or result of its own work, so that resource
//! limits are in place before the target command runs and every failure is
//! reported as what it was.
use vstd::prelude::*;
use crate::builder::LaunchMode;

verus! {

/// Why a launch failed.
#[derive(PartialEq, Eq, Structural, Clone, Copy, Debug)]
pub enum LaunchError {
    /// The process could not enter the running container's namespaces.
    NamespaceJoinFailed,
    /// The cgroup could not be created, joined or limited.
    CgroupSetupFailed,
    /// The process could not replace its image with the target command.
    ExecFailed,
    /// The channel to the process broke, or carried what the protocol does
    /// not expect at this point.
    SyncChannelBroken,
}

/// Where a launch stands.
#[derive(PartialEq, Eq, Structural, Clone, Copy, Debug)]
pub enum LaunchStage {
    /// The process exists; it is entering or joining namespaces.
    Forked,
    /// The parent is placing the process in its cgroup and applying limits.
    CgroupSetup,
    /// The process is setting up its console, privileges, environment and
    /// working directory.
    Preparing,
    /// The process was told to replace its image with the target command.
    ReadyToExec,
    /// The target command runs.
    Running,
    /// The launch failed.
    Failed(LaunchError),
}

/// What the parent learns: a message from the process over the channel, or
/// the result of its own cgroup work.
#[derive(PartialEq, Eq, Structural, Clone, Copy, Debug)]
pub enum LaunchEvent {
    /// The process entered (or joined) its namespaces.
    NamespacesEntered,
    /// The process could not join the container's namespaces.
    NamespaceJoinFailed,
    /// The parent's cgroup setup succeeded.
    CgroupApplied,
    /// The parent's cgroup setup failed.
    CgroupFailed,
    /// The process finished its preparations and waits for leave to exec.
    ChildReady,
    /// The channel closed on exec: the target command replaced the process.
    ExecSucceeded,
    /// The process reported that exec failed.
    ExecFailed,
    /// The channel broke.
    ChannelBroken,
}

/// What the parent does next.
#[derive(PartialEq, Eq, Structural, Clone, Copy, Debug)]
pub enum LaunchAction {
    /// Wait for the next message.
    Wait,
    /// Create the cgroup, attach the process and apply its limits.
    SetupCgroup,
    /// Let the process go on with its preparations.
    ReleaseChild,
    /// Let the process exec the target command.
    AllowExec,
    /// Report the launch as done.
    Finish,
    /// Stop the process, remove what was created, and report the error.
    Abort(LaunchError),
}

/// A launch in progress.
#[derive(PartialEq, Eq, Structural, Clone, Copy, Debug)]
pub struct Launch {
    pub mode: LaunchMode,
    pub stage: LaunchStage,
    /// Whether the cgroup limits were confirmed applied.
    pub limits_applied: bool,
}

/// The failed launch that reports `e`, and the step that aborts it.
pub open spec fn fail(l: Launch, e: LaunchError) -> (Launch, LaunchAction) {
    (Launch { stage: LaunchStage::Failed(e), ..l }, LaunchAction::Abort(e))
}

/// The protocol: the state after an event and the parent's next step. An
/// event that the stage does not expect breaks the launch; a finished or
/// failed launch ignores further events.
pub open spec fn next(l: Launch, e: LaunchEvent) -> (Launch, LaunchAction) {
    match l.stage {
        LaunchStage::Forked => match e {
            LaunchEvent::NamespacesEntered => if l.mode == LaunchMode::InitContainer {
                (Launch { stage: LaunchStage::CgroupSetup, ..l }, LaunchAction::SetupCgroup)
            } else {
                (Launch { stage: LaunchStage::Preparing, ..l }, LaunchAction::ReleaseChild)
            },
            LaunchEvent::NamespaceJoinFailed => fail(l, LaunchError::NamespaceJoinFailed),
            _ => fail(l, LaunchError::SyncChannelBroken),
        },
        LaunchStage::CgroupSetup => match e {
            LaunchEvent::CgroupApplied => (
                Launch { stage: LaunchStage::Preparing, limits_applied: true, ..l },
                LaunchAction::ReleaseChild,
            ),
            LaunchEvent::CgroupFailed => fail(l, LaunchError::CgroupSetupFailed),
            _ => fail(l, LaunchError::SyncChannelBroken),
        },
        LaunchStage::Preparing => match e {
            LaunchEvent::ChildReady => (
                Launch { stage: LaunchStage::ReadyToExec, ..l },
                LaunchAction::AllowExec,
            ),
            _ => fail(l, LaunchError::SyncChannelBroken),
        },
        LaunchStage::ReadyToExec => match e {
            LaunchEvent::ExecSucceeded => (
                Launch { stage: LaunchStage::Running, ..l },
                LaunchAction::Finish,
            ),
            LaunchEvent::ExecFailed => fail(l, LaunchError::ExecFailed),
            _ => fail(l, LaunchError::SyncChannelBroken),
        },
        LaunchStage::Running => (l, LaunchAction::Wait),
        LaunchStage::Failed(_) => (l, LaunchAction::Wait),
    }
}

/// A new container's process is not released past its cgroup setup, and so
/// never reaches exec, without its limits.
pub open spec fn limits_before_exec(l: Launch) -> bool {
    l.mode == LaunchMode::InitContainer && (l.stage is Preparing || l.stage is ReadyToExec
        || l.stage is Running) ==> l.limits_applied
}

/// The state after a sequence of events.
pub open spec fn run(l: Launch, events: Seq<LaunchEvent>) -> Launch
    decreases events.len(),
{
    if events.len() == 0 {
        l
    } else {
        next(run(l, events.drop_last()), events.last()).0
    }
}

impl Launch {
    /// A launch whose process was just created.
    pub fn start(mode: LaunchMode) -> (r: Launch)
        ensures
            r == (Launch { mode, stage: LaunchStage::Forked, limits_applied: false }),
            limits_before_exec(r),
    {
        Launch { mode, stage: LaunchStage::Forked, limits_applied: false }
    }

    /// Takes one event: the new state, and the step for the parent.
    pub fn step(&self, e: LaunchEvent) -> (r: (Launch, LaunchAction))
        ensures
            r == next(*self, e),
            limits_before_exec(*self) ==> limits_before_exec(r.0),
    {
        let failed = |err: LaunchError| -> (f: (Launch, LaunchAction))
            ensures
                f == fail(*self, err),
            { (Launch { stage: LaunchStage::Failed(err), ..*self }, LaunchAction::Abort(err)) };
        let r = match self.stage {
            LaunchStage::Forked => match e {
                LaunchEvent::NamespacesEntered => if self.mode == LaunchMode::InitContainer {
                    (Launch { stage: LaunchStage::CgroupSetup, ..*self }, LaunchAction::SetupCgroup)
                } else {
                    (Launch { stage: LaunchStage::Preparing, ..*self }, LaunchAction::ReleaseChild)
                },
                LaunchEvent::NamespaceJoinFailed => failed(LaunchError::NamespaceJoinFailed),
                _ => failed(LaunchError::SyncChannelBroken),
            },
            LaunchStage::CgroupSetup => match e {
                LaunchEvent::CgroupApplied => (
                    Launch { stage: LaunchStage::Preparing, limits_applied: true, ..*self },
                    LaunchAction::ReleaseChild,
                ),
                LaunchEvent::CgroupFailed => failed(LaunchError::CgroupSetupFailed),
                _ => failed(LaunchError::SyncChannelBroken),
            },
            LaunchStage::Preparing => match e {
                LaunchEvent::ChildReady => (
                    Launch { stage: LaunchStage::ReadyToExec, ..*self },
                    LaunchAction::AllowExec,
                ),
                _ => failed(LaunchError::SyncChannelBroken),
            },
            LaunchStage::ReadyToExec => match e {
                LaunchEvent::ExecSucceeded => (
                    Launch { stage: LaunchStage::Running, ..*self },
                    LaunchAction::Finish,
                ),
                LaunchEvent::ExecFailed => failed(LaunchError::ExecFailed),
                _ => failed(LaunchError::SyncChannelBroken),
            },
            LaunchStage::Running => (*self, LaunchAction::Wait),
            LaunchStage::Failed(_) => (*self, LaunchAction::Wait),
        };
        proof {
            lemma_next_keeps_limits(*self, e);
        }
        r
    }
}

/// Each step keeps a new container's limits ahead of its exec.
proof fn lemma_next_keeps_limits(l: Launch, e: LaunchEvent)
    ensures
        limits_before_exec(l) ==> limits_before_exec(next(l, e).0),
{
}

/// The byte that carries a message of the process over the channel, for
/// the events that the process sends.
pub open spec fn message_byte(e: LaunchEvent) -> Option<u8> {
    match e {
        LaunchEvent::NamespacesEntered => Some(1u8),
        LaunchEvent::NamespaceJoinFailed => Some(2u8),
        LaunchEvent::ChildReady => Some(3u8),
        LaunchEvent::ExecFailed => Some(4u8),
        _ => None,
    }
}

impl LaunchEvent {
    /// The byte that the process writes to the channel to send this event,
    /// if the process sends it; the others the parent learns otherwise.
    pub fn to_message(&self) -> (r: Option<u8>)
        ensures
            r == message_byte(*self),
    {
        match self {
            LaunchEvent::NamespacesEntered => Some(1),
            LaunchEvent::NamespaceJoinFailed => Some(2),
            LaunchEvent::ChildReady => Some(3),
            LaunchEvent::ExecFailed => Some(4),
            _ => None,
        }
    }

    /// The event of what the parent read from the channel: a byte, or
    /// `None` where the channel closed, which it does when the process
    /// replaces its image. A byte that no message uses breaks the launch.
    pub fn from_message(read: Option<u8>) -> (r: LaunchEvent)
        ensures
            read is None ==> r == LaunchEvent::ExecSucceeded,
            read is Some && (exists|e: LaunchEvent| message_byte(e) == read) ==> message_byte(r)
                == read,
            read is Some && !(exists|e: LaunchEvent| message_byte(e) == read) ==> r
                == LaunchEvent::ChannelBroken,
    {
        match read {
            None => LaunchEvent::ExecSucceeded,
            Some(b) => {
                if b == 1 {
                    LaunchEvent::NamespacesEntered
                } else if b == 2 {
                    LaunchEvent::NamespaceJoinFailed
                } else if b == 3 {
                    LaunchEvent::ChildReady
                } else if b == 4 {
                    LaunchEvent::ExecFailed
                } else {
                    LaunchEvent::ChannelBroken
                }
            },
        }
    }
}

/// Each message that the process sends reads back as the event it stands
/// for.
pub proof fn lemma_message_round_trip(e: LaunchEvent)
    requires
        message_byte(e) is Some,
    ensures
        forall|r: LaunchEvent| message_byte(r) == message_byte(e) ==> r == e,
{
}

/// Whatever messages arrive, a new container's process is never let exec,
/// and never runs, before its cgroup limits were confirmed applied.
pub proof fn lemma_limits_applied_before_exec(mode: LaunchMode, events: Seq<LaunchEvent>)
    ensures
        limits_before_exec(run(Launch { mode, stage: LaunchStage::Forked, limits_applied: false }, events)),
    decreases events.len(),
{
    if events.len() > 0 {
        let start = Launch { mode, stage: LaunchStage::Forked, limits_applied: false };
        lemma_limits_applied_before_exec(mode, events.drop_last());
        lemma_next_keeps_limits(run(start, events.drop_last()), events.last());
    }
}

/// A launch whose process reported a failed exec ends failed with that
/// error, whatever events follow, and never reports success.
pub proof fn lemma_exec_failure_reported(l: Launch, later: Seq<LaunchEvent>)
    requires
        l.stage is ReadyToExec,
    ensures
        next(l, LaunchEvent::ExecFailed).1 == LaunchAction::Abort(LaunchError::ExecFailed),
        run(next(l, LaunchEvent::ExecFailed).0, later).stage == LaunchStage::Failed(
            LaunchError::ExecFailed,
        ),
    decreases later.len(),
{
    if later.len() > 0 {
        lemma_exec_failure_reported(l, later.drop_last());
    }
}

} // verus!
