use youki::builder::LaunchMode;
use youki::launch::{Launch, LaunchAction, LaunchError, LaunchEvent, LaunchStage};

fn drive(mode: LaunchMode, events: &[LaunchEvent]) -> (Launch, Vec<LaunchAction>) {
    let mut l = Launch::start(mode);
    let mut actions = Vec::new();
    for e in events {
        let (n, a) = l.step(*e);
        l = n;
        actions.push(a);
    }
    (l, actions)
}

#[test]
fn init_launch_applies_limits_before_exec() {
    let (l, actions) = drive(
        LaunchMode::InitContainer,
        &[
            LaunchEvent::NamespacesEntered,
            LaunchEvent::CgroupApplied,
            LaunchEvent::ChildReady,
            LaunchEvent::ExecSucceeded,
        ],
    );
    assert_eq!(
        actions,
        vec![
            LaunchAction::SetupCgroup,
            LaunchAction::ReleaseChild,
            LaunchAction::AllowExec,
            LaunchAction::Finish,
        ]
    );
    assert_eq!(l.stage, LaunchStage::Running);
    assert!(l.limits_applied);
}

#[test]
fn init_launch_cannot_skip_cgroup_setup() {
    let (l, actions) = drive(
        LaunchMode::InitContainer,
        &[LaunchEvent::NamespacesEntered, LaunchEvent::ChildReady],
    );
    assert_eq!(actions[1], LaunchAction::Abort(LaunchError::SyncChannelBroken));
    assert_eq!(l.stage, LaunchStage::Failed(LaunchError::SyncChannelBroken));
}

#[test]
fn tenant_launch_skips_cgroup_setup() {
    let (l, actions) = drive(
        LaunchMode::TenantProcess,
        &[LaunchEvent::NamespacesEntered, LaunchEvent::ChildReady, LaunchEvent::ExecSucceeded],
    );
    assert_eq!(
        actions,
        vec![LaunchAction::ReleaseChild, LaunchAction::AllowExec, LaunchAction::Finish]
    );
    assert_eq!(l.stage, LaunchStage::Running);
}

#[test]
fn failed_exec_is_reported() {
    let (l, actions) = drive(
        LaunchMode::TenantProcess,
        &[
            LaunchEvent::NamespacesEntered,
            LaunchEvent::ChildReady,
            LaunchEvent::ExecFailed,
            LaunchEvent::ExecSucceeded,
        ],
    );
    assert_eq!(actions[2], LaunchAction::Abort(LaunchError::ExecFailed));
    assert_eq!(actions[3], LaunchAction::Wait);
    assert_eq!(l.stage, LaunchStage::Failed(LaunchError::ExecFailed));
}

#[test]
fn join_and_cgroup_failures_are_reported() {
    let (l, _) = drive(LaunchMode::TenantProcess, &[LaunchEvent::NamespaceJoinFailed]);
    assert_eq!(l.stage, LaunchStage::Failed(LaunchError::NamespaceJoinFailed));
    let (l, a) = drive(
        LaunchMode::InitContainer,
        &[LaunchEvent::NamespacesEntered, LaunchEvent::CgroupFailed],
    );
    assert_eq!(a[1], LaunchAction::Abort(LaunchError::CgroupSetupFailed));
    assert_eq!(l.stage, LaunchStage::Failed(LaunchError::CgroupSetupFailed));
    let (l, _) = drive(LaunchMode::InitContainer, &[LaunchEvent::ChannelBroken]);
    assert_eq!(l.stage, LaunchStage::Failed(LaunchError::SyncChannelBroken));
}

#[test]
fn channel_messages_round_trip() {
    for e in [
        LaunchEvent::NamespacesEntered,
        LaunchEvent::NamespaceJoinFailed,
        LaunchEvent::ChildReady,
        LaunchEvent::ExecFailed,
    ] {
        let b = e.to_message().expect("the process sends this event");
        assert_eq!(LaunchEvent::from_message(Some(b)), e);
    }
    assert_eq!(LaunchEvent::CgroupApplied.to_message(), None);
    assert_eq!(LaunchEvent::from_message(None), LaunchEvent::ExecSucceeded);
    assert_eq!(LaunchEvent::from_message(Some(0)), LaunchEvent::ChannelBroken);
    assert_eq!(LaunchEvent::from_message(Some(200)), LaunchEvent::ChannelBroken);
}

#[test]
fn channel_closing_early_breaks_launch() {
    let (l, actions) = drive(LaunchMode::InitContainer, &[LaunchEvent::from_message(None)]);
    assert_eq!(actions[0], LaunchAction::Abort(LaunchError::SyncChannelBroken));
    assert_eq!(l.stage, LaunchStage::Failed(LaunchError::SyncChannelBroken));
}
