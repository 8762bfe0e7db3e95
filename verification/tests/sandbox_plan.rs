use isolator::caps::cap_drop_list;
use isolator::decimal::decimal_string;
use isolator::mounts::proc_mount;
use isolator::mounts::share_mount;
use isolator::mounts::usr_remount;
use isolator::outcome::error_kind;
use isolator::outcome::failure_report;
use isolator::outcome::launch_success;
use isolator::outcome::preflight_plan;
use isolator::outcome::BuildError;
use isolator::outcome::LaunchOutcome;
use isolator::outcome::Phase;
use isolator::paths::join_path;
use isolator::plan::build_plan;
use isolator::plan::recognized_share_count;
use isolator::plan::unshare_set;
use isolator::plan::Action;
use isolator::plan::NamespaceKind;
use isolator::profiles::profile_link;
use isolator::request::SandboxRequest;
use isolator::seccomp::FilterDecision;
use isolator::seccomp::SeccompPolicy;
use isolator::share::parse_share;
use isolator::share::share_env_var;
use isolator::share::ShareKind;
use isolator::userns::setgroups_line;
use isolator::userns::UserNamespaceMapping;

// Syscall numbers and errno on x86-64 Linux, used as concrete test inputs.
const SYS_PTRACE: u64 = 101;
const SYS_GETPID: u64 = 39;
const SYS_MOUNT: u64 = 165;
const SYS_KEXEC_LOAD: u64 = 246;
const EPERM: u32 = 1;

fn strings(tokens: &[&str]) -> Vec<String> {
    tokens.iter().map(|t| t.to_string()).collect()
}

#[test]
fn parse_share_recognizes_the_closed_set() {
    assert_eq!(parse_share("home"), Some(ShareKind::Home));
    assert_eq!(parse_share("wayland"), Some(ShareKind::Wayland));
    assert_eq!(parse_share("x11"), Some(ShareKind::X11));
    assert_eq!(parse_share("sound"), Some(ShareKind::Sound));
    assert_eq!(parse_share("tools"), Some(ShareKind::Tools));
}

#[test]
fn parse_share_rejects_unknown_tokens() {
    assert_eq!(parse_share("network"), None);
    assert_eq!(parse_share(""), None);
    assert_eq!(parse_share("HOME"), None);
    assert_eq!(parse_share("x11 "), None);
}

#[test]
fn share_env_vars_for_display_servers_only() {
    assert_eq!(
        share_env_var(ShareKind::Wayland),
        Some(("WAYLAND_DISPLAY".to_string(), "wayland-0".to_string()))
    );
    assert_eq!(
        share_env_var(ShareKind::X11),
        Some(("DISPLAY".to_string(), ":0".to_string()))
    );
    assert_eq!(share_env_var(ShareKind::Home), None);
    assert_eq!(share_env_var(ShareKind::Sound), None);
    assert_eq!(share_env_var(ShareKind::Tools), None);
}

#[test]
fn decimal_rendering_exact_values() {
    assert_eq!(decimal_string(0), "0");
    assert_eq!(decimal_string(7), "7");
    assert_eq!(decimal_string(1000), "1000");
    assert_eq!(decimal_string(u32::MAX), "4294967295");
}

#[test]
fn identity_mapping_line_is_literal() {
    let m = UserNamespaceMapping::identity(1000);
    assert_eq!(m.container_id, 0);
    assert_eq!(m.count, 1);
    assert_eq!(m.map_line(), "0 1000 1\n");
    let m2 = UserNamespaceMapping::identity(65534);
    assert_eq!(m2.map_line(), "0 65534 1\n");
}

#[test]
fn setgroups_is_denied() {
    assert_eq!(setgroups_line(), "deny\n");
}

#[test]
fn home_share_narrows_to_documents() {
    let m = share_mount(ShareKind::Home, "/home/alice", 1000);
    assert_eq!(m.source, "/home/alice/Documents");
    assert_eq!(m.target, "/home/user/Documents");
    assert!(m.flags.bind && !m.flags.remount && !m.flags.read_only);
    assert!(m.fstype.is_none());
}

#[test]
fn socket_shares_use_host_uid_runtime_dir() {
    let w = share_mount(ShareKind::Wayland, "/home/alice", 1000);
    assert_eq!(w.source, "/run/user/1000/wayland-0");
    assert_eq!(w.target, "/run/wayland-0");
    let s = share_mount(ShareKind::Sound, "/home/alice", 4242);
    assert_eq!(s.source, "/run/user/4242/pipewire-0");
    assert_eq!(s.target, "/run/pipewire-0");
}

#[test]
fn x11_and_tools_shares_keep_their_paths() {
    let x = share_mount(ShareKind::X11, "/home/alice", 1000);
    assert_eq!(x.source, "/tmp/.X11-unix");
    assert_eq!(x.target, "/tmp/.X11-unix");
    let t = share_mount(ShareKind::Tools, "/home/alice", 1000);
    assert_eq!(t.source, "/usr/bin/git");
    assert_eq!(t.target, "/usr/bin/git");
}

#[test]
fn procfs_mount_is_fresh_proc() {
    let m = proc_mount();
    assert_eq!(m.source, "proc");
    assert_eq!(m.target, "/proc");
    assert_eq!(m.fstype, Some("proc".to_string()));
    assert!(!m.flags.bind && !m.flags.remount && !m.flags.read_only);
}

#[test]
fn usr_is_sealed_read_only() {
    let m = usr_remount();
    assert_eq!(m.source, "/usr");
    assert_eq!(m.target, "/usr");
    assert!(m.flags.bind && m.flags.remount && m.flags.read_only);
    assert!(m.fstype.is_none());
}

#[test]
fn cap_drop_list_covers_every_kernel_capability() {
    let list = cap_drop_list(40);
    let expected: Vec<u32> = (0..=40).collect();
    assert_eq!(list, expected);
    assert_eq!(cap_drop_list(0), vec![0]);
}

#[test]
fn bounding_set_is_emptied_whatever_the_parent_held() {
    let mut held: Vec<u32> = vec![3, 7, 21, 39];
    for c in cap_drop_list(40) {
        held.retain(|&x| x != c);
    }
    assert!(held.is_empty());
}

#[test]
fn plan_cap_drops_empty_the_held_set() {
    let tokens = strings(&["home", "x11"]);
    let plan = build_plan(&tokens, 1000, 40);
    let mut held: Vec<u32> = vec![0, 12, 40];
    for a in &plan {
        if let Action::DropBoundingCap { cap } = a {
            held.retain(|&x| x != *cap);
        }
    }
    assert!(held.is_empty());
}

#[test]
fn filter_denies_the_three_listed_syscalls() {
    let p = SeccompPolicy::standard(SYS_PTRACE, SYS_MOUNT, SYS_KEXEC_LOAD, EPERM);
    assert_eq!(
        p.decide(SYS_PTRACE),
        FilterDecision::DenyErrno { errno_value: EPERM }
    );
    assert_eq!(
        p.decide(SYS_MOUNT),
        FilterDecision::DenyErrno { errno_value: EPERM }
    );
    assert_eq!(
        p.decide(SYS_KEXEC_LOAD),
        FilterDecision::DenyErrno { errno_value: EPERM }
    );
}

#[test]
fn filter_allows_unrelated_syscalls() {
    let p = SeccompPolicy::standard(SYS_PTRACE, SYS_MOUNT, SYS_KEXEC_LOAD, EPERM);
    assert_eq!(p.decide(SYS_GETPID), FilterDecision::Allow);
    assert_eq!(p.decide(0), FilterDecision::Allow);
}

#[test]
fn unshare_requests_all_six_namespaces() {
    let set = unshare_set();
    assert_eq!(
        set,
        vec![
            NamespaceKind::User,
            NamespaceKind::Pid,
            NamespaceKind::Net,
            NamespaceKind::Mnt,
            NamespaceKind::Uts,
            NamespaceKind::Ipc,
        ]
    );
}

#[test]
fn no_new_privs_is_set_strictly_before_filter_load() {
    let tokens = strings(&["home", "wayland", "sound"]);
    let plan = build_plan(&tokens, 1000, 40);
    let nnp: Vec<usize> = plan
        .iter()
        .enumerate()
        .filter(|(_, a)| matches!(a, Action::SetNoNewPrivs))
        .map(|(i, _)| i)
        .collect();
    let load: Vec<usize> = plan
        .iter()
        .enumerate()
        .filter(|(_, a)| matches!(a, Action::LoadFilter))
        .map(|(i, _)| i)
        .collect();
    assert_eq!(nnp.len(), 1);
    assert_eq!(load.len(), 1);
    assert!(nnp[0] < load[0]);
}

#[test]
fn recognized_tokens_are_bound_and_unknown_tokens_never_abort() {
    let tokens = strings(&["home", "bogus", "x11"]);
    let plan = build_plan(&tokens, 1000, 40);
    let binds: Vec<ShareKind> = plan
        .iter()
        .filter_map(|a| match a {
            Action::BindShare { kind } => Some(*kind),
            _ => None,
        })
        .collect();
    assert_eq!(binds, vec![ShareKind::Home, ShareKind::X11]);
    assert_eq!(plan.last(), Some(&Action::ExecTarget));
    assert_eq!(recognized_share_count(&tokens), 2);
}

#[test]
fn empty_share_list_still_switches_root_and_drops_privileges() {
    let tokens: Vec<String> = Vec::new();
    let plan = build_plan(&tokens, 1000, 40);
    assert!(plan.iter().all(|a| !matches!(a, Action::BindShare { .. })));
    assert!(plan.contains(&Action::PivotToOldRoot));
    assert!(plan.contains(&Action::DetachOldRoot));
    assert!(plan.contains(&Action::RemountUsrReadOnly));
    for c in 0..=40u32 {
        assert!(plan.contains(&Action::DropBoundingCap { cap: c }));
    }
    assert!(plan.contains(&Action::SetNoNewPrivs));
    assert!(plan.contains(&Action::LoadFilter));
    assert_eq!(plan.last(), Some(&Action::ExecTarget));
}

#[test]
fn request_with_home_and_x11_plans_exactly_two_binds() {
    let req = SandboxRequest::new(
        "app1".to_string(),
        strings(&["home", "x11"]),
        "/var/lib/isolator",
    );
    assert_eq!(req.sandbox_dir, "/var/lib/isolator/app1");
    let plan = req.plan(1000, 40);
    let binds: Vec<ShareKind> = plan
        .iter()
        .filter_map(|a| match a {
            Action::BindShare { kind } => Some(*kind),
            _ => None,
        })
        .collect();
    assert_eq!(binds, vec![ShareKind::Home, ShareKind::X11]);
    let docs = share_mount(ShareKind::Home, "/home/alice", 1000);
    assert_eq!(docs.target, "/home/user/Documents");
    let x11 = share_mount(ShareKind::X11, "/home/alice", 1000);
    assert_eq!(x11.target, "/tmp/.X11-unix");
}

#[test]
fn declining_preflight_yields_no_plan_and_success() {
    let tokens = strings(&["home", "x11"]);
    assert!(preflight_plan(false, &tokens, 1000, 40).is_none());
    assert!(launch_success(LaunchOutcome::Declined));
    let confirmed = preflight_plan(true, &tokens, 1000, 40);
    assert!(confirmed.is_some());
    assert_eq!(confirmed.unwrap().last(), Some(&Action::ExecTarget));
}

#[test]
fn missing_binary_fails_at_exec_after_filter_loaded() {
    let tokens = strings(&["home"]);
    let plan = build_plan(&tokens, 1000, 40);
    let (phase, err) = failure_report(&plan, plan.len() - 1);
    assert_eq!(phase, Phase::FilterLoaded);
    assert_eq!(err, BuildError::Exec);
    // A request naming a nonexistent binary builds the very same plan: no
    // earlier step depends on the target existing.
    let plan2 = build_plan(&tokens, 1000, 40);
    assert_eq!(plan, plan2);
}

#[test]
fn each_failing_step_reports_its_error_kind() {
    assert_eq!(error_kind(Action::EnterNamespaces), BuildError::Namespace);
    assert_eq!(
        error_kind(Action::WriteUidMap { host_id: 1000 }),
        BuildError::Namespace
    );
    assert_eq!(error_kind(Action::MountProc), BuildError::Mount);
    assert_eq!(
        error_kind(Action::BindShare { kind: ShareKind::Home }),
        BuildError::Mount
    );
    assert_eq!(error_kind(Action::PivotToOldRoot), BuildError::RootSwitch);
    assert_eq!(
        error_kind(Action::RemountUsrReadOnly),
        BuildError::RootSwitch
    );
    assert_eq!(
        error_kind(Action::DropBoundingCap { cap: 0 }),
        BuildError::Privilege
    );
    assert_eq!(error_kind(Action::SetNoNewPrivs), BuildError::Privilege);
    assert_eq!(error_kind(Action::LoadFilter), BuildError::Filter);
    assert_eq!(error_kind(Action::ExecTarget), BuildError::Exec);
}

#[test]
fn failure_early_in_the_plan_reports_early_phase() {
    let tokens = strings(&["home"]);
    let plan = build_plan(&tokens, 1000, 40);
    let (phase, err) = failure_report(&plan, 0);
    assert_eq!(phase, Phase::Start);
    assert_eq!(err, BuildError::Namespace);
    let (phase1, err1) = failure_report(&plan, 1);
    assert_eq!(phase1, Phase::Unshared);
    assert_eq!(err1, BuildError::Namespace);
}

#[test]
fn launch_success_only_for_decline_or_zero_exit() {
    assert!(launch_success(LaunchOutcome::Declined));
    assert!(launch_success(LaunchOutcome::ChildExited { code: 0 }));
    assert!(!launch_success(LaunchOutcome::ChildExited { code: 1 }));
    assert!(!launch_success(LaunchOutcome::ChildSignaled { signal: 9 }));
    assert!(!launch_success(LaunchOutcome::ForkFailed));
}

#[test]
fn profile_link_paths_join_under_isolator_root() {
    let l = profile_link("/var/lib/isolator", "base", "game");
    assert_eq!(l.source_dir, "/var/lib/isolator/base");
    assert_eq!(l.target_dir, "/var/lib/isolator/game");
    assert_eq!(l.link_path, "/var/lib/isolator/game/linked");
    assert_eq!(join_path("/a", "b"), "/a/b");
}
