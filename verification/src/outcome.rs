//! Phases, error kinds and outcomes: what the child reports when a build
//! step fails, and what the supervisor observes of the whole launch.
//!
//! Every step failure is fatal — there is no retry or rollback, since
//! partially constructed isolation state belongs to a process that is
//! about to die anyway.

use vstd::prelude::*;
use crate::plan::Action;
use crate::plan::build_plan;
use crate::plan::cap_actions_spec;
use crate::plan::epilogue_spec;
use crate::plan::lemma_share_actions_only_binds;
use crate::plan::plan_spec;
use crate::plan::prologue_spec;
use crate::plan::root_switch_spec;
use crate::plan::share_actions_spec;

verus! {

/// The construction phases of the child process, in build order.
#[derive(Clone, Copy, Debug, PartialEq, Eq, Structural)]
pub enum Phase {
    Start,
    Unshared,
    IdentityMapped,
    MountsConfigured,
    RootSwitched,
    CapabilitiesDropped,
    NoNewPrivsSet,
    FilterLoaded,
    Execd,
}

/// Position of a phase in the build order.
pub open spec fn phase_rank(p: Phase) -> nat {
    match p {
        Phase::Start => 0,
        Phase::Unshared => 1,
        Phase::IdentityMapped => 2,
        Phase::MountsConfigured => 3,
        Phase::RootSwitched => 4,
        Phase::CapabilitiesDropped => 5,
        Phase::NoNewPrivsSet => 6,
        Phase::FilterLoaded => 7,
        Phase::Execd => 8,
    }
}

/// The phase the child has completed when a given step is the next one to
/// run — equivalently, the phase it had reached when that step failed.
pub open spec fn phase_before_spec(a: Action) -> Phase {
    match a {
        Action::EnterNamespaces => Phase::Start,
        Action::WriteUidMap { .. } => Phase::Unshared,
        Action::WriteGidMap { .. } => Phase::Unshared,
        Action::DenySetgroups => Phase::Unshared,
        Action::MakeProcDir => Phase::IdentityMapped,
        Action::MountProc => Phase::IdentityMapped,
        Action::BindShare { .. } => Phase::IdentityMapped,
        Action::ChangeDirToNewRoot => Phase::MountsConfigured,
        Action::PivotToOldRoot => Phase::MountsConfigured,
        Action::DetachOldRoot => Phase::MountsConfigured,
        Action::RemountUsrReadOnly => Phase::MountsConfigured,
        Action::DropBoundingCap { .. } => Phase::RootSwitched,
        Action::SetNoNewPrivs => Phase::CapabilitiesDropped,
        Action::LoadFilter => Phase::NoNewPrivsSet,
        Action::ExecTarget => Phase::FilterLoaded,
    }
}

/// The phase reached when a step fails.
pub fn phase_before(a: Action) -> (p: Phase)
    ensures
        p == phase_before_spec(a),
{
    match a {
        Action::EnterNamespaces => Phase::Start,
        Action::WriteUidMap { .. } => Phase::Unshared,
        Action::WriteGidMap { .. } => Phase::Unshared,
        Action::DenySetgroups => Phase::Unshared,
        Action::MakeProcDir => Phase::IdentityMapped,
        Action::MountProc => Phase::IdentityMapped,
        Action::BindShare { .. } => Phase::IdentityMapped,
        Action::ChangeDirToNewRoot => Phase::MountsConfigured,
        Action::PivotToOldRoot => Phase::MountsConfigured,
        Action::DetachOldRoot => Phase::MountsConfigured,
        Action::RemountUsrReadOnly => Phase::MountsConfigured,
        Action::DropBoundingCap { .. } => Phase::RootSwitched,
        Action::SetNoNewPrivs => Phase::CapabilitiesDropped,
        Action::LoadFilter => Phase::NoNewPrivsSet,
        Action::ExecTarget => Phase::FilterLoaded,
    }
}

/// The fatal error kinds a build step can raise.
#[derive(Clone, Copy, Debug, PartialEq, Eq, Structural)]
pub enum BuildError {
    Namespace,
    Mount,
    RootSwitch,
    Privilege,
    Filter,
    Exec,
}

/// The error kind of each failing step: unshare and identity-mapping
/// failures are namespace errors, procfs and share-bind failures mount
/// errors, pivot, detach and the `/usr` seal root-switch errors,
/// capability drops and no-new-privileges privilege errors, the filter
/// load a filter error, and a missing or non-executable target an exec
/// error.
pub open spec fn error_kind_spec(a: Action) -> BuildError {
    match a {
        Action::EnterNamespaces => BuildError::Namespace,
        Action::WriteUidMap { .. } => BuildError::Namespace,
        Action::WriteGidMap { .. } => BuildError::Namespace,
        Action::DenySetgroups => BuildError::Namespace,
        Action::MakeProcDir => BuildError::Mount,
        Action::MountProc => BuildError::Mount,
        Action::BindShare { .. } => BuildError::Mount,
        Action::ChangeDirToNewRoot => BuildError::RootSwitch,
        Action::PivotToOldRoot => BuildError::RootSwitch,
        Action::DetachOldRoot => BuildError::RootSwitch,
        Action::RemountUsrReadOnly => BuildError::RootSwitch,
        Action::DropBoundingCap { .. } => BuildError::Privilege,
        Action::SetNoNewPrivs => BuildError::Privilege,
        Action::LoadFilter => BuildError::Filter,
        Action::ExecTarget => BuildError::Exec,
    }
}

/// The error kind of a failing step.
pub fn error_kind(a: Action) -> (e: BuildError)
    ensures
        e == error_kind_spec(a),
{
    match a {
        Action::EnterNamespaces => BuildError::Namespace,
        Action::WriteUidMap { .. } => BuildError::Namespace,
        Action::WriteGidMap { .. } => BuildError::Namespace,
        Action::DenySetgroups => BuildError::Namespace,
        Action::MakeProcDir => BuildError::Mount,
        Action::MountProc => BuildError::Mount,
        Action::BindShare { .. } => BuildError::Mount,
        Action::ChangeDirToNewRoot => BuildError::RootSwitch,
        Action::PivotToOldRoot => BuildError::RootSwitch,
        Action::DetachOldRoot => BuildError::RootSwitch,
        Action::RemountUsrReadOnly => BuildError::RootSwitch,
        Action::DropBoundingCap { .. } => BuildError::Privilege,
        Action::SetNoNewPrivs => BuildError::Privilege,
        Action::LoadFilter => BuildError::Filter,
        Action::ExecTarget => BuildError::Exec,
    }
}

/// A short label for an error kind, for the front end's report.
pub fn error_label(e: BuildError) -> (r: &'static str)
    ensures
        e == BuildError::Namespace ==> r@ == "namespace error"@,
        e == BuildError::Mount ==> r@ == "mount error"@,
        e == BuildError::RootSwitch ==> r@ == "root switch error"@,
        e == BuildError::Privilege ==> r@ == "privilege error"@,
        e == BuildError::Filter ==> r@ == "filter error"@,
        e == BuildError::Exec ==> r@ == "exec error"@,
{
    match e {
        BuildError::Namespace => "namespace error",
        BuildError::Mount => "mount error",
        BuildError::RootSwitch => "root switch error",
        BuildError::Privilege => "privilege error",
        BuildError::Filter => "filter error",
        BuildError::Exec => "exec error",
    }
}

/// The report the child makes when step `failed_at` of its plan fails:
/// the phase it had reached, and the kind of the failing step's error.
pub fn failure_report(plan: &Vec<Action>, failed_at: usize) -> (r: (Phase, BuildError))
    requires
        failed_at < plan@.len(),
    ensures
        r.0 == phase_before_spec(plan@[failed_at as int]),
        r.1 == error_kind_spec(plan@[failed_at as int]),
{
    let a = plan[failed_at];
    (phase_before(a), error_kind(a))
}

/// What the supervisor observes of one launch request.
#[derive(Clone, Copy, Debug, PartialEq, Eq, Structural)]
pub enum LaunchOutcome {
    /// The caller declined the pre-flight confirmation: a normal early
    /// return, nothing was done.
    Declined,
    /// Process creation itself failed; no isolation state was created.
    ForkFailed,
    /// The child terminated with this exit code.
    ChildExited { code: i32 },
    /// The child was terminated by this signal.
    ChildSignaled { signal: i32 },
}

/// A launch counts as a success exactly when the caller declined up front
/// or the child exited with status zero.
pub open spec fn launch_success_spec(o: LaunchOutcome) -> bool {
    o == LaunchOutcome::Declined || o == (LaunchOutcome::ChildExited { code: 0 })
}

/// Whether the supervisor reports the launch as a success.
pub fn launch_success(o: LaunchOutcome) -> (r: bool)
    ensures
        r == launch_success_spec(o),
{
    match o {
        LaunchOutcome::Declined => true,
        LaunchOutcome::ChildExited { code } => code == 0,
        _ => false,
    }
}

/// The pre-flight decision: declining the confirmation yields no plan —
/// so no child process and no isolation state — while confirming yields
/// the full build plan.
pub fn preflight_plan(confirmed: bool, tokens: &Vec<String>, host_id: u32, last_cap: u32) -> (r:
    Option<Vec<Action>>)
    requires
        last_cap < u32::MAX,
    ensures
        confirmed ==> (r matches Some(p) && p@ == plan_spec(
            tokens.deep_view(),
            host_id,
            last_cap,
        )),
        !confirmed ==> r is None,
{
    if confirmed {
        Some(build_plan(tokens, host_id, last_cap))
    } else {
        None
    }
}

/// The piecewise phase rank along a plan with `sh` share binds and
/// `caps` capability drops.
pub open spec fn rank_at(sh: nat, caps: nat, k: int) -> nat {
    if k == 0 {
        0
    } else if k < 4 {
        1
    } else if k < 6 + sh {
        2
    } else if k < 10 + sh {
        3
    } else if k < 10 + sh + caps {
        4
    } else if k == 10 + sh + caps {
        5
    } else if k == 11 + sh + caps {
        6
    } else {
        7
    }
}

/// The phase at position `k` of a plan is exactly the piecewise rank.
proof fn lemma_phase_rank_at(tokens: Seq<Seq<char>>, host_id: u32, last_cap: u32, k: int)
    requires
        0 <= k < plan_spec(tokens, host_id, last_cap).len(),
    ensures
        phase_rank(phase_before_spec(plan_spec(tokens, host_id, last_cap)[k])) == rank_at(
            share_actions_spec(tokens).len(),
            (last_cap + 1) as nat,
            k,
        ),
{
    let p = plan_spec(tokens, host_id, last_cap);
    let pro = prologue_spec(host_id);
    let sh = share_actions_spec(tokens);
    let rs = root_switch_spec();
    let ca = cap_actions_spec(last_cap);
    assert(p.len() == 13 + sh.len() + (last_cap + 1));
    if k < 6 {
        assert(p[k] == pro[k]);
    } else if k < 6 + sh.len() {
        assert(p[k] == sh[k - 6]);
        lemma_share_actions_only_binds(tokens, k - 6);
    } else if k < 10 + sh.len() {
        assert(p[k] == rs[k - 6 - sh.len()]);
    } else if k < 10 + sh.len() + (last_cap + 1) {
        assert(p[k] == ca[k - 10 - sh.len()]);
    } else {
        assert(p[k] == epilogue_spec()[k - 10 - sh.len() - (last_cap + 1)]);
    }
}

/// The build phases form a total order that every plan respects: a later
/// step never belongs to an earlier phase, so no legal run of the plan can
/// reorder the construction sequence.
pub proof fn lemma_phases_monotone(
    tokens: Seq<Seq<char>>,
    host_id: u32,
    last_cap: u32,
    i: int,
    j: int,
)
    requires
        0 <= i <= j < plan_spec(tokens, host_id, last_cap).len(),
    ensures
        phase_rank(phase_before_spec(plan_spec(tokens, host_id, last_cap)[i])) <= phase_rank(
            phase_before_spec(plan_spec(tokens, host_id, last_cap)[j]),
        ),
{
    lemma_phase_rank_at(tokens, host_id, last_cap, i);
    lemma_phase_rank_at(tokens, host_id, last_cap, j);
}

} // verus!
