//! The sandbox build plan: the exact, ordered sequence of kernel
//! operations the child process performs, produced as plain data.
//!
//! The sequencing is security-critical — a misordering leaks privilege or
//! leaves a reachable old root — so the order is fixed here once, proved
//! about, and merely interpreted by the unverified front end: namespaces,
//! identity mapping, mounts, root switch, capability drops,
//! no-new-privileges, syscall filter, exec.

use vstd::prelude::*;
use crate::caps::bounding_set_after;
use crate::caps::cap_drop_list_spec;
use crate::caps::lemma_bounding_set_emptied;
use crate::share::ShareKind;
use crate::share::parse_share;
use crate::share::parse_share_spec;

verus! {

/// A kernel namespace the build unshares.
#[derive(Clone, Copy, Debug, PartialEq, Eq, Structural)]
pub enum NamespaceKind {
    User,
    Pid,
    Net,
    Mnt,
    Uts,
    Ipc,
}

/// The namespaces the build unshares, all in one atomic request.
pub open spec fn unshare_set_spec() -> Seq<NamespaceKind> {
    seq![
        NamespaceKind::User,
        NamespaceKind::Pid,
        NamespaceKind::Net,
        NamespaceKind::Mnt,
        NamespaceKind::Uts,
        NamespaceKind::Ipc,
    ]
}

/// The six namespaces requested in the single unshare call.
pub fn unshare_set() -> (r: Vec<NamespaceKind>)
    ensures
        r@ == unshare_set_spec(),
{
    let mut r: Vec<NamespaceKind> = Vec::new();
    r.push(NamespaceKind::User);
    r.push(NamespaceKind::Pid);
    r.push(NamespaceKind::Net);
    r.push(NamespaceKind::Mnt);
    r.push(NamespaceKind::Uts);
    r.push(NamespaceKind::Ipc);
    proof {
        assert(r@ =~= unshare_set_spec());
    }
    r
}

/// One step of the sandbox build, in the child process.
#[derive(Clone, Copy, Debug, PartialEq, Eq, Structural)]
pub enum Action {
    /// Unshare the six namespaces of `unshare_set` atomically.
    EnterNamespaces,
    /// Write the identity line to `uid_map`.
    WriteUidMap { host_id: u32 },
    /// Write the identity line to `gid_map`.
    WriteGidMap { host_id: u32 },
    /// Write `deny` to `setgroups`.
    DenySetgroups,
    /// Create the `/proc` mount point.
    MakeProcDir,
    /// Mount a fresh procfs on `/proc`.
    MountProc,
    /// Bind one granted share (see `mounts::share_mount_spec`).
    BindShare { kind: ShareKind },
    /// Change directory to the new root.
    ChangeDirToNewRoot,
    /// Pivot the root to the current directory, old root to `old_root`.
    PivotToOldRoot,
    /// Lazily detach the relocated old root.
    DetachOldRoot,
    /// Remount `/usr` read-only (see `mounts::usr_remount_spec`).
    RemountUsrReadOnly,
    /// Drop one capability number from the bounding set.
    DropBoundingCap { cap: u32 },
    /// Set the no-new-privileges process flag.
    SetNoNewPrivs,
    /// Load the syscall filter of `seccomp::SeccompPolicy::standard`.
    LoadFilter,
    /// Replace the process image by the target application.
    ExecTarget,
}

/// The steps before any share bind: namespaces, identity mapping, procfs.
pub open spec fn prologue_spec(host_id: u32) -> Seq<Action> {
    seq![
        Action::EnterNamespaces,
        Action::WriteUidMap { host_id },
        Action::WriteGidMap { host_id },
        Action::DenySetgroups,
        Action::MakeProcDir,
        Action::MountProc,
    ]
}

/// One bind per recognized share token, in token order; unrecognized
/// tokens contribute nothing and never abort the build.
pub open spec fn share_actions_spec(tokens: Seq<Seq<char>>) -> Seq<Action>
    decreases tokens.len(),
{
    if tokens.len() == 0 {
        Seq::empty()
    } else {
        share_actions_spec(tokens.drop_last()) + (match parse_share_spec(tokens.last()) {
            Some(k) => seq![Action::BindShare { kind: k }],
            None => Seq::empty(),
        })
    }
}

/// The root switch: enter the new root, pivot, detach the old root, seal
/// `/usr`.
pub open spec fn root_switch_spec() -> Seq<Action> {
    seq![
        Action::ChangeDirToNewRoot,
        Action::PivotToOldRoot,
        Action::DetachOldRoot,
        Action::RemountUsrReadOnly,
    ]
}

/// One drop per capability number the kernel defines.
pub open spec fn cap_actions_spec(last_cap: u32) -> Seq<Action> {
    Seq::new((last_cap + 1) as nat, |i: int| Action::DropBoundingCap { cap: i as u32 })
}

/// The privilege seal and the terminal exec. No-new-privileges stands
/// strictly before the filter load.
pub open spec fn epilogue_spec() -> Seq<Action> {
    seq![Action::SetNoNewPrivs, Action::LoadFilter, Action::ExecTarget]
}

/// The whole build plan for one request.
pub open spec fn plan_spec(tokens: Seq<Seq<char>>, host_id: u32, last_cap: u32) -> Seq<Action> {
    prologue_spec(host_id) + share_actions_spec(tokens) + root_switch_spec() + cap_actions_spec(
        last_cap,
    ) + epilogue_spec()
}

/// Builds the plan: `tokens` are the caller's share tokens, `host_id` the
/// invoking user's id, `last_cap` the kernel-reported highest capability
/// number.
pub fn build_plan(tokens: &Vec<String>, host_id: u32, last_cap: u32) -> (plan: Vec<Action>)
    requires
        last_cap < u32::MAX,
    ensures
        plan@ == plan_spec(tokens.deep_view(), host_id, last_cap),
{
    let ghost toks = tokens.deep_view();
    let mut plan: Vec<Action> = Vec::new();
    plan.push(Action::EnterNamespaces);
    plan.push(Action::WriteUidMap { host_id });
    plan.push(Action::WriteGidMap { host_id });
    plan.push(Action::DenySetgroups);
    plan.push(Action::MakeProcDir);
    plan.push(Action::MountProc);
    proof {
        assert(plan@ =~= prologue_spec(host_id));
    }
    let mut i: usize = 0;
    while i < tokens.len()
        invariant
            i <= tokens.len(),
            toks == tokens.deep_view(),
            plan@ == prologue_spec(host_id) + share_actions_spec(toks.take(i as int)),
        decreases tokens.len() - i,
    {
        match parse_share(tokens[i].as_str()) {
            Some(kind) => {
                plan.push(Action::BindShare { kind });
            },
            None => {},
        }
        proof {
            assert(toks.take(i + 1).drop_last() =~= toks.take(i as int));
            assert(toks.take(i + 1).last() == toks[i as int]);
            assert(plan@ =~= prologue_spec(host_id) + share_actions_spec(toks.take(i + 1)));
        }
        i = i + 1;
    }
    proof {
        assert(toks.take(tokens.len() as int) =~= toks);
    }
    plan.push(Action::ChangeDirToNewRoot);
    plan.push(Action::PivotToOldRoot);
    plan.push(Action::DetachOldRoot);
    plan.push(Action::RemountUsrReadOnly);
    let ghost base = prologue_spec(host_id) + share_actions_spec(toks) + root_switch_spec();
    proof {
        assert(plan@ =~= base);
    }
    let mut c: u32 = 0;
    while c <= last_cap
        invariant
            last_cap < u32::MAX,
            c <= last_cap + 1,
            plan@ == base + cap_actions_spec(last_cap).take(c as int),
        decreases last_cap + 1 - c,
    {
        plan.push(Action::DropBoundingCap { cap: c });
        proof {
            assert(plan@ =~= base + cap_actions_spec(last_cap).take(c + 1 as int));
        }
        c = c + 1;
    }
    proof {
        assert(cap_actions_spec(last_cap).take((last_cap + 1) as int) =~= cap_actions_spec(
            last_cap,
        ));
    }
    plan.push(Action::SetNoNewPrivs);
    plan.push(Action::LoadFilter);
    plan.push(Action::ExecTarget);
    proof {
        assert(plan@ =~= plan_spec(toks, host_id, last_cap));
    }
    plan
}

/// How many of the caller's tokens name a recognized share.
pub fn recognized_share_count(tokens: &Vec<String>) -> (n: usize)
    ensures
        n as nat == share_actions_spec(tokens.deep_view()).len(),
{
    let ghost toks = tokens.deep_view();
    let mut n: usize = 0;
    let mut i: usize = 0;
    while i < tokens.len()
        invariant
            i <= tokens.len(),
            toks == tokens.deep_view(),
            n <= i,
            n as nat == share_actions_spec(toks.take(i as int)).len(),
        decreases tokens.len() - i,
    {
        match parse_share(tokens[i].as_str()) {
            Some(_) => {
                n = n + 1;
            },
            None => {},
        }
        proof {
            assert(toks.take(i + 1).drop_last() =~= toks.take(i as int));
            assert(toks.take(i + 1).last() == toks[i as int]);
        }
        i = i + 1;
    }
    proof {
        assert(toks.take(tokens.len() as int) =~= toks);
    }
    n
}

/// Every element of the share section is a bind of some recognized share.
pub proof fn lemma_share_actions_only_binds(tokens: Seq<Seq<char>>, j: int)
    requires
        0 <= j < share_actions_spec(tokens).len(),
    ensures
        share_actions_spec(tokens)[j] is BindShare,
    decreases tokens.len(),
{
    if tokens.len() > 0 {
        let prefix = share_actions_spec(tokens.drop_last());
        if j < prefix.len() {
            lemma_share_actions_only_binds(tokens.drop_last(), j);
        }
    }
}

/// Every token that names a recognized share puts its bind into the plan:
/// the share section contains `BindShare` of the parsed kind.
pub proof fn lemma_share_actions_complete(tokens: Seq<Seq<char>>, i: int)
    requires
        0 <= i < tokens.len(),
        parse_share_spec(tokens[i]) is Some,
    ensures
        share_actions_spec(tokens).contains(
            Action::BindShare { kind: parse_share_spec(tokens[i])->Some_0 },
        ),
    decreases tokens.len(),
{
    let k = parse_share_spec(tokens[i])->Some_0;
    let whole = share_actions_spec(tokens);
    let prefix = share_actions_spec(tokens.drop_last());
    if i == tokens.len() - 1 {
        assert(whole[prefix.len() as int] == Action::BindShare { kind: k });
    } else {
        assert(tokens.drop_last()[i] == tokens[i]);
        lemma_share_actions_complete(tokens.drop_last(), i);
        let j = choose|j: int|
            0 <= j < prefix.len() && prefix[j] == Action::BindShare { kind: k };
        assert(whole[j] == Action::BindShare { kind: k });
    }
}

/// For every share token of a request that names a recognized kind, the
/// plan binds that share; and whatever the tokens are — recognized or not —
/// the plan still ends in the exec step, so unknown tokens never abort the
/// build.
pub proof fn lemma_recognized_shares_bound(
    tokens: Seq<Seq<char>>,
    host_id: u32,
    last_cap: u32,
    i: int,
)
    requires
        0 <= i < tokens.len(),
        parse_share_spec(tokens[i]) is Some,
    ensures
        plan_spec(tokens, host_id, last_cap).contains(
            Action::BindShare { kind: parse_share_spec(tokens[i])->Some_0 },
        ),
        plan_spec(tokens, host_id, last_cap).last() == Action::ExecTarget,
{
    let k = parse_share_spec(tokens[i])->Some_0;
    let p = plan_spec(tokens, host_id, last_cap);
    let sh = share_actions_spec(tokens);
    lemma_share_actions_complete(tokens, i);
    let j = choose|j: int| 0 <= j < sh.len() && sh[j] == Action::BindShare { kind: k };
    assert(p[6 + j] == Action::BindShare { kind: k });
    lemma_plan_ends_with_exec(tokens, host_id, last_cap);
}

/// Every bind in the share section comes from some token of the request
/// that names that recognized share: unknown tokens never cause a bind.
pub proof fn lemma_share_actions_sound(tokens: Seq<Seq<char>>, j: int)
    requires
        0 <= j < share_actions_spec(tokens).len(),
    ensures
        exists|i: int|
            0 <= i < tokens.len() && parse_share_spec(tokens[i]) == Some(
                share_actions_spec(tokens)[j]->BindShare_kind,
            ),
    decreases tokens.len(),
{
    lemma_share_actions_only_binds(tokens, j);
    let prefix = share_actions_spec(tokens.drop_last());
    if j < prefix.len() {
        lemma_share_actions_sound(tokens.drop_last(), j);
        let i = choose|i: int|
            0 <= i < tokens.drop_last().len() && parse_share_spec(tokens.drop_last()[i]) == Some(
                prefix[j]->BindShare_kind,
            );
        assert(tokens[i] == tokens.drop_last()[i]);
    } else {
        assert(parse_share_spec(tokens.last()) == Some(
            share_actions_spec(tokens)[j]->BindShare_kind,
        ));
        assert(tokens[tokens.len() - 1] == tokens.last());
    }
}

/// The root switch happens exactly once and in order — enter the new
/// root, pivot, detach the old root, seal `/usr` — strictly after every
/// mount step, and every privilege-reduction step (capability drops,
/// no-new-privileges, filter load) comes only after the whole switch.
pub proof fn lemma_root_switch_ordered(tokens: Seq<Seq<char>>, host_id: u32, last_cap: u32)
    ensures
        ({
            let p = plan_spec(tokens, host_id, last_cap);
            let sh = share_actions_spec(tokens).len() as int;
            &&& p.len() == 13 + sh + (last_cap + 1)
            &&& p[6 + sh] == Action::ChangeDirToNewRoot
            &&& p[7 + sh] == Action::PivotToOldRoot
            &&& p[8 + sh] == Action::DetachOldRoot
            &&& p[9 + sh] == Action::RemountUsrReadOnly
            &&& forall|i: int| 0 <= i < p.len() && p[i] is PivotToOldRoot ==> i == 7 + sh
            &&& forall|i: int| 0 <= i < p.len() && p[i] is DetachOldRoot ==> i == 8 + sh
            &&& forall|i: int|
                0 <= i < p.len() && (p[i] is MountProc || p[i] is BindShare) ==> i < 6 + sh
            &&& forall|i: int|
                0 <= i < p.len() && (p[i] is DropBoundingCap || p[i] is SetNoNewPrivs
                    || p[i] is LoadFilter) ==> i > 9 + sh
        }),
{
    let p = plan_spec(tokens, host_id, last_cap);
    let pro = prologue_spec(host_id);
    let sh = share_actions_spec(tokens);
    let rs = root_switch_spec();
    let ca = cap_actions_spec(last_cap);
    assert(p.len() == 13 + sh.len() + (last_cap + 1));
    assert forall|i: int| 0 <= i < p.len() implies ((p[i] is PivotToOldRoot ==> i == 7 + sh.len())
        && (p[i] is DetachOldRoot ==> i == 8 + sh.len()) && ((p[i] is MountProc
        || p[i] is BindShare) ==> i < 6 + sh.len()) && ((p[i] is DropBoundingCap
        || p[i] is SetNoNewPrivs || p[i] is LoadFilter) ==> i > 9 + sh.len())) by {
        if i < 6 {
            assert(p[i] == pro[i]);
        } else if i < 6 + sh.len() {
            assert(p[i] == sh[i - 6]);
            lemma_share_actions_only_binds(tokens, i - 6);
        } else if i < 10 + sh.len() {
            assert(p[i] == rs[i - 6 - sh.len()]);
        } else if i < 10 + sh.len() + (last_cap + 1) {
            assert(p[i] == ca[i - 10 - sh.len()]);
        } else {
            assert(p[i] == epilogue_spec()[i - 10 - sh.len() - (last_cap + 1)]);
        }
    }
    assert(p[(6 + sh.len()) as int] == Action::ChangeDirToNewRoot);
    assert(p[(7 + sh.len()) as int] == Action::PivotToOldRoot);
    assert(p[(8 + sh.len()) as int] == Action::DetachOldRoot);
    assert(p[(9 + sh.len()) as int] == Action::RemountUsrReadOnly);
}

/// The capability numbers a step sequence drops, in order.
pub open spec fn cap_drops_of(p: Seq<Action>) -> Seq<u32>
    decreases p.len(),
{
    if p.len() == 0 {
        Seq::empty()
    } else {
        cap_drops_of(p.drop_last()) + (match p.last() {
            Action::DropBoundingCap { cap } => seq![cap],
            _ => Seq::<u32>::empty(),
        })
    }
}

proof fn lemma_cap_drops_of_add(a: Seq<Action>, b: Seq<Action>)
    ensures
        cap_drops_of(a + b) =~= cap_drops_of(a) + cap_drops_of(b),
    decreases b.len(),
{
    if b.len() == 0 {
        assert(a + b =~= a);
    } else {
        lemma_cap_drops_of_add(a, b.drop_last());
        assert((a + b).drop_last() =~= a + b.drop_last());
        assert((a + b).last() == b.last());
    }
}

proof fn lemma_cap_drops_none(s: Seq<Action>)
    requires
        forall|j: int| 0 <= j < s.len() ==> !((#[trigger] s[j]) is DropBoundingCap),
    ensures
        cap_drops_of(s) =~= Seq::<u32>::empty(),
    decreases s.len(),
{
    if s.len() > 0 {
        lemma_cap_drops_none(s.drop_last());
    }
}

proof fn lemma_cap_drops_all(s: Seq<Action>)
    requires
        forall|j: int| 0 <= j < s.len() ==> (#[trigger] s[j]) is DropBoundingCap,
    ensures
        cap_drops_of(s) =~= Seq::new(s.len(), |i: int| s[i]->DropBoundingCap_cap),
    decreases s.len(),
{
    if s.len() > 0 {
        lemma_cap_drops_all(s.drop_last());
        assert(cap_drops_of(s) =~= Seq::new(
            s.len(),
            |i: int| s[i]->DropBoundingCap_cap,
        ));
    }
}

/// Executing a request's plan drops exactly the full capability list of
/// the running kernel, so the capability bounding set ends empty —
/// independent of which capabilities the parent held, as long as each was
/// a number the kernel defines.
pub proof fn lemma_plan_empties_bounding_set(
    tokens: Seq<Seq<char>>,
    host_id: u32,
    last_cap: u32,
    initial: Set<u32>,
)
    requires
        forall|c: u32| initial.contains(c) ==> c <= last_cap,
        last_cap < u32::MAX,
    ensures
        cap_drops_of(plan_spec(tokens, host_id, last_cap)) == cap_drop_list_spec(last_cap),
        bounding_set_after(initial, cap_drops_of(plan_spec(tokens, host_id, last_cap)))
            =~= Set::<u32>::empty(),
{
    let p = plan_spec(tokens, host_id, last_cap);
    let pro = prologue_spec(host_id);
    let sh = share_actions_spec(tokens);
    let rs = root_switch_spec();
    let ca = cap_actions_spec(last_cap);
    let ep = epilogue_spec();
    lemma_cap_drops_of_add(pro + sh + rs + ca, ep);
    lemma_cap_drops_of_add(pro + sh + rs, ca);
    lemma_cap_drops_of_add(pro + sh, rs);
    lemma_cap_drops_of_add(pro, sh);
    lemma_cap_drops_none(pro);
    assert forall|j: int| 0 <= j < sh.len() implies !((#[trigger] sh[j]) is DropBoundingCap) by {
        lemma_share_actions_only_binds(tokens, j);
    }
    lemma_cap_drops_none(sh);
    lemma_cap_drops_none(rs);
    lemma_cap_drops_none(ep);
    lemma_cap_drops_all(ca);
    assert(Seq::new(ca.len(), |i: int| ca[i]->DropBoundingCap_cap) =~= cap_drop_list_spec(
        last_cap,
    ));
    assert(cap_drops_of(p) =~= cap_drop_list_spec(last_cap));
    lemma_bounding_set_emptied(initial, last_cap);
}

/// Every plan ends with the terminal exec step, whatever the tokens.
pub proof fn lemma_plan_ends_with_exec(tokens: Seq<Seq<char>>, host_id: u32, last_cap: u32)
    ensures
        plan_spec(tokens, host_id, last_cap).len() > 0,
        plan_spec(tokens, host_id, last_cap).last() == Action::ExecTarget,
{
    let p = plan_spec(tokens, host_id, last_cap);
    assert(p[p.len() - 1] == Action::ExecTarget);
}

/// The no-new-privileges step stands strictly before the filter load in
/// every plan the builder produces — each occurs exactly once, the flag at
/// the third-to-last position, the load at the second-to-last.
pub proof fn lemma_no_new_privs_precedes_filter(
    tokens: Seq<Seq<char>>,
    host_id: u32,
    last_cap: u32,
)
    ensures
        ({
            let p = plan_spec(tokens, host_id, last_cap);
            let n = p.len();
            &&& n >= 3
            &&& p[n - 3] == Action::SetNoNewPrivs
            &&& p[n - 2] == Action::LoadFilter
            &&& forall|i: int| 0 <= i < n && p[i] is LoadFilter ==> i == n - 2
            &&& forall|j: int| 0 <= j < n && p[j] is SetNoNewPrivs ==> j == n - 3
        }),
{
    let p = plan_spec(tokens, host_id, last_cap);
    let n = p.len();
    let pro = prologue_spec(host_id);
    let sh = share_actions_spec(tokens);
    let rs = root_switch_spec();
    let ca = cap_actions_spec(last_cap);
    assert(n == 13 + sh.len() + (last_cap + 1));
    assert forall|i: int| 0 <= i < n && (p[i] is LoadFilter || p[i] is SetNoNewPrivs) implies (p[i]
        is LoadFilter ==> i == n - 2) && (p[i] is SetNoNewPrivs ==> i == n - 3) by {
        if i < 6 {
            assert(p[i] == pro[i]);
        } else if i < 6 + sh.len() {
            assert(p[i] == sh[i - 6]);
            lemma_share_actions_only_binds(tokens, i - 6);
        } else if i < 10 + sh.len() {
            assert(p[i] == rs[i - 6 - sh.len()]);
        } else if i < 10 + sh.len() + (last_cap + 1) {
            assert(p[i] == ca[i - 10 - sh.len()]);
        } else {
            assert(p[i] == epilogue_spec()[i - 10 - sh.len() - (last_cap + 1)]);
        }
    }
    assert(p[n - 3] == Action::SetNoNewPrivs);
    assert(p[n - 2] == Action::LoadFilter);
}

} // verus!
