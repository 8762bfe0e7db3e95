//! The syscall filter: default-allow with an explicit deny list, each
//! denied call returning a permission error to the caller rather than
//! terminating the process.
//!
//! Syscall numbers and the errno value are architecture facts the caller
//! supplies; the policy logic itself is verified for every choice of them.

use vstd::prelude::*;

verus! {

/// What the filter does with one syscall.
#[derive(Clone, Copy, Debug, PartialEq, Eq, Structural)]
pub enum FilterDecision {
    Allow,
    DenyErrno { errno_value: u32 },
}

/// A default-allow filter with a deny list; every denied syscall returns
/// the same errno.
pub struct SeccompPolicy {
    pub denied: Vec<u64>,
    pub deny_errno: u32,
}

/// What a policy decides for one syscall number.
pub open spec fn decision_spec(denied: Seq<u64>, deny_errno: u32, syscall_nr: u64) -> FilterDecision {
    if denied.contains(syscall_nr) {
        FilterDecision::DenyErrno { errno_value: deny_errno }
    } else {
        FilterDecision::Allow
    }
}

impl SeccompPolicy {
    /// The policy this system loads: deny exactly `ptrace`, `mount` and
    /// `kexec_load` (their numbers supplied by the caller), each returning
    /// the permission-denied errno; allow everything else.
    pub fn standard(ptrace_nr: u64, mount_nr: u64, kexec_load_nr: u64, eperm: u32) -> (p:
        SeccompPolicy)
        ensures
            p.denied@ == seq![ptrace_nr, mount_nr, kexec_load_nr],
            p.deny_errno == eperm,
    {
        let mut denied: Vec<u64> = Vec::new();
        denied.push(ptrace_nr);
        denied.push(mount_nr);
        denied.push(kexec_load_nr);
        proof {
            assert(denied@ =~= seq![ptrace_nr, mount_nr, kexec_load_nr]);
        }
        SeccompPolicy { denied, deny_errno: eperm }
    }

    /// Evaluates the policy on one syscall number.
    pub fn decide(&self, syscall_nr: u64) -> (d: FilterDecision)
        ensures
            d == decision_spec(self.denied@, self.deny_errno, syscall_nr),
    {
        let mut i: usize = 0;
        while i < self.denied.len()
            invariant
                i <= self.denied.len(),
                forall|j: int| 0 <= j < i ==> self.denied@[j] != syscall_nr,
            decreases self.denied.len() - i,
        {
            if self.denied[i] == syscall_nr {
                return FilterDecision::DenyErrno { errno_value: self.deny_errno };
            }
            i = i + 1;
        }
        FilterDecision::Allow
    }
}

/// The standard policy denies exactly the three listed syscalls, with the
/// permission-denied errno, and allows every other syscall number.
pub proof fn lemma_standard_policy_decisions(
    ptrace_nr: u64,
    mount_nr: u64,
    kexec_load_nr: u64,
    eperm: u32,
    syscall_nr: u64,
)
    ensures
        decision_spec(seq![ptrace_nr, mount_nr, kexec_load_nr], eperm, syscall_nr) == (
        if syscall_nr == ptrace_nr || syscall_nr == mount_nr || syscall_nr == kexec_load_nr {
            FilterDecision::DenyErrno { errno_value: eperm }
        } else {
            FilterDecision::Allow
        }),
{
    let denied = seq![ptrace_nr, mount_nr, kexec_load_nr];
    if syscall_nr == ptrace_nr {
        assert(denied[0] == syscall_nr);
    } else if syscall_nr == mount_nr {
        assert(denied[1] == syscall_nr);
    } else if syscall_nr == kexec_load_nr {
        assert(denied[2] == syscall_nr);
    }
}

} // verus!
