//! The caller-facing request: an application name, the share tokens the
//! caller asks for, and the sandbox directory the build runs in.

use vstd::prelude::*;
use crate::paths::join_path;
use crate::paths::join_path_spec;
use crate::plan::Action;
use crate::plan::build_plan;
use crate::plan::plan_spec;

verus! {

/// One sandbox-construction request, owned by the caller.
pub struct SandboxRequest {
    pub app_name: String,
    pub shares: Vec<String>,
    pub sandbox_dir: String,
}

impl SandboxRequest {
    /// A request whose sandbox directory is the per-application directory
    /// under the isolator root.
    pub fn new(app_name: String, shares: Vec<String>, isolator_dir: &str) -> (r: SandboxRequest)
        ensures
            r.app_name == app_name,
            r.shares == shares,
            r.sandbox_dir@ == join_path_spec(isolator_dir@, app_name@),
    {
        let sandbox_dir = join_path(isolator_dir, app_name.as_str());
        SandboxRequest { app_name, shares, sandbox_dir }
    }

    /// The build plan for this request. `host_id` is the invoking user's
    /// id, `last_cap` the kernel-reported highest capability number.
    pub fn plan(&self, host_id: u32, last_cap: u32) -> (p: Vec<Action>)
        requires
            last_cap < u32::MAX,
        ensures
            p@ == plan_spec(self.shares.deep_view(), host_id, last_cap),
    {
        build_plan(&self.shares, host_id, last_cap)
    }
}

} // verus!
