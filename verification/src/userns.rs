//! The user-namespace identity mapping: a single entry making the invoking
//! user appear as id 0 inside the new namespace, with group switching
//! denied.

use vstd::prelude::*;
use vstd::string::StringExecFns;
use crate::decimal::decimal_chars;
use crate::decimal::decimal_string;

verus! {

/// One id-mapping entry for the new user namespace.
#[derive(Clone, Copy, Debug, PartialEq, Eq, Structural)]
pub struct UserNamespaceMapping {
    pub container_id: u32,
    pub host_id: u32,
    pub count: u32,
}

impl UserNamespaceMapping {
    /// The only mapping shape this system writes: exactly one entry,
    /// container id 0.
    pub open spec fn wf(self) -> bool {
        self.container_id == 0 && self.count == 1
    }

    /// The identity mapping for the invoking user's host id. The same
    /// mapping serves `uid_map` and `gid_map`.
    pub fn identity(host_id: u32) -> (r: UserNamespaceMapping)
        ensures
            r.wf(),
            r.host_id == host_id,
    {
        UserNamespaceMapping { container_id: 0, host_id, count: 1 }
    }

    /// The line written to `uid_map` or `gid_map`.
    pub fn map_line(&self) -> (r: String)
        requires
            self.wf(),
        ensures
            r@ == id_map_line_spec(self.host_id as nat),
    {
        "0 ".to_owned().concat(decimal_string(self.host_id).as_str()).concat(" 1\n")
    }
}

/// The literal mapping line `0 <host id> 1`.
pub open spec fn id_map_line_spec(host_id: nat) -> Seq<char> {
    "0 "@ + decimal_chars(host_id) + " 1\n"@
}

/// The value written to `setgroups` to deny group switching.
pub open spec fn setgroups_line_spec() -> Seq<char> {
    "deny\n"@
}

/// The line written to `setgroups` before the gid mapping.
pub fn setgroups_line() -> (r: String)
    ensures
        r@ == setgroups_line_spec(),
{
    "deny\n".to_owned()
}

} // verus!
