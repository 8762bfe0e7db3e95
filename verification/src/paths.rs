//! Path joining for the per-application directories under the isolator
//! root.

use vstd::prelude::*;
use vstd::string::StringExecFns;

verus! {

/// `base` with `name` appended below it.
pub open spec fn join_path_spec(base: Seq<char>, name: Seq<char>) -> Seq<char> {
    base + "/"@ + name
}

/// Joins a directory and a child name with a single separator.
pub fn join_path(base: &str, name: &str) -> (r: String)
    ensures
        r@ == join_path_spec(base@, name@),
{
    base.to_owned().concat("/").concat(name)
}

} // verus!
