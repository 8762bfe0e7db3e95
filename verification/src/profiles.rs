//! Profile linking: where a profile lives under the isolator root and
//! where the link from one profile into another is placed.

use vstd::prelude::*;
use crate::paths::join_path;
use crate::paths::join_path_spec;

verus! {

/// The three paths a profile link touches.
pub struct ProfileLink {
    pub source_dir: String,
    pub target_dir: String,
    pub link_path: String,
}

/// Computes the directories of the two profiles and the path, inside the
/// target profile, at which the link to the source profile is created.
pub fn profile_link(isolator_dir: &str, source: &str, target: &str) -> (r: ProfileLink)
    ensures
        r.source_dir@ == join_path_spec(isolator_dir@, source@),
        r.target_dir@ == join_path_spec(isolator_dir@, target@),
        r.link_path@ == join_path_spec(join_path_spec(isolator_dir@, target@), "linked"@),
{
    let source_dir = join_path(isolator_dir, source);
    let target_dir = join_path(isolator_dir, target);
    let link_path = join_path(target_dir.as_str(), "linked");
    ProfileLink { source_dir, target_dir, link_path }
}

} // verus!
