//! The closed set of host resources a sandbox may be granted, and the
//! parsing of the textual share tokens a caller hands in.
//!
//! An unrecognized token is not an error: it parses to `None` and the
//! build simply does not grant it.

use vstd::prelude::*;

verus! {

/// A host resource that can be bound into the sandbox.
#[derive(Clone, Copy, Debug, PartialEq, Eq, Structural)]
pub enum ShareKind {
    Home,
    Wayland,
    X11,
    Sound,
    Tools,
}

/// Which kind, if any, a share token names.
pub open spec fn parse_share_spec(token: Seq<char>) -> Option<ShareKind> {
    if token == "home"@ {
        Some(ShareKind::Home)
    } else if token == "wayland"@ {
        Some(ShareKind::Wayland)
    } else if token == "x11"@ {
        Some(ShareKind::X11)
    } else if token == "sound"@ {
        Some(ShareKind::Sound)
    } else if token == "tools"@ {
        Some(ShareKind::Tools)
    } else {
        None
    }
}

/// Recognizes a share token; every token outside the closed set gives `None`.
pub fn parse_share(token: &str) -> (r: Option<ShareKind>)
    ensures
        r == parse_share_spec(token@),
{
    let t = token.to_owned();
    if t == "home".to_owned() {
        Some(ShareKind::Home)
    } else if t == "wayland".to_owned() {
        Some(ShareKind::Wayland)
    } else if t == "x11".to_owned() {
        Some(ShareKind::X11)
    } else if t == "sound".to_owned() {
        Some(ShareKind::Sound)
    } else if t == "tools".to_owned() {
        Some(ShareKind::Tools)
    } else {
        None
    }
}

/// The environment variable a share hands to the eventual exec, if any.
pub open spec fn share_env_spec(kind: ShareKind) -> Option<(Seq<char>, Seq<char>)> {
    match kind {
        ShareKind::Wayland => Some(("WAYLAND_DISPLAY"@, "wayland-0"@)),
        ShareKind::X11 => Some(("DISPLAY"@, ":0"@)),
        _ => None,
    }
}

/// The (name, value) pair a share contributes to the target's environment.
pub fn share_env_var(kind: ShareKind) -> (r: Option<(String, String)>)
    ensures
        r is Some <==> share_env_spec(kind) is Some,
        r matches Some(p) ==> share_env_spec(kind) == Some((p.0@, p.1@)),
{
    match kind {
        ShareKind::Wayland => Some(("WAYLAND_DISPLAY".to_owned(), "wayland-0".to_owned())),
        ShareKind::X11 => Some(("DISPLAY".to_owned(), ":0".to_owned())),
        _ => None,
    }
}

} // verus!
