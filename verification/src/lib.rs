//! Verified planning core of a user-space application isolator.
//!
//! The library decides everything the sandbox build must do — which
//! namespaces to unshare, the identity-mapping lines, which host resources
//! to bind where, the order of the kernel operations, the capability drops
//! and the syscall filter — as plain verified data. A thin unverified
//! front end interprets the resulting plan with the actual kernel calls.

pub mod caps;
pub mod decimal;
pub mod mounts;
pub mod outcome;
pub mod paths;
pub mod plan;
pub mod profiles;
pub mod request;
pub mod seccomp;
pub mod share;
pub mod userns;
