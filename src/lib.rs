//! Mutual exclusion for blocks of code: a backend-agnostic lock capability,
//! a synchronization point that owns one backend, and a registry of named
//! points that lets independent call sites share one lock.
use vstd::prelude::*;

pub mod anonymous;
pub mod beh;
pub mod point;
pub mod sync_point;

verus! {

/// The backend that the anonymous synchronized blocks use.
pub const CURRENT_DEF_BEH: &'static str = "std";

/// Whether points carry a name that can be read back (`SyncPointName`).
pub const GET_POINT_NAME: bool = true;

/// Whether named points, shared by name across call sites, are available
/// (`point::SyncPoints`).
pub const NAMED_POINTS: bool = true;

/// Whether the cooperative-task backend over `tokio`'s mutex is available.
pub const ASYNC_BACKEND: bool = true;

} // verus!
