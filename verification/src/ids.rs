//! Public-facing ids, as request handlers and API responses carry them.

use vstd::prelude::*;

verus! {

#[derive(Debug, Copy, Clone, PartialEq, Eq, Structural)]
pub struct ModId(pub u64);

#[derive(Debug, Copy, Clone, PartialEq, Eq, Structural)]
pub struct VersionId(pub u64);

#[derive(Debug, Copy, Clone, PartialEq, Eq, Structural)]
pub struct TeamId(pub u64);

} // verus!
