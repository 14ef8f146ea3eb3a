//! Row ids as the primary store keys them (signed, as the store's integer
//! columns are).

use vstd::prelude::*;

verus! {

#[derive(Debug, Copy, Clone, PartialEq, Eq, Structural)]
pub struct ModId(pub i64);

#[derive(Debug, Copy, Clone, PartialEq, Eq, Structural)]
pub struct VersionId(pub i64);

#[derive(Debug, Copy, Clone, PartialEq, Eq, Structural)]
pub struct TeamId(pub i64);

#[derive(Debug, Copy, Clone, PartialEq, Eq, Structural)]
pub struct UserId(pub i64);

#[derive(Debug, Copy, Clone, PartialEq, Eq, Structural)]
pub struct StatusId(pub i64);

#[derive(Debug, Copy, Clone, PartialEq, Eq, Structural)]
pub struct CategoryId(pub i64);

#[derive(Debug, Copy, Clone, PartialEq, Eq, Structural)]
pub struct DonationPlatformId(pub i64);

} // verus!
