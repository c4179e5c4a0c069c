use vstd::prelude::*;

use crate::state::Identity;

verus! {

/// Minimum reward duration of a production deployment: one day, in seconds.
pub const MIN_DURATION: u64 = 86400;

/// The allow-list and limits that pool creation is checked against, given to
/// the library by the deployment rather than compiled in.
#[derive(Clone, Copy, Debug)]
pub struct Policy {
    /// The only identity that may create pools; `None` admits any.
    pub admin: Option<Identity>,
    /// The only mint that may be staked; `None` admits any.
    pub staking_mint: Option<Identity>,
    /// The shortest reward duration accepted, in seconds.
    pub min_duration: u64,
}

/// Whether an allow-list entry admits `key`.
pub open spec fn admits(allowed: Option<Identity>, key: Identity) -> bool {
    match allowed {
        Some(a) => a.bytes@ == key.bytes@,
        None => true,
    }
}

impl Policy {
    /// A policy that admits one admin and one staking mint, with the
    /// one-day minimum duration.
    pub fn restricted(admin: Identity, staking_mint: Identity) -> (r: Policy)
        ensures
            r.admin == Some(admin),
            r.staking_mint == Some(staking_mint),
            r.min_duration == MIN_DURATION,
    {
        Policy { admin: Some(admin), staking_mint: Some(staking_mint), min_duration: MIN_DURATION }
    }

    /// A policy that admits every admin and mint and any positive duration.
    pub fn permissive() -> (r: Policy)
        ensures
            r.admin is None,
            r.staking_mint is None,
            r.min_duration == 1,
    {
        Policy { admin: None, staking_mint: None, min_duration: 1 }
    }
}

fn admitted(allowed: &Option<Identity>, key: &Identity) -> (r: bool)
    ensures
        r == admits(*allowed, *key),
{
    match allowed {
        Some(a) => a == key,
        None => true,
    }
}

/// Whether `pubkey` may create a pool under `policy`.
pub fn validate_admin_address(policy: &Policy, pubkey: &Identity) -> (r: bool)
    ensures
        r == admits(policy.admin, *pubkey),
{
    admitted(&policy.admin, pubkey)
}

/// Whether `pubkey` may be the staking mint of a pool under `policy`.
pub fn validate_staking_mint(policy: &Policy, pubkey: &Identity) -> (r: bool)
    ensures
        r == admits(policy.staking_mint, *pubkey),
{
    admitted(&policy.staking_mint, pubkey)
}

} // verus!
