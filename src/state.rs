use vstd::prelude::*;

verus! {

/// Fixed-point multiplier of every reward-per-token value.
///
/// A reward rate of one unit per second over a stake of up to a billion units
/// still advances the cumulative value by at least one per second; larger
/// values would shrink the range of rates and durations that fit in 64 bits.
pub const SCALE: u64 = 1_000_000_000;

/// A 32-byte account or mint identity.
#[derive(Clone, Copy, Debug)]
pub struct Identity {
    pub bytes: [u8; 32],
}

impl PartialEq for Identity {
    fn eq(&self, o: &Identity) -> (r: bool)
        ensures
            r == (self.bytes@ == o.bytes@),
    {
        let mut i: usize = 0;
        while i < 32
            invariant
                0 <= i <= 32,
                self.bytes@.len() == 32,
                o.bytes@.len() == 32,
                forall|j: int| 0 <= j < i ==> self.bytes@[j] == o.bytes@[j],
            decreases 32 - i,
        {
            if self.bytes[i] != o.bytes[i] {
                return false;
            }
            i += 1;
        }
        assert(self.bytes@ =~= o.bytes@);
        true
    }
}

impl vstd::std_specs::cmp::PartialEqSpecImpl for Identity {
    open spec fn obeys_eq_spec() -> bool {
        true
    }

    open spec fn eq_spec(&self, o: &Identity) -> bool {
        self.bytes@ == o.bytes@
    }
}

impl Eq for Identity {
}

/// Reward-rate and cumulative accrual state of one staking pool.
#[derive(Clone, Copy, Debug, PartialEq, Eq)]
pub struct Pool {
    /// Nonce of the pool's derived signing authority.
    pub nonce: u8,
    pub staking_mint: Identity,
    pub staking_vault: Identity,
    pub reward_mint: Identity,
    pub reward_vault: Identity,
    /// The sole authority that may activate the pool.
    pub admin: Identity,
    /// Reward units emitted per second.
    pub reward_rate: u64,
    /// Active lifetime in seconds, fixed at creation.
    pub reward_duration: u64,
    /// End of accrual; zero until activation.
    pub reward_end_timestamp: u64,
    /// Last instant up to which `reward_per_token_stored` is integrated.
    pub last_update_time: u64,
    /// Cumulative reward per staked unit, scaled by `SCALE`.
    pub reward_per_token_stored: u64,
}

impl Pool {
    /// Accrual is never integrated past the scheduled end.
    pub open spec fn well_formed(self) -> bool {
        self.last_update_time <= self.reward_end_timestamp
    }
}

/// Stake and settlement checkpoint of one depositor in one pool.
#[derive(Clone, Copy, Debug, PartialEq, Eq)]
pub struct User {
    /// The owning pool.
    pub pool: Identity,
    /// The sole authority over this record.
    pub owner: Identity,
    /// Amount currently staked.
    pub balance_staked: u64,
    /// The pool's cumulative value at this user's last settlement.
    pub reward_per_token_complete: u64,
    /// Reward owed to this user and not yet paid out.
    pub reward_per_token_pending: u64,
    /// Nonce of the record's derived address.
    pub nonce: u8,
}

} // verus!
