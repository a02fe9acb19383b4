use vstd::prelude::*;

use crate::account::AccountId;
use crate::table::Table;

verus! {

/// Storage of the rewards-data contract: a running total, what each user was
/// rewarded, and the factor that decides future rewards.
#[allow(non_snake_case)]
pub struct ILOCKrewardsData {
    rewardedTotal: u128,
    rewardedUser: Table<AccountId, u128>,
    rewardFactor: u32,
}

/// What a lookup of `user` answers on the rewards map `m`: the stored amount, or zero.
pub open spec fn user_reward(m: Map<AccountId, u128>, user: AccountId) -> u128 {
    if m.contains_key(user) {
        m[user]
    } else {
        0
    }
}

impl ILOCKrewardsData {
    /// The rewarded total as stored.
    pub closed spec fn total_spec(&self) -> u128 {
        self.rewardedTotal
    }

    /// The stored reward of each user that has an entry.
    pub closed spec fn users(&self) -> Map<AccountId, u128> {
        self.rewardedUser@
    }

    /// The stored reward factor.
    pub closed spec fn factor_spec(&self) -> u32 {
        self.rewardFactor
    }

    /// Creates the storage: the total and the factor are zero, and the caller
    /// has an entry of zero.
    pub fn new_ilockrewardsdata(caller: AccountId) -> (c: ILOCKrewardsData)
        ensures
            c.total_spec() == 0,
            c.factor_spec() == 0,
            c.users() == Map::<AccountId, u128>::empty().insert(caller, 0u128),
    {
        let mut users: Table<AccountId, u128> = Table::new();
        users.insert(caller, 0);
        ILOCKrewardsData { rewardedTotal: 0, rewardedUser: users, rewardFactor: 0 }
    }

    /// The rewarded total.
    #[allow(non_snake_case)]
    pub fn rewardedTotal(&self) -> (r: u128)
        ensures
            r == self.total_spec(),
    {
        self.rewardedTotal
    }

    /// What `user` was rewarded; zero for a user without an entry.
    #[allow(non_snake_case)]
    pub fn rewardedUser(&self, user: AccountId) -> (r: u128)
        ensures
            r == user_reward(self.users(), user),
    {
        match self.rewardedUser.get(&user) {
            Some(value) => value,
            None => 0,
        }
    }

    /// The reward factor.
    #[allow(non_snake_case)]
    pub fn rewardFactor(&self) -> (r: u32)
        ensures
            r == self.factor_spec(),
    {
        self.rewardFactor
    }

    /// Records `value` as the reward of `user`, replacing what was there, and
    /// answers `true`; nothing else changes.
    #[allow(non_snake_case)]
    pub fn set_rewardedUser(&mut self, user: AccountId, value: u128) -> (r: bool)
        ensures
            r,
            final(self).users() == old(self).users().insert(user, value),
            final(self).total_spec() == old(self).total_spec(),
            final(self).factor_spec() == old(self).factor_spec(),
    {
        self.rewardedUser.insert(user, value);
        true
    }
}

/// A lookup of a user answers what was last set for that user, and setting one
/// user leaves what every other user is answered unchanged.
pub proof fn law_rewarded_user_read_after_set(
    m: Map<AccountId, u128>,
    user: AccountId,
    value: u128,
    other: AccountId,
)
    ensures
        user_reward(m.insert(user, value), user) == value,
        other != user ==> user_reward(m.insert(user, value), other) == user_reward(m, other),
{
}

} // verus!
