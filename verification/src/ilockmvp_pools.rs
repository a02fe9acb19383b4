//! The ILOCK token with circulation and proceeds kept as two more entries of its pool balance
//! array: a PSP22 token with vesting pools, stakeholder payouts that write balances directly,
//! capped Interlocker rewards, ownership handover with the owner's tokens, and application
//! ports and sockets.
use vstd::prelude::*;

use crate::account::{is_zero_address, AccountId, CodeHash};
use crate::errors::{not_owner_other_error, other_result, other_to_psp22, OtherError, OtherErrorView};
use crate::events::{
    approval_event, make_approval_event, make_transfer_event, transfer_event, Event, Reward,
    Transfer,
};
use crate::ports::{is_default_port, is_default_socket, AppData, Port, Socket};
use crate::text::{decimal, push_decimal, str_debug, str_debug_text};
use crate::psp22::{
    amount_or_zero, approve_outcome, spent_error, ascii_bytes, ascii_to_vec, moved, not_owner_error, paid_out,
    psp22_result, transfer_outcome, OwnableError, PSP22Error, PSP22ErrorView, Psp22Data,
};
use crate::storage::{
    paid_on_time, payout_rule, plan_payout, sum_first, transfer_pool_rule, MetadataData, OwnableData, PoolData, RewardData,
    StakeholderData, VestData, ONE_MONTH,
};

verus! {

broadcast use vstd::array::group_array_axioms;

/// 32B account id.
pub const ID_LENGTH: usize = 32;

/// Number of token pools, proceeds and circulation included.
pub const POOL_COUNT: usize = 13;

/// 10^9 whole tokens.
pub const TOKEN_CAP: u128 = 1_000_000_000;

/// 10^18: the base units of one whole token.
pub const DECIMALS_POWER10: u128 = 1_000_000_000_000_000_000;

/// 10^27 base units: everything minted at creation.
pub const SUPPLY_CAP: u128 = 1_000_000_000_000_000_000_000_000_000;

pub const TOKEN_DECIMALS: u8 = 18;

pub const PRESALE_1: u8 = 0;
pub const PRESALE_2: u8 = 1;
pub const PRESALE_3: u8 = 2;
pub const TEAM: u8 = 3;
pub const OUTLIER: u8 = 4;
pub const ADVISORS: u8 = 5;
pub const FOUNDATION: u8 = 6;
pub const REWARDS: u8 = 7;
pub const PARTNERS: u8 = 8;
pub const COMMUNITY: u8 = 9;
pub const PUBLIC: u8 = 10;
pub const PROCEEDS: u8 = 11;
pub const CIRCULATING: u8 = 12;

/// The token's name.
pub fn token_name_text() -> (s: &'static str)
    ensures
        s@ == "Interlock Network"@,
{
    "Interlock Network"
}

/// The token's symbol.
pub fn token_symbol_text() -> (s: &'static str)
    ensures
        s@ == "ILOCK"@,
{
    "ILOCK"
}

/// The vesting parameters of pool `i`.
pub open spec fn pool_spec(i: int) -> PoolData<'static> {
    if i == 0 {
        PoolData { name: "presale_1", tokens: 48_622_222, vests: 18, cliffs: 1 }
    } else if i == 1 {
        PoolData { name: "presale_2", tokens: 33_333_333, vests: 15, cliffs: 1 }
    } else if i == 2 {
        PoolData { name: "presale_3", tokens: 93_750_000, vests: 12, cliffs: 1 }
    } else if i == 3 {
        PoolData { name: "team+founders", tokens: 200_000_000, vests: 36, cliffs: 6 }
    } else if i == 4 {
        PoolData { name: "outlier_ventures", tokens: 40_000_000, vests: 24, cliffs: 1 }
    } else if i == 5 {
        PoolData { name: "advisors", tokens: 25_000_000, vests: 24, cliffs: 1 }
    } else if i == 6 {
        PoolData { name: "foundation", tokens: 169_264_142, vests: 84, cliffs: 1 }
    } else if i == 7 {
        PoolData { name: "rewards", tokens: 300_000_000, vests: 48, cliffs: 0 }
    } else if i == 8 {
        PoolData { name: "partners", tokens: 37_000_000, vests: 1, cliffs: 0 }
    } else if i == 9 {
        PoolData { name: "community_sale", tokens: 3_030_303, vests: 1, cliffs: 0 }
    } else if i == 10 {
        PoolData { name: "public_sale", tokens: 50_000_000, vests: 1, cliffs: 0 }
    } else if i == 11 {
        PoolData { name: "proceeds", tokens: 0, vests: 0, cliffs: 0 }
    } else {
        PoolData { name: "circulating", tokens: 0, vests: 0, cliffs: 0 }
    }
}

/// The allocations of the first `n` pools, in whole tokens.
pub open spec fn allocated(n: nat) -> int
    decreases n,
{
    if n == 0 {
        0
    } else {
        allocated((n - 1) as nat) + pool_spec(n - 1).tokens
    }
}

/// The pool allocations add up to the token cap, which in base units is the supply cap.
pub proof fn law_allocations_cover_cap()
    ensures
        allocated(POOL_COUNT as nat) == TOKEN_CAP,
        TOKEN_CAP * DECIMALS_POWER10 == SUPPLY_CAP,
{
    reveal_with_fuel(allocated, 14);
}

/// Pool balances set to their allocations add up to the allocations, in base units.
proof fn lemma_balances_allocated(s: Seq<u128>, n: nat)
    requires
        n <= POOL_COUNT,
        forall|i: int| 0 <= i < n ==> s[i] == pool_spec(i).tokens * DECIMALS_POWER10,
    ensures
        sum_first(s, n) == allocated(n) * DECIMALS_POWER10,
    decreases n,
{
    if n > 0 {
        lemma_balances_allocated(s, (n - 1) as nat);
        let a = allocated((n - 1) as nat);
        let t = pool_spec(n - 1).tokens as int;
        let d = DECIMALS_POWER10 as int;
        assert((a + t) * d == a * d + t * d) by (nonlinear_arith);
    }
}

/// The vesting parameters of pool `pool`.
pub fn pool_info(pool: u8) -> (p: PoolData<'static>)
    requires
        pool < POOL_COUNT,
    ensures
        p == pool_spec(pool as int),
        p.tokens <= 300_000_000,
        pool < PROCEEDS ==> 1 <= p.vests,
{
    match pool {
        0 => PoolData { name: "presale_1", tokens: 48_622_222, vests: 18, cliffs: 1 },
        1 => PoolData { name: "presale_2", tokens: 33_333_333, vests: 15, cliffs: 1 },
        2 => PoolData { name: "presale_3", tokens: 93_750_000, vests: 12, cliffs: 1 },
        3 => PoolData { name: "team+founders", tokens: 200_000_000, vests: 36, cliffs: 6 },
        4 => PoolData { name: "outlier_ventures", tokens: 40_000_000, vests: 24, cliffs: 1 },
        5 => PoolData { name: "advisors", tokens: 25_000_000, vests: 24, cliffs: 1 },
        6 => PoolData { name: "foundation", tokens: 169_264_142, vests: 84, cliffs: 1 },
        7 => PoolData { name: "rewards", tokens: 300_000_000, vests: 48, cliffs: 0 },
        8 => PoolData { name: "partners", tokens: 37_000_000, vests: 1, cliffs: 0 },
        9 => PoolData { name: "community_sale", tokens: 3_030_303, vests: 1, cliffs: 0 },
        10 => PoolData { name: "public_sale", tokens: 50_000_000, vests: 1, cliffs: 0 },
        11 => PoolData { name: "proceeds", tokens: 0, vests: 0, cliffs: 0 },
        _ => PoolData { name: "circulating", tokens: 0, vests: 0, cliffs: 0 },
    }
}

/// The ILOCK token contract.
pub struct ILOCKmvp {
    /// PSP22 ledger.
    pub psp22: Psp22Data,
    /// Ownership.
    pub ownable: OwnableData,
    /// Name, symbol, decimals.
    pub metadata: MetadataData,
    /// Rewards info.
    pub reward: RewardData,
    /// Vesting info.
    pub vest: VestData,
    /// Connecting application contract info.
    pub app: AppData,
    /// Token pool balances, proceeds and circulating supply included.
    pub balances: [u128; POOL_COUNT],
    /// Events emitted so far, oldest first.
    pub events: Vec<Event>,
}

impl ILOCKmvp {
    /// The contract's state is consistent: accounts hold no more than the supply, no
    /// stakeholder was paid past its share or ahead of its schedule, and the rewarded total sums
    /// the Interlockers' rewards.
    pub open spec fn wf(&self) -> bool {
        &&& self.psp22.wf()
        &&& self.vest.payouts_within_shares()
        &&& self.reward.totals_agree()
        &&& self.payouts_on_time()
    }

    /// The vesting clock, started at time `t0`, has moved by whole months only: the next payout
    /// lies one month past every month counted so far.
    pub open spec fn on_schedule(&self, t0: int) -> bool {
        self.vest.nextpayout == t0 + (self.vest.monthspassed + 1) * (ONE_MONTH as int)
    }

    /// No stakeholder of a known pool has been paid ahead of its vesting schedule.
    pub open spec fn payouts_on_time(&self) -> bool {
        forall|k: AccountId| #[trigger]
            self.vest.stakeholder@.contains_key(k) && self.vest.stakeholder@[k].pool < POOL_COUNT
                ==> paid_on_time(
                self.vest.stakeholder@[k],
                pool_spec(self.vest.stakeholder@[k].pool as int).vests,
                self.vest.monthspassed,
            )
    }

    /// The owner of the contract.
    pub open spec fn owner_spec(&self) -> AccountId {
        self.ownable.owner
    }

    /// The rewards pool balance.
    pub open spec fn rewards_spec(&self) -> u128 {
        self.balances@[REWARDS as int]
    }

    /// Tokens in circulation.
    pub open spec fn circulating_spec(&self) -> u128 {
        self.balances@[CIRCULATING as int]
    }

    /// The circulating supply is what the accounts other than the owner hold.
    pub open spec fn circulation_matches(&self) -> bool {
        self.circulating_spec() == self.psp22.held() - self.psp22.balance(self.owner_spec())
    }

    /// Collected taxes and fees.
    pub open spec fn proceeds_spec(&self) -> u128 {
        self.balances@[PROCEEDS as int]
    }

    /// What a move of `value` tokens from `from` to `to` answers when the pool balances stand
    /// at `b`, as the new (circulating, rewards pool) on success.
    pub open spec fn transfer_spec_from(
        &self,
        b: [u128; POOL_COUNT],
        from: AccountId,
        to: AccountId,
        value: u128,
    ) -> Result<(u128, u128), PSP22ErrorView> {
        match transfer_outcome(self.psp22, from, to, value) {
            Err(e) => Err(e@),
            Ok(_) => match transfer_pool_rule(
                b@[CIRCULATING as int],
                b@[REWARDS as int],
                self.owner_spec(),
                from,
                to,
                value,
            ) {
                Err(e) => Err(other_to_psp22(e)),
                Ok(x) => Ok(x),
            },
        }
    }

    /// What a `transfer` by `caller` answers: the owner may not transfer.
    pub open spec fn transfer_spec(&self, caller: AccountId, to: AccountId, value: u128) -> Result<
        (u128, u128),
        PSP22ErrorView,
    > {
        if caller == self.owner_spec() {
            Err(other_to_psp22(OtherErrorView::CallerIsOwner))
        } else {
            self.transfer_spec_from(self.balances, caller, to, value)
        }
    }

    /// `q` is `b` with circulating supply `c` and rewards pool `w`.
    pub open spec fn bals_set(b: [u128; POOL_COUNT], q: [u128; POOL_COUNT], c: u128, w: u128) -> bool {
        q@ == b@.update(REWARDS as int, w).update(CIRCULATING as int, c)
    }

    /// The pool balances after a move of `value` tokens from `from` to `to`, or the error it
    /// answers.
    fn plan_transfer(&self, b: [u128; POOL_COUNT], from: AccountId, to: AccountId, value: u128) -> (r:
        Result<[u128; POOL_COUNT], PSP22Error>)
        requires
            self.wf(),
        ensures
            match self.transfer_spec_from(b, from, to, value) {
                Ok((c, w)) => r matches Ok(q) && Self::bals_set(b, q, c, w),
                Err(e) => r matches Err(x) && x@ == e,
            },
            r matches Ok(q) ==> q@[CIRCULATING as int] + amount_or_zero(
                moved(self.psp22.balances(), from, to, value),
                self.owner_spec(),
            ) == b@[CIRCULATING as int] + self.psp22.balance(self.owner_spec()),
    {
        match self.psp22.check_transfer(from, to, value) {
            Err(e) => {
                return Err(e);
            },
            Ok(()) => {},
        }
        let mut q = b;
        if from.same(&self.ownable.owner) {
            match q[CIRCULATING as usize].checked_add(value) {
                Some(sum) => q[CIRCULATING as usize] = sum,
                None => return Err(OtherError::Overflow.into_psp22()),
            };
        }
        if to.same(&self.ownable.owner) {
            match q[REWARDS as usize].checked_add(value) {
                Some(sum) => q[REWARDS as usize] = sum,
                None => return Err(OtherError::Overflow.into_psp22()),
            };
            match q[CIRCULATING as usize].checked_sub(value) {
                Some(difference) => q[CIRCULATING as usize] = difference,
                None => return Err(OtherError::Underflow.into_psp22()),
            };
        }
        assert(q@ =~= b@.update(REWARDS as int, q@[REWARDS as int]).update(
            CIRCULATING as int,
            q@[CIRCULATING as int],
        ));
        proof {
            crate::storage::law_move_keeps_circulation(
                self.psp22,
                self.ownable.owner,
                from,
                to,
                value,
                b@[CIRCULATING as int],
                b@[REWARDS as int],
            );
        }
        Ok(q)
    }

    /// Moves `value` tokens from `from` to `to`, sets the pool balances to `b` and records the
    /// transfer event.
    fn commit_transfer(&mut self, from: AccountId, to: AccountId, value: u128, b: [u128; POOL_COUNT])
        requires
            old(self).wf(),
            transfer_outcome(old(self).psp22, from, to, value) is Ok,
        ensures
            final(self).wf(),
            Self::transferred(old(self), final(self), from, to, value),
            Self::same_but_ledger_and_pools(old(self), final(self)),
            final(self).balances == b,
    {
        let done = self.psp22.transfer_from_to(from, to, value);
        assert(done is Ok);
        self.balances = b;
        self._emit_transfer_event(Some(from), Some(to), value);
    }

    /// Pays `x` tokens from `payer` to `payee` by writing both balances: `payee` is credited
    /// first, then `payer` is debited from what it holds at that point.
    fn pay_directly(&mut self, payer: AccountId, payee: AccountId, x: u128)
        requires
            old(self).wf(),
            old(self).psp22.balance(payee) + x <= u128::MAX,
            amount_or_zero(
                old(self).psp22.balances().insert(payee, (old(self).psp22.balance(payee) + x) as u128),
                payer,
            ) >= x,
        ensures
            final(self).wf(),
            final(self).psp22.balances() == paid_out(old(self).psp22.balances(), payer, payee, x),
            final(self).psp22.supply() == old(self).psp22.supply(),
            final(self).psp22.allowances() == old(self).psp22.allowances(),
            final(self).psp22.held() == old(self).psp22.held(),
            final(self).balances == old(self).balances,
            final(self).events == old(self).events,
            Self::same_but_ledger_and_pools(old(self), final(self)),
    {
        let payee_balance = self.psp22.balance_of(payee) + x;
        proof {
            self.psp22.lemma_balance_le_held(payee);
        }
        self.psp22.set_balance(payee, payee_balance);
        let payer_balance = self.psp22.balance_of(payer) - x;
        proof {
            self.psp22.lemma_balance_le_held(payer);
        }
        self.psp22.set_balance(payer, payer_balance);
    }

    /// Tokens in circulation (not the minted supply).
    pub fn total_supply(&self) -> (r: u128)
        ensures
            r == self.circulating_spec(),
    {
        self.balances[CIRCULATING as usize]
    }

    /// Transfer by `caller`, who may not be the owner; a transfer to the owner takes tokens out
    /// of circulation into the rewards pool.
    pub fn transfer(&mut self, caller: AccountId, to: AccountId, value: u128, data: Vec<u8>) -> (r:
        Result<(), PSP22Error>)
        requires
            old(self).wf(),
        ensures
            final(self).wf(),
            old(self).circulation_matches() ==> final(self).circulation_matches(),
            psp22_result(r) == match old(self).transfer_spec(caller, to, value) {
                Ok(_) => Ok(()),
                Err(e) => Err(e),
            },
            r is Err ==> *final(self) == *old(self),
            r is Ok ==> {
                &&& Self::transferred(old(self), final(self), caller, to, value)
                &&& Self::same_but_ledger_and_pools(old(self), final(self))
                &&& old(self).transfer_spec(caller, to, value) matches Ok((c, w))
                    && Self::bals_set(old(self).balances, final(self).balances, c, w)
            },
    {
        if self.is_owner(caller) {
            return Err(OtherError::CallerIsOwner.into_psp22());
        }
        let b = self.plan_transfer(self.balances, caller, to, value)?;
        self.commit_transfer(caller, to, value, b);
        Ok(())
    }

    /// Transfer by `caller` of tokens that `from` allowed it to spend; the allowance shrinks
    /// by `value`; tokens leaving the owner enter circulation, tokens reaching it leave
    /// circulation into the rewards pool. A short allowance answers `InsufficientBalance` and a
    /// short balance of `from` answers `InsufficientAllowance`.
    pub fn transfer_from(
        &mut self,
        caller: AccountId,
        from: AccountId,
        to: AccountId,
        value: u128,
        data: Vec<u8>,
    ) -> (r: Result<(), PSP22Error>)
        requires
            old(self).wf(),
        ensures
            final(self).wf(),
            old(self).circulation_matches() ==> final(self).circulation_matches(),
            psp22_result(r) == if old(self).psp22.allowance_of(from, caller) < value {
                Err(PSP22ErrorView::InsufficientBalance)
            } else {
                match approve_outcome(from, caller) {
                    Err(e) => Err(e@),
                    Ok(_) => match old(self).transfer_spec_from(old(self).balances, from, to, value) {
                        Ok(_) => Ok(()),
                        Err(e) => Err(spent_error(e)),
                    },
                }
            },
            r is Err ==> *final(self) == *old(self),
            r is Ok ==> {
                let allowed = (old(self).psp22.allowance_of(from, caller) - value) as u128;
                &&& final(self).psp22.balances() == moved(old(self).psp22.balances(), from, to, value)
                &&& final(self).psp22.supply() == old(self).psp22.supply()
                &&& final(self).psp22.held() == old(self).psp22.held()
                &&& final(self).psp22.allowances() == old(self).psp22.allowances().insert(
                    (from, caller),
                    allowed,
                )
                &&& final(self).events@ == old(self).events@.push(
                    approval_event(from, caller, allowed),
                ).push(transfer_event(from, to, value))
                &&& Self::same_but_ledger_and_pools(old(self), final(self))
                &&& old(self).transfer_spec_from(old(self).balances, from, to, value) matches Ok(
                    (c, w),
                ) && Self::bals_set(old(self).balances, final(self).balances, c, w)
            },
    {
        let allowance = self.psp22.allowance(from, caller);
        if allowance < value {
            return Err(PSP22Error::InsufficientBalance);
        }
        if from.is_zero() {
            return Err(PSP22Error::ZeroSenderAddress);
        }
        if caller.is_zero() {
            return Err(PSP22Error::ZeroRecipientAddress);
        }
        let b = match self.plan_transfer(self.balances, from, to, value) {
            Ok(planned) => planned,
            Err(PSP22Error::InsufficientBalance) => return Err(PSP22Error::InsufficientAllowance),
            Err(e) => return Err(e),
        };
        let approved = self.psp22.approve_from_to(from, caller, allowance - value);
        assert(approved is Ok);
        self._emit_approval_event(from, caller, allowance - value);
        self.commit_transfer(from, to, value, b);
        Ok(())
    }

    /// The owner hands ownership to `newowner`, and with it all the tokens it holds: the new
    /// owner's balance grows by the old owner's, and the old owner's balance becomes zero. Handing
    /// ownership to the owner itself changes no balance.
    pub fn transfer_ownership(&mut self, caller: AccountId, newowner: AccountId) -> (r: Result<
        (),
        OwnableError,
    >)
        requires
            old(self).wf(),
        ensures
            final(self).wf(),
            r == (if caller != old(self).owner_spec() {
                Err::<(), OwnableError>(OwnableError::CallerIsNotOwner)
            } else {
                Ok(())
            }),
            r is Err ==> *final(self) == *old(self),
            r is Ok ==> {
                let m = old(self).psp22.balances();
                let oldowner = old(self).owner_spec();
                &&& newowner == oldowner ==> final(self).psp22.balances() == m
                &&& newowner != oldowner ==> final(self).psp22.balances() == m.insert(
                    newowner,
                    (old(self).psp22.balance(newowner) + old(self).psp22.balance(oldowner)) as u128,
                ).insert(oldowner, 0)
                &&& final(self).psp22.held() == old(self).psp22.held()
                &&& final(self).psp22.supply() == old(self).psp22.supply()
                &&& final(self).psp22.allowances() == old(self).psp22.allowances()
                &&& final(self).owner_spec() == newowner
                &&& final(self).balances == old(self).balances
                &&& final(self).events == old(self).events
                &&& final(self).metadata == old(self).metadata
                &&& final(self).reward == old(self).reward
                &&& final(self).vest == old(self).vest
                &&& final(self).app == old(self).app
            },
    {
        let oldowner = self.ownable.owner;
        if !self.is_owner(caller) {
            return Err(OwnableError::CallerIsNotOwner);
        }
        if !newowner.same(&oldowner) {
            let oldbalance: u128 = self.psp22.balance_of(oldowner);
            proof {
                self.psp22.lemma_two_balances_le_held(newowner, oldowner);
            }
            let newbalance: u128 = self.psp22.balance_of(newowner) + oldbalance;
            self.psp22.set_balance(newowner, newbalance);
            proof {
                self.psp22.lemma_balance_le_held(oldowner);
            }
            self.psp22.set_balance(oldowner, 0);
        }
        self.ownable.owner = newowner;
        Ok(())
    }

    /// `post` is `pre` after `value` tokens moved from `from` to `to`, with the pools set to
    /// `pools` and the transfer event emitted; nothing else changed.
    pub open spec fn transferred(
        pre: &ILOCKmvp,
        post: &ILOCKmvp,
        from: AccountId,
        to: AccountId,
        value: u128,
    ) -> bool {
        &&& post.psp22.balances() == moved(pre.psp22.balances(), from, to, value)
        &&& post.psp22.supply() == pre.psp22.supply()
        &&& post.psp22.held() == pre.psp22.held()
        &&& post.psp22.allowances() == pre.psp22.allowances()
        &&& post.events@ == pre.events@.push(transfer_event(from, to, value))
    }

    /// Nothing but the ledger, the pools and the events differ between `pre` and `post`.
    pub open spec fn same_but_ledger_and_pools(pre: &ILOCKmvp, post: &ILOCKmvp) -> bool {
        &&& post.ownable == pre.ownable
        &&& post.metadata == pre.metadata
        &&& post.reward == pre.reward
        &&& post.vest == pre.vest
        &&& post.app == pre.app
    }

    /// Records `event` in the contract's event log; nothing else changes.
    pub fn emit_event(&mut self, event: Event)
        ensures
            final(self).events@ == old(self).events@.push(event),
            final(self).psp22 == old(self).psp22,
            final(self).balances == old(self).balances,
            Self::same_but_ledger_and_pools(old(self), final(self)),
    {
        self.events.push(event);
    }

    /// Records that `amount` tokens moved from `from` to `to` (`None`: minted or burned).
    pub fn _emit_transfer_event(&mut self, from: Option<AccountId>, to: Option<AccountId>, amount: u128)
        ensures
            final(self).events@ == old(self).events@.push(Event::Transfer(Transfer { from, to, amount })),
            final(self).psp22 == old(self).psp22,
            final(self).balances == old(self).balances,
            Self::same_but_ledger_and_pools(old(self), final(self)),
    {
        self.emit_event(make_transfer_event(from, to, amount));
    }

    /// Records that `owner` now lets `spender` spend `amount` tokens.
    pub fn _emit_approval_event(&mut self, owner: AccountId, spender: AccountId, amount: u128)
        ensures
            final(self).events@ == old(self).events@.push(approval_event(owner, spender, amount)),
            final(self).psp22 == old(self).psp22,
            final(self).balances == old(self).balances,
            Self::same_but_ledger_and_pools(old(self), final(self)),
    {
        self.emit_event(make_approval_event(owner, spender, amount));
    }

    /// Whether `caller` owns the contract.
    fn is_owner(&self, caller: AccountId) -> (r: bool)
        ensures
            r == (caller == self.owner_spec()),
    {
        caller.same(&self.ownable.owner)
    }

    /// The token balance of `owner`.
    pub fn balance_of(&self, owner: AccountId) -> (r: u128)
        ensures
            r == self.psp22.balance(owner),
    {
        self.psp22.balance_of(owner)
    }

    /// How much `spender` may still take from `owner`.
    pub fn allowance(&self, owner: AccountId, spender: AccountId) -> (r: u128)
        ensures
            r == self.psp22.allowance_of(owner, spender),
    {
        self.psp22.allowance(owner, spender)
    }

    /// `caller` lets `spender` spend `value` of its tokens.
    pub fn approve(&mut self, caller: AccountId, spender: AccountId, value: u128) -> (r: Result<
        (),
        PSP22Error,
    >)
        requires
            old(self).wf(),
        ensures
            final(self).wf(),
            r == approve_outcome(caller, spender),
            r is Err ==> *final(self) == *old(self),
            r is Ok ==> {
                &&& final(self).psp22.allowances() == old(self).psp22.allowances().insert(
                    (caller, spender),
                    value,
                )
                &&& final(self).psp22.balances() == old(self).psp22.balances()
                &&& final(self).psp22.supply() == old(self).psp22.supply()
                &&& final(self).events@ == old(self).events@.push(
                    approval_event(caller, spender, value),
                )
                &&& final(self).balances == old(self).balances
                &&& Self::same_but_ledger_and_pools(old(self), final(self))
            },
    {
        self.psp22.approve_from_to(caller, spender, value)?;
        self._emit_approval_event(caller, spender, value);
        Ok(())
    }

    /// `caller` lets `spender` spend `delta_value` more of its tokens.
    pub fn increase_allowance(&mut self, caller: AccountId, spender: AccountId, delta_value: u128) -> (r:
        Result<(), PSP22Error>)
        requires
            old(self).wf(),
            old(self).psp22.allowance_of(caller, spender) + delta_value <= u128::MAX,
        ensures
            final(self).wf(),
            r == approve_outcome(caller, spender),
            r is Err ==> *final(self) == *old(self),
            r is Ok ==> {
                let allowed = (old(self).psp22.allowance_of(caller, spender) + delta_value) as u128;
                &&& final(self).psp22.allowances() == old(self).psp22.allowances().insert(
                    (caller, spender),
                    allowed,
                )
                &&& final(self).psp22.balances() == old(self).psp22.balances()
                &&& final(self).psp22.supply() == old(self).psp22.supply()
                &&& final(self).events@ == old(self).events@.push(
                    approval_event(caller, spender, allowed),
                )
                &&& final(self).balances == old(self).balances
                &&& Self::same_but_ledger_and_pools(old(self), final(self))
            },
    {
        let allowance = self.psp22.allowance(caller, spender);
        self.approve(caller, spender, allowance + delta_value)
    }

    /// `caller` lets `spender` spend `delta_value` less of its tokens.
    pub fn decrease_allowance(&mut self, caller: AccountId, spender: AccountId, delta_value: u128) -> (r:
        Result<(), PSP22Error>)
        requires
            old(self).wf(),
        ensures
            final(self).wf(),
            r == (if old(self).psp22.allowance_of(caller, spender) < delta_value {
                Err(PSP22Error::InsufficientAllowance)
            } else {
                approve_outcome(caller, spender)
            }),
            r is Err ==> *final(self) == *old(self),
            r is Ok ==> {
                let allowed = (old(self).psp22.allowance_of(caller, spender) - delta_value) as u128;
                &&& final(self).psp22.allowances() == old(self).psp22.allowances().insert(
                    (caller, spender),
                    allowed,
                )
                &&& final(self).psp22.balances() == old(self).psp22.balances()
                &&& final(self).psp22.supply() == old(self).psp22.supply()
                &&& final(self).events@ == old(self).events@.push(
                    approval_event(caller, spender, allowed),
                )
                &&& final(self).balances == old(self).balances
                &&& Self::same_but_ledger_and_pools(old(self), final(self))
            },
    {
        let allowance = self.psp22.allowance(caller, spender);
        if allowance < delta_value {
            return Err(PSP22Error::InsufficientAllowance);
        }
        self.approve(caller, spender, allowance - delta_value)
    }

    /// The owner of the contract.
    pub fn owner(&self) -> (r: AccountId)
        ensures
            r == self.owner_spec(),
    {
        self.ownable.owner
    }

    /// The owner gives up ownership: the owner becomes the zero address.
    pub fn renounce_ownership(&mut self, caller: AccountId) -> (r: Result<(), OwnableError>)
        requires
            old(self).wf(),
        ensures
            final(self).wf(),
            r == (if caller == old(self).owner_spec() {
                Ok::<(), OwnableError>(())
            } else {
                Err(OwnableError::CallerIsNotOwner)
            }),
            r is Err ==> *final(self) == *old(self),
            r is Ok ==> is_zero_address(final(self).owner_spec()) && final(self).psp22
                == old(self).psp22 && final(self).balances == old(self).balances && final(self).events
                == old(self).events && final(self).metadata == old(self).metadata
                && final(self).reward == old(self).reward && final(self).vest == old(self).vest
                && final(self).app == old(self).app,
    {
        if !self.is_owner(caller) {
            return Err(OwnableError::CallerIsNotOwner);
        }
        self.ownable.owner = AccountId::filled(0);
        Ok(())
    }

    /// The token's name.
    pub fn token_name(&self) -> (r: Option<Vec<u8>>)
        ensures
            match (r, self.metadata.name) {
                (Some(a), Some(b)) => a@ == b@,
                (None, None) => true,
                _ => false,
            },
    {
        match &self.metadata.name {
            Some(v) => {
                let c = v.clone();
                assert(c@ =~= v@);
                Some(c)
            },
            None => None,
        }
    }

    /// The token's symbol.
    pub fn token_symbol(&self) -> (r: Option<Vec<u8>>)
        ensures
            match (r, self.metadata.symbol) {
                (Some(a), Some(b)) => a@ == b@,
                (None, None) => true,
                _ => false,
            },
    {
        match &self.metadata.symbol {
            Some(v) => {
                let c = v.clone();
                assert(c@ =~= v@);
                Some(c)
            },
            None => None,
        }
    }

    /// The token's number of decimals.
    pub fn token_decimals(&self) -> (r: u8)
        ensures
            r == self.metadata.decimals,
    {
        self.metadata.decimals
    }

    /// Advances the vesting schedule by a month once `now` lies past the next payout time
    /// (owner only); answers `PayoutTooEarly` before that.
    pub fn check_time(&mut self, caller: AccountId, now: u64) -> (r: Result<(), PSP22Error>)
        requires
            old(self).wf(),
            caller == old(self).owner_spec() && now > old(self).vest.nextpayout
                ==> old(self).vest.nextpayout + ONE_MONTH <= u64::MAX && old(self).vest.monthspassed
                < u16::MAX,
        ensures
            final(self).wf(),
            forall|t0: int| #[trigger]
                old(self).on_schedule(t0) ==> final(self).on_schedule(t0) && (r is Ok
                    ==> final(self).vest.monthspassed * (ONE_MONTH as int) < now - t0),
            psp22_result(r) == (if caller != old(self).owner_spec() {
                Err(not_owner_error())
            } else if now > old(self).vest.nextpayout {
                Ok(())
            } else {
                Err(other_to_psp22(OtherErrorView::PayoutTooEarly))
            }),
            r is Err ==> *final(self) == *old(self),
            r is Ok ==> {
                &&& final(self).vest.nextpayout == old(self).vest.nextpayout + ONE_MONTH
                &&& final(self).vest.monthspassed == old(self).vest.monthspassed + 1
                &&& final(self).vest.stakeholder == old(self).vest.stakeholder
                &&& final(self).psp22 == old(self).psp22
                &&& final(self).balances == old(self).balances
                &&& final(self).events == old(self).events
                &&& final(self).ownable == old(self).ownable
                &&& final(self).reward == old(self).reward
                &&& final(self).app == old(self).app
            },
    {
        if !self.is_owner(caller) {
            return Err(OtherError::CallerNotOwner.into_psp22());
        }
        if now > self.vest.nextpayout {
            self.vest.check_time(now);
            return Ok(());
        }
        Err(OtherError::PayoutTooEarly.into_psp22())
    }

    /// Time until the next payout, zero once it has come.
    pub fn remaining_time(&self, now: u64) -> (r: u64)
        ensures
            r == (if self.vest.nextpayout >= now { self.vest.nextpayout - now } else { 0 }),
    {
        self.vest.remaining_time(now)
    }

    /// Registers (or re-registers) a stakeholder with its share and pool (owner only).
    pub fn register_stakeholder(
        &mut self,
        caller: AccountId,
        stakeholder: AccountId,
        share: u128,
        pool: u8,
    ) -> (r: Result<(), PSP22Error>)
        requires
            old(self).wf(),
        ensures
            final(self).wf(),
            psp22_result(r) == (if caller != old(self).owner_spec() {
                Err(not_owner_error())
            } else if share == 0 {
                Err(other_to_psp22(OtherErrorView::ShareTooSmall))
            } else {
                Ok(())
            }),
            r is Err ==> *final(self) == *old(self),
            r is Ok ==> {
                &&& final(self).vest.stakeholder@ == old(self).vest.stakeholder@.insert(
                    stakeholder,
                    StakeholderData { paid: 0, share, pool },
                )
                &&& final(self).vest.monthspassed == old(self).vest.monthspassed
                &&& final(self).vest.nextpayout == old(self).vest.nextpayout
                &&& final(self).psp22 == old(self).psp22
                &&& final(self).balances == old(self).balances
                &&& final(self).events == old(self).events
                &&& final(self).ownable == old(self).ownable
                &&& final(self).reward == old(self).reward
                &&& final(self).app == old(self).app
            },
    {
        if !self.is_owner(caller) {
            return Err(OtherError::CallerNotOwner.into_psp22());
        }
        if share == 0 {
            return Err(OtherError::ShareTooSmall.into_psp22());
        }
        self.vest.stakeholder.insert(stakeholder, StakeholderData { paid: 0, share, pool });
        Ok(())
    }

    /// A stakeholder's data, what remains to be paid, its monthly payment and its pool's name.
    pub fn stakeholder_data(&self, stakeholder: AccountId) -> (r: (StakeholderData, u128, u128, String))
        requires
            self.wf(),
            self.vest.stakeholder@.contains_key(stakeholder),
            self.vest.stakeholder@[stakeholder].pool < PROCEEDS,
        ensures
            ({
                let s = self.vest.stakeholder@[stakeholder];
                let p = pool_spec(s.pool as int);
                &&& r.0 == s
                &&& r.1 == s.share - s.paid
                &&& r.2 == s.share / (p.vests as u128)
                &&& r.3@ == p.name@
            }),
    {
        let this_stakeholder = self.vest.stakeholder.get(&stakeholder).unwrap();
        let pool = pool_info(this_stakeholder.pool);
        let paidout: u128 = this_stakeholder.paid;
        let payremaining: u128 = this_stakeholder.share - paidout;
        let payamount: u128 = this_stakeholder.share / pool.vests as u128;
        (this_stakeholder, payremaining, payamount, String::from_str(pool.name))
    }

    /// Months passed along the vesting schedule.
    pub fn months_passed(&self) -> (r: u16)
        ensures
            r == self.vest.monthspassed,
    {
        self.vest.monthspassed
    }

    /// The supply minted on creation.
    pub fn cap(&self) -> (r: u128)
        ensures
            r == SUPPLY_CAP,
    {
        SUPPLY_CAP
    }

    /// Total rewarded to `interlocker` so far.
    pub fn rewarded_interlocker_total(&self, interlocker: AccountId) -> (r: u128)
        ensures
            r == amount_or_zero(self.reward.interlocker@, interlocker),
    {
        self.reward.rewarded(interlocker)
    }

    /// Total rewarded to all Interlockers so far.
    pub fn rewarded_total(&self) -> (r: u128)
        ensures
            r == self.reward.total,
    {
        self.reward.total
    }

    /// Owner only: answers the code hash that the contract's code is to be replaced with.
    pub fn update_contract(&self, caller: AccountId, code_hash: [u8; 32]) -> (r: Result<
        [u8; 32],
        PSP22Error,
    >)
        ensures
            psp22_result(r) == (if caller != self.owner_spec() {
                Err(not_owner_error())
            } else {
                Ok(code_hash)
            }),
    {
        if !self.is_owner(caller) {
            return Err(OtherError::CallerNotOwner.into_psp22());
        }
        Ok(code_hash)
    }

    /// Creates (or replaces) port `number` (owner only).
    pub fn create_port(
        &mut self,
        caller: AccountId,
        codehash: crate::account::CodeHash,
        tax: u128,
        cap: u128,
        locked: bool,
        number: u16,
        owner: AccountId,
    ) -> (r: Result<(), PSP22Error>)
        requires
            old(self).wf(),
        ensures
            final(self).wf(),
            psp22_result(r) == (if caller != old(self).owner_spec() {
                Err(not_owner_error())
            } else {
                Ok(())
            }),
            r is Err ==> *final(self) == *old(self),
            r is Ok ==> {
                &&& final(self).app.ports@ == old(self).app.ports@.insert(
                    number,
                    Port { application: codehash, tax, cap, locked, paid: 0, collected: 0, owner },
                )
                &&& final(self).app.sockets == old(self).app.sockets
                &&& final(self).psp22 == old(self).psp22
                &&& final(self).balances == old(self).balances
                &&& final(self).events == old(self).events
                &&& final(self).ownable == old(self).ownable
                &&& final(self).reward == old(self).reward
                &&& final(self).vest == old(self).vest
            },
    {
        if !self.is_owner(caller) {
            return Err(OtherError::CallerNotOwner.into_psp22());
        }
        let port = Port { application: codehash, tax, cap, locked, paid: 0, collected: 0, owner };
        self.app.ports.insert(number, port);
        Ok(())
    }

    /// The socket of `application`, or the default socket.
    pub fn socket(&self, application: AccountId) -> (s: Socket)
        ensures
            self.app.sockets@.contains_key(application) ==> s == self.app.sockets@[application],
            !self.app.sockets@.contains_key(application) ==> is_default_socket(s),
    {
        self.app.socket_or_default(application)
    }

    /// Port `portnumber`, or the default port.
    pub fn port(&self, portnumber: u16) -> (p: Port)
        ensures
            self.app.ports@.contains_key(portnumber) ==> p == self.app.ports@[portnumber],
            !self.app.ports@.contains_key(portnumber) ==> is_default_port(p),
    {
        self.app.port_or_default(portnumber)
    }

    /// Testing aid: advances the month counter without waiting (owner only).
    #[allow(non_snake_case)]
    pub fn TESTING_increment_month(&mut self, caller: AccountId) -> (r: Result<bool, OtherError>)
        requires
            old(self).wf(),
            caller == old(self).owner_spec() ==> old(self).vest.monthspassed < u16::MAX,
        ensures
            final(self).wf(),
            other_result(r) == (if caller != old(self).owner_spec() {
                Err(crate::errors::not_owner_other_error())
            } else {
                Ok(true)
            }),
            r is Err ==> *final(self) == *old(self),
            r is Ok ==> {
                &&& final(self).vest.monthspassed == old(self).vest.monthspassed + 1
                &&& final(self).vest.nextpayout == old(self).vest.nextpayout
                &&& final(self).vest.stakeholder == old(self).vest.stakeholder
                &&& final(self).psp22 == old(self).psp22
                &&& final(self).balances == old(self).balances
                &&& final(self).events == old(self).events
                &&& final(self).ownable == old(self).ownable
                &&& final(self).reward == old(self).reward
                &&& final(self).app == old(self).app
            },
    {
        if !self.is_owner(caller) {
            return Err(OtherError::CallerNotOwner);
        }
        self.vest.monthspassed = self.vest.monthspassed + 1;
        Ok(true)
    }

    /// `distribute_tokens` for `stakeholder` can run without a fault: a registered stakeholder
    /// belongs to a known pool.
    pub open spec fn distribute_defined(&self, stakeholder: AccountId) -> bool {
        self.vest.stakeholder@.contains_key(stakeholder) ==> self.vest.stakeholder@[stakeholder].pool
            < POOL_COUNT
    }

    /// What `create_socket` answers for an application contract `caller` whose code hash is
    /// `caller_code` (`None` when `caller` is not a contract).
    pub open spec fn create_socket_spec(
        &self,
        caller_code: Option<CodeHash>,
        operator: AccountId,
        portnumber: u16,
    ) -> Result<(), OtherErrorView> {
        match caller_code {
            None => Err(OtherErrorView::NotContract),
            Some(hash) => if !self.app.ports@.contains_key(portnumber) {
                Err(OtherErrorView::NoPort)
            } else {
                let port = self.app.ports@[portnumber];
                if port.locked && self.owner_spec() != operator {
                    Err(OtherErrorView::PortLocked)
                } else if hash != port.application {
                    Err(OtherErrorView::UnsafeContract)
                } else if portnumber > 2 {
                    Err(OtherErrorView::InvalidPort)
                } else {
                    Ok(())
                }
            },
        }
    }

    /// An application contract `caller` connects to the token through port `portnumber` for
    /// `operator`; its code hash must be the port's. On port 2 the application may then spend
    /// up to the port's cap of the owner's tokens.
    pub fn create_socket(
        &mut self,
        caller: AccountId,
        caller_code: Option<CodeHash>,
        operator: AccountId,
        portnumber: u16,
    ) -> (r: Result<(), OtherError>)
        requires
            old(self).wf(),
        ensures
            final(self).wf(),
            other_result(r) == old(self).create_socket_spec(caller_code, operator, portnumber),
            r is Err ==> *final(self) == *old(self),
            r is Ok ==> {
                let cap = old(self).app.ports@[portnumber].cap;
                let owner = old(self).owner_spec();
                &&& final(self).app.sockets@ == old(self).app.sockets@.insert(
                    caller,
                    Socket { operator, portnumber },
                )
                &&& final(self).app.ports == old(self).app.ports
                &&& if portnumber == 2 {
                    &&& final(self).psp22.allowances() == old(self).psp22.allowances().insert(
                        (owner, caller),
                        cap,
                    )
                    &&& final(self).events@ == old(self).events@.push(
                        approval_event(owner, caller, cap),
                    )
                } else {
                    &&& final(self).psp22.allowances() == old(self).psp22.allowances()
                    &&& final(self).events == old(self).events
                }
                &&& final(self).psp22.balances() == old(self).psp22.balances()
                &&& final(self).psp22.supply() == old(self).psp22.supply()
                &&& final(self).balances == old(self).balances
                &&& final(self).ownable == old(self).ownable
                &&& final(self).metadata == old(self).metadata
                &&& final(self).reward == old(self).reward
                &&& final(self).vest == old(self).vest
            },
    {
        let callinghash = match caller_code {
            Some(hash) => hash,
            None => return Err(OtherError::NotContract),
        };
        let port = match self.app.ports.get(&portnumber) {
            Some(port) => port,
            None => return Err(OtherError::NoPort),
        };
        if port.locked && !self.is_owner(operator) {
            return Err(OtherError::PortLocked);
        }
        if !callinghash.same(&port.application) {
            return Err(OtherError::UnsafeContract);
        }
        if portnumber > 2 {
            return Err(OtherError::InvalidPort);
        }
        self.app.sockets.insert(caller, Socket { operator, portnumber });
        if portnumber == 2 {
            let owner = self.ownable.owner;
            self.psp22.set_allowance(owner, caller, port.cap);
            self._emit_approval_event(owner, caller, port.cap);
        }
        Ok(())
    }

    /// Human-readable parameters of pool `poolnumber`: name, tokens, vests and cliff.
    pub fn pool_data(&self, poolnumber: u8) -> (r: (String, String, String, String))
        requires
            poolnumber < POOL_COUNT,
        ensures
            ({
                let p = pool_spec(poolnumber as int);
                &&& r.0@ == "pool: "@ + str_debug_text(p.name@) + " "@
                &&& r.1@ == "tokens alotted: "@ + decimal(p.tokens as nat) + " "@
                &&& r.2@ == "number of vests: "@ + decimal(p.vests as nat) + " "@
                &&& r.3@ == "vesting cliff: "@ + decimal(p.cliffs as nat) + " "@
            }),
    {
        let pool = pool_info(poolnumber);
        let mut name = String::from_str("pool: ");
        name.append(str_debug(pool.name).as_str());
        name.append(" ");
        let mut tokens = String::from_str("tokens alotted: ");
        push_decimal(&mut tokens, pool.tokens);
        tokens.append(" ");
        let mut vests = String::from_str("number of vests: ");
        push_decimal(&mut vests, pool.vests as u128);
        vests.append(" ");
        let mut cliffs = String::from_str("vesting cliff: ");
        push_decimal(&mut cliffs, pool.cliffs as u128);
        cliffs.append(" ");
        (name, tokens, vests, cliffs)
    }

    /// The current balance of pool `pool`, human-readable and as a number.
    pub fn pool_balance(&self, pool: u8) -> (r: (String, u128))
        requires
            pool < POOL_COUNT,
        ensures
            r.1 == self.balances@[pool as int],
            r.0@ == "pool: "@ + str_debug_text(pool_spec(pool as int).name@) + ", balance: "@
                + decimal(r.1 as nat),
    {
        let p = pool_info(pool);
        let balance = self.balances[pool as usize];
        let mut text = String::from_str("pool: ");
        text.append(str_debug(p.name).as_str());
        text.append(", balance: ");
        push_decimal(&mut text, balance);
        (text, balance)
    }

    /// What paying `stakeholder` its vested share answers: the payment and the stakeholder's
    /// new paid total, or the error.
    pub open spec fn distribute_plan(&self, stakeholder: AccountId) -> Result<(u128, u128), OtherErrorView> {
        if !self.vest.stakeholder@.contains_key(stakeholder) {
            Err(OtherErrorView::StakeholderNotFound)
        } else {
            let s = self.vest.stakeholder@[stakeholder];
            let p = pool_spec(s.pool as int);
            payout_rule(s, self.vest.monthspassed, p.vests, p.cliffs)
        }
    }

    /// What paying `x` from `payer` to `payee` by direct balance writes answers, after which
    /// circulation grows by `x`; pool balances start at `b`.
    pub open spec fn direct_pay_spec(&self, b: [u128; POOL_COUNT], payer: AccountId, payee: AccountId, x: u128) -> Result<
        (),
        OtherErrorView,
    > {
        let m = self.psp22.balances();
        if self.psp22.balance(payee) + x > u128::MAX {
            Err(OtherErrorView::Overflow)
        } else if b@[CIRCULATING as int] + x > u128::MAX {
            Err(OtherErrorView::Overflow)
        } else if amount_or_zero(m.insert(payee, (self.psp22.balance(payee) + x) as u128), payer) < x {
            Err(OtherErrorView::Underflow)
        } else {
            Ok(())
        }
    }

    /// What `distribute_tokens` answers.
    pub open spec fn distribute_spec(&self, caller: AccountId, stakeholder: AccountId) -> Result<
        (),
        OtherErrorView,
    > {
        if caller != self.owner_spec() {
            Err(not_owner_other_error())
        } else {
            match self.distribute_plan(stakeholder) {
                Err(e) => Err(e),
                Ok((payout, _)) => match self.direct_pay_spec(
                    self.balances,
                    caller,
                    stakeholder,
                    payout,
                ) {
                    Err(e) => Err(e),
                    Ok(_) => {
                        let pool = self.vest.stakeholder@[stakeholder].pool as int;
                        if self.balances@[pool] < payout {
                            Err(OtherErrorView::Underflow)
                        } else {
                            Ok(())
                        }
                    },
                },
            }
        }
    }

    /// Pays `stakeholder` what its vesting schedule owes it this month (owner only): the
    /// payment moves from the owner's balance into circulation and out of the stakeholder's
    /// pool.
    pub fn distribute_tokens(&mut self, caller: AccountId, stakeholder: AccountId) -> (r: Result<
        (),
        OtherError,
    >)
        requires
            old(self).wf(),
            caller == old(self).owner_spec() ==> old(self).distribute_defined(stakeholder),
        ensures
            final(self).wf(),
            old(self).circulation_matches() && stakeholder != old(self).owner_spec() ==> final(self).circulation_matches(),
            other_result(r) == old(self).distribute_spec(caller, stakeholder),
            r is Err ==> *final(self) == *old(self),
            r is Ok ==> {
                let s = old(self).vest.stakeholder@[stakeholder];
                let (payout, paid) = old(self).distribute_plan(stakeholder)->Ok_0;
                let circulated = old(self).balances@.update(
                    CIRCULATING as int,
                    (old(self).circulating_spec() + payout) as u128,
                );
                &&& final(self).psp22.balances() == paid_out(
                    old(self).psp22.balances(),
                    caller,
                    stakeholder,
                    payout,
                )
                &&& final(self).psp22.supply() == old(self).psp22.supply()
                &&& final(self).psp22.allowances() == old(self).psp22.allowances()
                &&& final(self).balances@ == circulated.update(
                    s.pool as int,
                    (circulated[s.pool as int] - payout) as u128,
                )
                &&& final(self).vest.stakeholder@ == old(self).vest.stakeholder@.insert(
                    stakeholder,
                    StakeholderData { paid, ..s },
                )
                &&& final(self).vest.monthspassed == old(self).vest.monthspassed
                &&& final(self).vest.nextpayout == old(self).vest.nextpayout
                &&& final(self).events == old(self).events
                &&& final(self).ownable == old(self).ownable
                &&& final(self).reward == old(self).reward
                &&& final(self).app == old(self).app
            },
    {
        if !self.is_owner(caller) {
            return Err(OtherError::CallerNotOwner);
        }
        let mut this_stakeholder = match self.vest.stakeholder.get(&stakeholder) {
            Some(s) => s,
            None => {
                return Err(OtherError::StakeholderNotFound);
            },
        };
        let pool = pool_info(this_stakeholder.pool);
        let (payout, newpaidtotal) = plan_payout(
            this_stakeholder,
            self.vest.monthspassed,
            pool.vests,
            pool.cliffs,
        )?;
        let mut b = self.balances;
        self.check_direct_pay(caller, stakeholder, payout)?;
        b[CIRCULATING as usize] = b[CIRCULATING as usize] + payout;
        let index = this_stakeholder.pool as usize;
        match b[index].checked_sub(payout) {
            Some(difference) => b[index] = difference,
            None => return Err(OtherError::Underflow),
        };
        self.pay_directly(caller, stakeholder, payout);
        self.balances = b;
        let ghost before = this_stakeholder;
        this_stakeholder.paid = newpaidtotal;
        proof {
            crate::storage::law_payout_on_time(before, self.vest.monthspassed, pool.vests, pool.cliffs);
        }
        self.vest.stakeholder.insert(stakeholder, this_stakeholder);
        Ok(())
    }

    /// Checks that paying `x` from `payer` to `payee` by direct balance writes, with
    /// circulation growing by `x`, overflows nothing and overdraws nobody.
    fn check_direct_pay(&self, payer: AccountId, payee: AccountId, x: u128) -> (r: Result<(), OtherError>)
        ensures
            other_result(r) == self.direct_pay_spec(self.balances, payer, payee, x),
    {
        let payee_balance = match self.psp22.balance_of(payee).checked_add(x) {
            Some(sum) => sum,
            None => return Err(OtherError::Overflow),
        };
        if self.balances[CIRCULATING as usize].checked_add(x).is_none() {
            return Err(OtherError::Overflow);
        }
        let payer_balance = if payer.same(&payee) {
            payee_balance
        } else {
            self.psp22.balance_of(payer)
        };
        if payer_balance < x {
            return Err(OtherError::Underflow);
        }
        Ok(())
    }

    /// The pool that `payout_tokens` pays from, by name.
    pub open spec fn payout_pool(name: Seq<char>) -> Option<int> {
        if name == "PARTNERS"@ {
            Some(PARTNERS as int)
        } else if name == "COMMUNITY"@ {
            Some(COMMUNITY as int)
        } else if name == "PUBLIC"@ {
            Some(PUBLIC as int)
        } else if name == "PROCEEDS"@ {
            Some(PROCEEDS as int)
        } else {
            None
        }
    }

    /// What `payout_tokens` answers.
    pub open spec fn payout_spec(
        &self,
        caller: AccountId,
        stakeholder: AccountId,
        amount: u128,
        pool: Seq<char>,
    ) -> Result<(), OtherErrorView> {
        if caller != self.owner_spec() {
            Err(not_owner_other_error())
        } else {
            match Self::payout_pool(pool) {
                None => Err(OtherErrorView::InvalidPool),
                Some(n) => if self.balances@[n] < amount {
                    Err(OtherErrorView::PaymentTooLarge)
                } else {
                    self.direct_pay_spec(self.balances, caller, stakeholder, amount)
                },
            }
        }
    }

    /// Pays `amount` tokens to `stakeholder` from pool "PARTNERS", "COMMUNITY", "PUBLIC" or
    /// "PROCEEDS" (owner only): they move from the owner's balance into circulation.
    pub fn payout_tokens(
        &mut self,
        caller: AccountId,
        stakeholder: AccountId,
        amount: u128,
        pool: String,
    ) -> (r: Result<(), OtherError>)
        requires
            old(self).wf(),
        ensures
            final(self).wf(),
            old(self).circulation_matches() && stakeholder != old(self).owner_spec() ==> final(self).circulation_matches(),
            other_result(r) == old(self).payout_spec(caller, stakeholder, amount, pool@),
            r is Err ==> *final(self) == *old(self),
            r is Ok ==> {
                let n = Self::payout_pool(pool@)->Some_0;
                &&& final(self).psp22.balances() == paid_out(
                    old(self).psp22.balances(),
                    caller,
                    stakeholder,
                    amount,
                )
                &&& final(self).psp22.supply() == old(self).psp22.supply()
                &&& final(self).psp22.allowances() == old(self).psp22.allowances()
                &&& final(self).balances@ == old(self).balances@.update(
                    n,
                    (old(self).balances@[n] - amount) as u128,
                ).update(CIRCULATING as int, (old(self).circulating_spec() + amount) as u128)
                &&& final(self).events == old(self).events
                &&& Self::same_but_ledger_and_pools(old(self), final(self))
            },
    {
        if !self.is_owner(caller) {
            return Err(OtherError::CallerNotOwner);
        }
        proof {
            reveal_strlit("PARTNERS");
            reveal_strlit("COMMUNITY");
            reveal_strlit("PUBLIC");
            reveal_strlit("PROCEEDS");
        }
        let poolnumber: u8 = if pool == String::from_str("PARTNERS") {
            PARTNERS
        } else if pool == String::from_str("COMMUNITY") {
            COMMUNITY
        } else if pool == String::from_str("PUBLIC") {
            PUBLIC
        } else if pool == String::from_str("PROCEEDS") {
            PROCEEDS
        } else {
            return Err(OtherError::InvalidPool);
        };
        let mut b = self.balances;
        let index = poolnumber as usize;
        match b[index].checked_sub(amount) {
            Some(difference) => b[index] = difference,
            None => return Err(OtherError::PaymentTooLarge),
        };
        self.check_direct_pay(caller, stakeholder, amount)?;
        b[CIRCULATING as usize] = b[CIRCULATING as usize] + amount;
        self.pay_directly(caller, stakeholder, amount);
        self.balances = b;
        Ok(())
    }

    /// The most that may have left the rewards pool after `months` months: one share of the
    /// pool per month, counting the current one.
    pub open spec fn reward_cap(months: u16) -> int {
        (months + 1) * ((pool_spec(REWARDS as int).tokens * DECIMALS_POWER10) as int / (pool_spec(
            REWARDS as int,
        ).vests as int))
    }

    /// `reward_interlocker` can run without a fault: once the rewards pool can pay the reward,
    /// the month counter can count one more and the pool holds no more than it started with.
    pub open spec fn reward_defined(&self, reward: u128) -> bool {
        self.rewards_spec() >= reward ==> self.vest.monthspassed < u16::MAX && self.rewards_spec()
            <= pool_spec(REWARDS as int).tokens * DECIMALS_POWER10
    }

    /// What `reward_interlocker` answers: the Interlocker's new rewarded total on success.
    pub open spec fn reward_spec(
        &self,
        caller: AccountId,
        reward: u128,
        interlocker: AccountId,
        interlocker_is_contract: bool,
    ) -> Result<u128, OtherErrorView> {
        let given = pool_spec(REWARDS as int).tokens * DECIMALS_POWER10 - self.rewards_spec();
        let before = amount_or_zero(self.reward.interlocker@, interlocker);
        if caller != self.owner_spec() {
            Err(not_owner_other_error())
        } else if self.rewards_spec() < reward {
            Err(OtherErrorView::PaymentTooLarge)
        } else if Self::reward_cap(self.vest.monthspassed) < given + reward {
            Err(OtherErrorView::PayoutTooEarly)
        } else if interlocker_is_contract {
            Err(OtherErrorView::CannotRewardContract)
        } else if self.psp22.balance(interlocker) + reward > u128::MAX {
            Err(OtherErrorView::Overflow)
        } else if self.reward.total + reward > u128::MAX {
            Err(OtherErrorView::PaymentTooLarge)
        } else if self.circulating_spec() + reward > u128::MAX {
            Err(OtherErrorView::Overflow)
        } else if amount_or_zero(
            self.psp22.balances().insert(interlocker, (self.psp22.balance(interlocker) + reward) as u128),
            caller,
        ) < reward {
            Err(OtherErrorView::Underflow)
        } else if before + reward > u128::MAX {
            Err(OtherErrorView::PaymentTooLarge)
        } else {
            Ok((before + reward) as u128)
        }
    }

    /// Rewards `interlocker` (which must not be a contract) with `reward` tokens out of the
    /// rewards pool, within the pool's monthly allowance (owner only); the tokens move from the
    /// owner's balance into circulation. Answers what the Interlocker has been rewarded in total.
    pub fn reward_interlocker(
        &mut self,
        caller: AccountId,
        reward: u128,
        interlocker: AccountId,
        interlocker_is_contract: bool,
    ) -> (r: Result<u128, OtherError>)
        requires
            old(self).wf(),
            caller == old(self).owner_spec() ==> old(self).reward_defined(reward),
        ensures
            final(self).wf(),
            old(self).circulation_matches() && interlocker != old(self).owner_spec() ==> final(self).circulation_matches(),
            other_result(r) == old(self).reward_spec(caller, reward, interlocker, interlocker_is_contract),
            r is Err ==> *final(self) == *old(self),
            r matches Ok(total) ==> {
                &&& final(self).psp22.balances() == paid_out(
                    old(self).psp22.balances(),
                    caller,
                    interlocker,
                    reward,
                )
                &&& final(self).psp22.supply() == old(self).psp22.supply()
                &&& final(self).psp22.allowances() == old(self).psp22.allowances()
                &&& final(self).balances@ == old(self).balances@.update(
                    REWARDS as int,
                    (old(self).rewards_spec() - reward) as u128,
                ).update(CIRCULATING as int, (old(self).circulating_spec() + reward) as u128)
                &&& final(self).reward.total == old(self).reward.total + reward
                &&& final(self).reward.interlocker@ == old(self).reward.interlocker@.insert(
                    interlocker,
                    total,
                )
                &&& final(self).events@ == old(self).events@.push(
                    Event::Reward(Reward { to: Some(interlocker), amount: reward }),
                )
                &&& final(self).ownable == old(self).ownable
                &&& final(self).metadata == old(self).metadata
                &&& final(self).vest == old(self).vest
                &&& final(self).app == old(self).app
            },
    {
        if !self.is_owner(caller) {
            return Err(OtherError::CallerNotOwner);
        }
        if self.balances[REWARDS as usize] < reward {
            return Err(OtherError::PaymentTooLarge);
        }
        let rewards_pool = pool_info(REWARDS);
        let monthly: u128 = rewards_pool.tokens * DECIMALS_POWER10 / rewards_pool.vests as u128;
        let months: u128 = (self.vest.monthspassed + 1) as u128;
        assert(monthly == 6_250_000_000_000_000_000_000_000) by (nonlinear_arith)
            requires
                monthly == 300_000_000_000_000_000_000_000_000u128 / 48u128,
        ;
        assert(months * monthly <= 65536 * 6_250_000_000_000_000_000_000_000) by (nonlinear_arith)
            requires
                months <= 65536,
                monthly == 6_250_000_000_000_000_000_000_000,
        ;
        let currentcap: u128 = months * monthly;
        if currentcap < rewards_pool.tokens * DECIMALS_POWER10 - self.balances[REWARDS as usize]
            + reward {
            return Err(OtherError::PayoutTooEarly);
        }
        if interlocker_is_contract {
            return Err(OtherError::CannotRewardContract);
        }
        let mut b = self.balances;
        b[REWARDS as usize] = b[REWARDS as usize] - reward;
        let interlockerbalance = match self.psp22.balance_of(interlocker).checked_add(reward) {
            Some(sum) => sum,
            None => return Err(OtherError::Overflow),
        };
        let total = match self.reward.total.checked_add(reward) {
            Some(sum) => sum,
            None => return Err(OtherError::PaymentTooLarge),
        };
        match b[CIRCULATING as usize].checked_add(reward) {
            Some(sum) => b[CIRCULATING as usize] = sum,
            None => return Err(OtherError::Overflow),
        };
        let ownerbalance = if caller.same(&interlocker) {
            interlockerbalance
        } else {
            self.psp22.balance_of(caller)
        };
        if ownerbalance < reward {
            return Err(OtherError::Underflow);
        }
        let rewardedinterlockertotal: u128 = self.reward.rewarded(interlocker);
        let newrewardedtotal: u128 = match rewardedinterlockertotal.checked_add(reward) {
            Some(sum) => sum,
            None => return Err(OtherError::PaymentTooLarge),
        };
        self.pay_directly(caller, interlocker, reward);
        self.balances = b;
        self.reward.total = total;
        proof {
            self.reward.interlocker.lemma_finite();
            crate::table::lemma_map_total_insert(self.reward.interlocker@, interlocker, newrewardedtotal);
        }
        self.reward.interlocker.insert(interlocker, newrewardedtotal);
        self.emit_event(Event::Reward(Reward { to: Some(interlocker), amount: reward }));
        Ok(newrewardedtotal)
    }

    /// The tax taken from `amount` on a transfer through `port`, with pool balances `b` and an
    /// owner holding `owner_balance`, or the error.
    pub open spec fn tax_rule(b: [u128; POOL_COUNT], owner_balance: u128, port: Port, amount: u128) -> Result<
        u128,
        OtherErrorView,
    > {
        if port.tax == 0 {
            Err(OtherErrorView::DivError)
        } else {
            let tax = amount / port.tax;
            if b@[PROCEEDS as int] + tax > u128::MAX {
                Err(OtherErrorView::Overflow)
            } else if b@[CIRCULATING as int] < tax {
                Err(OtherErrorView::Underflow)
            } else if owner_balance + tax > u128::MAX {
                Err(OtherErrorView::Overflow)
            } else if port.collected + tax > u128::MAX {
                Err(OtherErrorView::Overflow)
            } else if port.paid + (amount - tax) > u128::MAX {
                Err(OtherErrorView::Overflow)
            } else {
                Ok(tax)
            }
        }
    }

    /// `port` after a taxed transfer of `amount` with tax `tax`.
    pub open spec fn port_taxed(port: Port, amount: u128, tax: u128) -> Port {
        Port {
            collected: (port.collected + tax) as u128,
            paid: (port.paid + (amount - tax)) as u128,
            ..port
        }
    }

    /// Computes the tax of a transfer through `port`, with the pool balances and port after it.
    fn plan_tax(b: [u128; POOL_COUNT], owner_balance: u128, port: Port, amount: u128) -> (r: Result<
        ([u128; POOL_COUNT], Port, u128),
        OtherError,
    >)
        ensures
            match Self::tax_rule(b, owner_balance, port, amount) {
                Ok(tax) => r matches Ok((q, p, t)) && t == tax && q@ == b@.update(
                    PROCEEDS as int,
                    (b@[PROCEEDS as int] + tax) as u128,
                ).update(CIRCULATING as int, (b@[CIRCULATING as int] - tax) as u128) && p
                    == Self::port_taxed(port, amount, tax),
                Err(e) => r matches Err(x) && x@ == e,
            },
    {
        let tax: u128 = match amount.checked_div(port.tax) {
            Some(quotient) => quotient,
            None => return Err(OtherError::DivError),
        };
        let mut q = b;
        let mut p = port;
        match q[PROCEEDS as usize].checked_add(tax) {
            Some(sum) => q[PROCEEDS as usize] = sum,
            None => return Err(OtherError::Overflow),
        };
        match q[CIRCULATING as usize].checked_sub(tax) {
            Some(difference) => q[CIRCULATING as usize] = difference,
            None => return Err(OtherError::Underflow),
        };
        if owner_balance.checked_add(tax).is_none() {
            return Err(OtherError::Overflow);
        }
        match p.collected.checked_add(tax) {
            Some(sum) => p.collected = sum,
            None => return Err(OtherError::Overflow),
        };
        let adjustedamount: u128 = match amount.checked_sub(tax) {
            Some(difference) => difference,
            None => return Err(OtherError::Underflow),
        };
        match p.paid.checked_add(adjustedamount) {
            Some(sum) => p.paid = sum,
            None => return Err(OtherError::Overflow),
        };
        Ok((q, p, tax))
    }

    /// How far taxing a transfer of `amount` through `port` gets, whether it succeeds or not:
    /// 1 once the proceeds are raised, 2 once the circulating supply is lowered, 3 once the
    /// owner (whose balance is `owner_balance`) is credited with the tax.
    pub open spec fn tax_progress(b: [u128; POOL_COUNT], owner_balance: u128, port: Port, amount: u128) -> int {
        if port.tax == 0 {
            0
        } else {
            let tax = amount / port.tax;
            if b@[PROCEEDS as int] + tax > u128::MAX {
                0
            } else if b@[CIRCULATING as int] < tax {
                1
            } else if owner_balance + tax > u128::MAX {
                2
            } else {
                3
            }
        }
    }

    /// Taxes a transfer of `amount` through `socket`'s port: the tax (`amount / port.tax`)
    /// leaves circulation into the proceeds and is credited to the owner, the port records it,
    /// and the rest is answered. The credit creates tokens unless the caller has taken `amount`
    /// from someone first, as `call_socket` does. The steps are taken one by one, so a refusal
    /// keeps the steps taken before it (see `tax_progress`); nothing else changes on a refusal.
    pub fn tax_port_transfer(&mut self, socket: Socket, port: Port, amount: u128) -> (r: Result<
        u128,
        OtherError,
    >)
        requires
            old(self).wf(),
        ensures
            other_result(r) == match Self::tax_rule(
                old(self).balances,
                old(self).psp22.balance(old(self).owner_spec()),
                port,
                amount,
            ) {
                Ok(tax) => Ok((amount - tax) as u128),
                Err(e) => Err(e),
            },
            ({
                let owner = old(self).owner_spec();
                let tax = amount / port.tax;
                let progress = Self::tax_progress(
                    old(self).balances,
                    old(self).psp22.balance(owner),
                    port,
                    amount,
                );
                let raised = old(self).balances@.update(
                    PROCEEDS as int,
                    (old(self).proceeds_spec() + tax) as u128,
                );
                &&& final(self).balances@ == if progress >= 2 {
                    raised.update(CIRCULATING as int, (old(self).circulating_spec() - tax) as u128)
                } else if progress == 1 {
                    raised
                } else {
                    old(self).balances@
                }
                &&& final(self).psp22.balances() == if progress == 3 {
                    old(self).psp22.balances().insert(
                        owner,
                        (old(self).psp22.balance(owner) + tax) as u128,
                    )
                } else {
                    old(self).psp22.balances()
                }
                &&& progress < 3 || old(self).psp22.held() + tax <= old(self).psp22.supply()
                    ==> final(self).wf()
            }),
            final(self).psp22.supply() == old(self).psp22.supply(),
            final(self).psp22.allowances() == old(self).psp22.allowances(),
            final(self).app.sockets == old(self).app.sockets,
            final(self).ownable == old(self).ownable,
            final(self).metadata == old(self).metadata,
            final(self).reward == old(self).reward,
            final(self).vest == old(self).vest,
            r is Err ==> final(self).app == old(self).app && final(self).events == old(self).events,
            r is Ok ==> {
                let tax = (amount - r->Ok_0) as u128;
                &&& final(self).app.ports@ == old(self).app.ports@.insert(
                    socket.portnumber,
                    Self::port_taxed(port, amount, tax),
                )
                &&& final(self).events@ == old(self).events@.push(
                    transfer_event(socket.operator, old(self).owner_spec(), tax),
                )
            },
    {
        let tax: u128 = match amount.checked_div(port.tax) {
            Some(quotient) => quotient,
            None => return Err(OtherError::DivError),
        };
        match self.balances[PROCEEDS as usize].checked_add(tax) {
            Some(sum) => self.balances[PROCEEDS as usize] = sum,
            None => return Err(OtherError::Overflow),
        };
        match self.balances[CIRCULATING as usize].checked_sub(tax) {
            Some(difference) => self.balances[CIRCULATING as usize] = difference,
            None => return Err(OtherError::Underflow),
        };
        let owner = self.ownable.owner;
        let ownerbalance = match self.psp22.balance_of(owner).checked_add(tax) {
            Some(sum) => sum,
            None => return Err(OtherError::Overflow),
        };
        proof {
            self.psp22.lemma_balance_le_held(owner);
        }
        self.psp22.set_balance(owner, ownerbalance);
        let mut taxed = port;
        match taxed.collected.checked_add(tax) {
            Some(sum) => taxed.collected = sum,
            None => return Err(OtherError::Overflow),
        };
        let adjustedamount: u128 = match amount.checked_sub(tax) {
            Some(difference) => difference,
            None => return Err(OtherError::Underflow),
        };
        match taxed.paid.checked_add(adjustedamount) {
            Some(sum) => taxed.paid = sum,
            None => return Err(OtherError::Overflow),
        };
        self.app.ports.insert(socket.portnumber, taxed);
        self._emit_transfer_event(Some(socket.operator), Some(owner), tax);
        Ok(adjustedamount)
    }

    /// What `call_socket` answers for a call from `caller` about `address`.
    pub open spec fn call_socket_spec(
        &self,
        caller: AccountId,
        caller_is_contract: bool,
        address: AccountId,
        amount: u128,
    ) -> Result<(), OtherErrorView> {
        if !caller_is_contract {
            Err(OtherErrorView::NotContract)
        } else if !self.app.sockets@.contains_key(caller) {
            Err(OtherErrorView::NoSocket)
        } else {
            let socket = self.app.sockets@[caller];
            if !self.app.ports@.contains_key(socket.portnumber) {
                Err(OtherErrorView::NoPort)
            } else {
                let port = self.app.ports@[socket.portnumber];
                let n = socket.portnumber;
                if n == 0 {
                    if self.psp22.balance(address) < amount {
                        Err(OtherErrorView::Underflow)
                    } else if self.rewards_spec() + amount > u128::MAX {
                        Err(OtherErrorView::Overflow)
                    } else if self.circulating_spec() < amount {
                        Err(OtherErrorView::Underflow)
                    } else if port.paid + amount > u128::MAX {
                        Err(OtherErrorView::Overflow)
                    } else {
                        Ok(())
                    }
                } else if n == 1 {
                    if self.psp22.balance(address) < amount {
                        Err(OtherErrorView::Underflow)
                    } else {
                        let owner = self.owner_spec();
                        let debited = self.psp22.balances().insert(
                            address,
                            (self.psp22.balance(address) - amount) as u128,
                        );
                        match Self::tax_rule(
                            self.balances,
                            amount_or_zero(debited, owner),
                            port,
                            amount,
                        ) {
                            Err(e) => Err(e),
                            Ok(tax) => {
                                let taxed = debited.insert(
                                    owner,
                                    (amount_or_zero(debited, owner) + tax) as u128,
                                );
                                if amount_or_zero(taxed, socket.operator) + (amount - tax)
                                    > u128::MAX {
                                    Err(OtherErrorView::Overflow)
                                } else {
                                    Ok(())
                                }
                            },
                        }
                    }
                } else if n == 2 || n == 65535 {
                    Ok(())
                } else {
                    Err(OtherErrorView::InvalidPort)
                }
            }
        }
    }

    /// An application contract `caller` calls its socket about `address`: on port 0 `address`
    /// pays `amount` to the owner, and the tokens leave circulation into the rewards pool; on
    /// port 1 it pays `amount` to the socket operator, less the port's tax, which goes to the
    /// owner and the proceeds.
    pub fn call_socket(
        &mut self,
        caller: AccountId,
        caller_is_contract: bool,
        address: AccountId,
        amount: u128,
        data: Vec<u8>,
    ) -> (r: Result<(), OtherError>)
        requires
            old(self).wf(),
        ensures
            final(self).wf(),
            old(self).circulation_matches() && address != old(self).owner_spec() && (old(self).app.sockets@.contains_key(caller) ==> old(
                self,
            ).app.sockets@[caller].operator != old(self).owner_spec()) ==> final(self).circulation_matches(),
            other_result(r) == old(self).call_socket_spec(caller, caller_is_contract, address, amount),
            r is Err ==> *final(self) == *old(self),
            r is Ok ==> {
                let socket = old(self).app.sockets@[caller];
                let port = old(self).app.ports@[socket.portnumber];
                let owner = old(self).owner_spec();
                let debited = old(self).psp22.balances().insert(
                    address,
                    (old(self).psp22.balance(address) - amount) as u128,
                );
                &&& final(self).psp22.supply() == old(self).psp22.supply()
                &&& final(self).psp22.allowances() == old(self).psp22.allowances()
                &&& final(self).app.sockets == old(self).app.sockets
                &&& final(self).ownable == old(self).ownable
                &&& final(self).metadata == old(self).metadata
                &&& final(self).reward == old(self).reward
                &&& final(self).vest == old(self).vest
                &&& if socket.portnumber == 0 {
                    &&& final(self).psp22.balances() == debited.insert(
                        owner,
                        (amount_or_zero(debited, owner) + amount) as u128,
                    )
                    &&& final(self).balances@ == old(self).balances@.update(
                        REWARDS as int,
                        (old(self).rewards_spec() + amount) as u128,
                    ).update(CIRCULATING as int, (old(self).circulating_spec() - amount) as u128)
                    &&& final(self).app.ports@ == old(self).app.ports@.insert(
                        0,
                        Port { paid: (port.paid + amount) as u128, ..port },
                    )
                    &&& final(self).events == old(self).events
                } else if socket.portnumber == 1 {
                    let tax = Self::tax_rule(
                        old(self).balances,
                        amount_or_zero(debited, owner),
                        port,
                        amount,
                    )->Ok_0;
                    let adjusted = (amount - tax) as u128;
                    let taxed = debited.insert(owner, (amount_or_zero(debited, owner) + tax) as u128);
                    &&& final(self).psp22.balances() == taxed.insert(
                        socket.operator,
                        (amount_or_zero(taxed, socket.operator) + adjusted) as u128,
                    )
                    &&& final(self).balances@ == old(self).balances@.update(
                        PROCEEDS as int,
                        (old(self).proceeds_spec() + tax) as u128,
                    ).update(CIRCULATING as int, (old(self).circulating_spec() - tax) as u128)
                    &&& final(self).app.ports@ == old(self).app.ports@.insert(
                        1,
                        Self::port_taxed(port, amount, tax),
                    )
                    &&& final(self).events@ == old(self).events@.push(
                        transfer_event(socket.operator, owner, tax),
                    ).push(transfer_event(address, socket.operator, adjusted))
                } else {
                    &&& final(self).psp22 == old(self).psp22
                    &&& final(self).balances == old(self).balances
                    &&& final(self).app.ports == old(self).app.ports
                    &&& final(self).events == old(self).events
                }
            },
    {
        if !caller_is_contract {
            return Err(OtherError::NotContract);
        }
        let socket: Socket = match self.app.sockets.get(&caller) {
            Some(socket) => socket,
            None => return Err(OtherError::NoSocket),
        };
        let mut port: Port = match self.app.ports.get(&socket.portnumber) {
            Some(port) => port,
            None => return Err(OtherError::NoPort),
        };
        if socket.portnumber == 0 {
            let minterbalance = match self.psp22.balance_of(address).checked_sub(amount) {
                Some(difference) => difference,
                None => return Err(OtherError::Underflow),
            };
            let mut b = self.balances;
            match b[REWARDS as usize].checked_add(amount) {
                Some(sum) => b[REWARDS as usize] = sum,
                None => return Err(OtherError::Overflow),
            };
            match b[CIRCULATING as usize].checked_sub(amount) {
                Some(difference) => b[CIRCULATING as usize] = difference,
                None => return Err(OtherError::Underflow),
            };
            match port.paid.checked_add(amount) {
                Some(sum) => port.paid = sum,
                None => return Err(OtherError::Overflow),
            };
            proof {
                self.psp22.lemma_balance_le_held(address);
            }
            self.psp22.set_balance(address, minterbalance);
            let owner = self.ownable.owner;
            let ownerbalance = self.psp22.balance_of(owner);
            proof {
                self.psp22.lemma_balance_le_held(owner);
            }
            self.psp22.set_balance(owner, ownerbalance + amount);
            self.balances = b;
            self.app.ports.insert(socket.portnumber, port);
        } else if socket.portnumber == 1 {
            let minterbalance = match self.psp22.balance_of(address).checked_sub(amount) {
                Some(difference) => difference,
                None => return Err(OtherError::Underflow),
            };
            let owner = self.ownable.owner;
            let ownerbalance = if owner.same(&address) {
                minterbalance
            } else {
                self.psp22.balance_of(owner)
            };
            let (b, taxed, tax) = Self::plan_tax(self.balances, ownerbalance, port, amount)?;
            let adjustedamount = amount - tax;
            let operatorbalance = if socket.operator.same(&owner) {
                ownerbalance + tax
            } else if socket.operator.same(&address) {
                minterbalance
            } else {
                self.psp22.balance_of(socket.operator)
            };
            let operatorbalance = match operatorbalance.checked_add(adjustedamount) {
                Some(sum) => sum,
                None => return Err(OtherError::Overflow),
            };
            proof {
                self.psp22.lemma_balance_le_held(address);
            }
            self.psp22.set_balance(address, minterbalance);
            proof {
                self.psp22.lemma_balance_le_held(owner);
            }
            self.psp22.set_balance(owner, ownerbalance + tax);
            proof {
                self.psp22.lemma_balance_le_held(socket.operator);
            }
            self.psp22.set_balance(socket.operator, operatorbalance);
            self.balances = b;
            self.app.ports.insert(socket.portnumber, taxed);
            self._emit_transfer_event(Some(socket.operator), Some(owner), tax);
            self._emit_transfer_event(Some(address), Some(socket.operator), adjustedamount);
        } else if socket.portnumber == 2 || socket.portnumber == 65535 {
        } else {
            return Err(OtherError::InvalidPort);
        }
        Ok(())
    }

    /// No vesting payment before the pool's cliff: while fewer months than the cliff of a
    /// stakeholder's pool have passed, paying it answers `CliffNotPassed`.
    pub proof fn law_distribute_waits_for_cliff(&self, caller: AccountId, stakeholder: AccountId)
        requires
            caller == self.owner_spec(),
            self.vest.stakeholder@.contains_key(stakeholder),
            self.vest.monthspassed < pool_spec(self.vest.stakeholder@[stakeholder].pool as int).cliffs,
        ensures
            self.distribute_spec(caller, stakeholder) == Err::<(), OtherErrorView>(
                OtherErrorView::CliffNotPassed,
            ),
    {
    }

    /// Each pool name that `payout_tokens` takes pays from the pool of that name; no other name
    /// pays at all.
    pub proof fn law_payout_pool_names(name: Seq<char>)
        ensures
            Self::payout_pool("PARTNERS"@) == Some(8int) && pool_spec(8).name@ == "partners"@,
            Self::payout_pool("COMMUNITY"@) == Some(9int) && pool_spec(9).name@
                == "community_sale"@,
            Self::payout_pool("PUBLIC"@) == Some(10int) && pool_spec(10).name@ == "public_sale"@,
            Self::payout_pool("PROCEEDS"@) == Some(11int) && pool_spec(11).name@ == "proceeds"@,
            name != "PARTNERS"@ && name != "COMMUNITY"@ && name != "PUBLIC"@ && name
                != "PROCEEDS"@ ==> Self::payout_pool(name) == None::<int>,
    {
        reveal_strlit("PARTNERS");
        reveal_strlit("COMMUNITY");
        reveal_strlit("PUBLIC");
        reveal_strlit("PROCEEDS");
        reveal_strlit("partners");
        reveal_strlit("community_sale");
        reveal_strlit("public_sale");
        reveal_strlit("proceeds");
        assert("COMMUNITY"@.len() != "PARTNERS"@.len());
        assert("PUBLIC"@.len() != "PARTNERS"@.len() && "PUBLIC"@.len() != "COMMUNITY"@.len());
        assert("PROCEEDS"@[1] != "PARTNERS"@[1]);
        assert("PROCEEDS"@.len() != "COMMUNITY"@.len() && "PROCEEDS"@.len() != "PUBLIC"@.len());
    }

    /// The pool accounting of a move: tokens leaving the owner enter circulation, tokens
    /// reaching the owner leave it into the rewards pool, and circulation changes by exactly
    /// what the owner's balance loses.
    pub proof fn law_transfer_accounting(
        &self,
        b: [u128; POOL_COUNT],
        from: AccountId,
        to: AccountId,
        value: u128,
    )
        requires
            self.wf(),
            self.transfer_spec_from(b, from, to, value) is Ok,
        ensures
            ({
                let (c, w) = self.transfer_spec_from(b, from, to, value)->Ok_0;
                let owner = self.owner_spec();
                &&& c == b@[CIRCULATING as int] + (if from == owner {
                    value as int
                } else {
                    0
                }) - (if to == owner {
                    value as int
                } else {
                    0
                })
                &&& w == b@[REWARDS as int] + (if to == owner {
                    value as int
                } else {
                    0
                })
                &&& c + amount_or_zero(moved(self.psp22.balances(), from, to, value), owner)
                    == b@[CIRCULATING as int] + self.psp22.balance(owner)
            }),
    {
        crate::storage::law_transfer_pool_accounting(
            b@[CIRCULATING as int],
            b@[REWARDS as int],
            self.owner_spec(),
            from,
            to,
            value,
        );
        crate::storage::law_move_keeps_circulation(
            self.psp22,
            self.owner_spec(),
            from,
            to,
            value,
            b@[CIRCULATING as int],
            b@[REWARDS as int],
        );
    }

    /// The rewards pool opens one monthly share, a 48th of its 300_000_000 tokens, per month:
    /// the owner's reward is refused as too early exactly when what has left the pool, the
    /// reward included, would pass the shares of the months passed, the current one included.
    pub proof fn law_reward_allowance_grows_monthly(
        &self,
        reward: u128,
        interlocker: AccountId,
        interlocker_is_contract: bool,
        months: u16,
    )
        requires
            self.rewards_spec() >= reward,
        ensures
            ({
                let given = 300_000_000_000_000_000_000_000_000int - self.rewards_spec();
                let allowed = (self.vest.monthspassed + 1) * 6_250_000_000_000_000_000_000_000int;
                let r = self.reward_spec(self.owner_spec(), reward, interlocker, interlocker_is_contract);
                &&& given + reward > allowed ==> r == Err::<u128, OtherErrorView>(
                    OtherErrorView::PayoutTooEarly,
                )
                &&& given + reward <= allowed ==> r != Err::<u128, OtherErrorView>(
                    OtherErrorView::PayoutTooEarly,
                )
            }),
            Self::reward_cap(months) == (months + 1) * 6_250_000_000_000_000_000_000_000int,
    {
    }

    /// An application whose code hash is the port's, on a port that is open to its operator,
    /// can connect on ports 0, 1 and 2, and on no port above 2.
    pub proof fn law_socket_ports(&self, hash: CodeHash, operator: AccountId, portnumber: u16)
        requires
            self.app.ports@.contains_key(portnumber),
            self.app.ports@[portnumber].application == hash,
            !self.app.ports@[portnumber].locked || operator == self.owner_spec(),
        ensures
            portnumber <= 2 ==> self.create_socket_spec(Some(hash), operator, portnumber) is Ok,
            portnumber > 2 ==> self.create_socket_spec(Some(hash), operator, portnumber) == Err::<
                (),
                OtherErrorView,
            >(OtherErrorView::InvalidPort),
    {
    }

    /// Constructor: mints the whole supply to `caller`, who becomes the owner, and fills the
    /// vesting pools.
    pub fn new_token(caller: AccountId, now: u64) -> (c: ILOCKmvp)
        requires
            !is_zero_address(caller),
            now + ONE_MONTH <= u64::MAX,
        ensures
            c.wf(),
            c.circulation_matches(),
            c.on_schedule(now as int),
            c.ownable.owner == caller,
            c.vest.monthspassed == 0,
            c.vest.nextpayout == now + ONE_MONTH,
            c.vest.stakeholder@ == Map::<AccountId, crate::storage::StakeholderData>::empty(),
            c.reward.total == 0,
            c.reward.interlocker@ == Map::<AccountId, u128>::empty(),
            forall|i: int|
                0 <= i < POOL_COUNT ==> c.balances@[i] == pool_spec(i).tokens * DECIMALS_POWER10,
            c.metadata.name matches Some(n) && n@ == ascii_bytes("Interlock Network"@),
            c.metadata.symbol matches Some(s) && s@ == ascii_bytes("ILOCK"@),
            c.metadata.decimals == TOKEN_DECIMALS,
            c.psp22.supply() == SUPPLY_CAP,
            sum_first(c.balances@, POOL_COUNT as nat) == c.psp22.supply(),
            c.psp22.balances() == Map::<AccountId, u128>::empty().insert(caller, SUPPLY_CAP),
            c.psp22.allowances() == Map::<(AccountId, AccountId), u128>::empty(),
            c.app.ports@ == Map::<u16, crate::ports::Port>::empty(),
            c.app.sockets@ == Map::<AccountId, crate::ports::Socket>::empty(),
            c.events@ == seq![Event::Transfer(Transfer { from: None, to: Some(caller), amount: SUPPLY_CAP })],
    {
        let mut psp22 = Psp22Data::new();
        let minted = psp22.mint_to(caller, SUPPLY_CAP);
        assert(minted is Ok);
        let mut events: Vec<Event> = Vec::new();
        events.push(make_transfer_event(None, Some(caller), SUPPLY_CAP));
        proof {
            reveal_strlit("Interlock Network");
            reveal_strlit("ILOCK");
        }
        let name = ascii_to_vec(token_name_text());
        let symbol = ascii_to_vec(token_symbol_text());
        let mut balances: [u128; POOL_COUNT] = [0u128; POOL_COUNT];
        let mut i: usize = 0;
        while i < POOL_COUNT
            invariant
                0 <= i <= POOL_COUNT,
                forall|j: int| 0 <= j < i ==> balances@[j] == pool_spec(j).tokens * DECIMALS_POWER10,
            decreases POOL_COUNT - i,
        {
            let p = pool_info(i as u8);
            balances[i] = p.tokens * DECIMALS_POWER10;
            i = i + 1;
        }
        proof {
            lemma_balances_allocated(balances@, POOL_COUNT as nat);
            law_allocations_cover_cap();
        }
        ILOCKmvp {
            psp22,
            ownable: OwnableData { owner: caller, _reserved: None },
            metadata: MetadataData {
                name: Some(name),
                symbol: Some(symbol),
                decimals: TOKEN_DECIMALS,
                _reserved: None,
            },
            reward: RewardData::new(),
            vest: VestData::new(now + ONE_MONTH),
            app: AppData::new(),
            balances,
            events,
        }
    }

}

} // verus!
