use vstd::prelude::*;

use crate::account::AccountId;
use crate::psp22::{amount_or_zero, law_transfer_moves_balance, moved, Psp22Data};
use crate::errors::{other_result, OtherError, OtherErrorView};
use crate::table::{map_total, Table};

verus! {

/// Milliseconds in 30 days.
pub const ONE_MONTH: u64 = 2_592_000_000;

/// The vesting parameters of a token pool.
#[derive(Debug, Clone, Copy, PartialEq, Eq)]
pub struct PoolData<'a> {
    pub name: &'a str,
    pub tokens: u128,
    pub vests: u8,
    pub cliffs: u8,
}

/// What is known of a stakeholder besides its balance.
#[derive(Debug, Clone, Copy, Default, PartialEq, Eq)]
pub struct StakeholderData {
    /// How much so far has this stakeholder been paid in ILOCK?
    pub paid: u128,
    /// What is the overall ILOCK token share for this stakeholder?
    pub share: u128,
    /// Which vesting pool does this stakeholder belong to?
    pub pool: u8,
}

/// The payment that a stakeholder is owed now, and its new paid total, for a pool with `vests`
/// monthly payments after a cliff of `cliffs` months; the last payment adds what floor division
/// left over. A pool without vests, or a share too small for a monthly payment of one unit,
/// answers `DivError`.
pub open spec fn payout_rule(s: StakeholderData, monthspassed: u16, vests: u8, cliffs: u8) -> Result<
    (u128, u128),
    OtherErrorView,
> {
    if monthspassed < cliffs {
        Err(OtherErrorView::CliffNotPassed)
    } else if s.paid == s.share {
        Err(OtherErrorView::StakeholderSharePaid)
    } else if vests == 0 || s.share / (vests as u128) == 0 {
        Err(OtherErrorView::DivError)
    } else {
        let payout = s.share / (vests as u128);
        if s.paid / payout >= monthspassed {
            Err(OtherErrorView::PayoutTooEarly)
        } else if s.paid + payout > u128::MAX {
            Err(OtherErrorView::Overflow)
        } else if s.share < s.paid + payout {
            Err(OtherErrorView::Underflow)
        } else {
            let remaining = s.share - (s.paid + payout);
            if remaining < payout {
                Ok(((payout + remaining) as u128, s.share))
            } else {
                Ok((payout, (s.paid + payout) as u128))
            }
        }
    }
}

/// A payment by the vesting schedule is never zero, adds exactly the payment to what the
/// stakeholder was paid, and never takes the paid total past the stakeholder's share.
pub proof fn law_payout_within_share(s: StakeholderData, monthspassed: u16, vests: u8, cliffs: u8)
    ensures
        payout_rule(s, monthspassed, vests, cliffs) matches Ok((payout, paid)) ==> {
            &&& payout > 0
            &&& paid == s.paid + payout
            &&& paid <= s.share
            &&& (paid < s.share ==> s.share - paid >= s.share / (vests as u128))
        },
{
}

/// No payment before the cliff: while fewer months than the pool's cliff have passed, the
/// schedule answers `CliffNotPassed` and pays nothing, whatever the stakeholder.
pub proof fn law_cliff_holds_back_payment(s: StakeholderData, monthspassed: u16, vests: u8, cliffs: u8)
    requires
        monthspassed < cliffs,
    ensures
        payout_rule(s, monthspassed, vests, cliffs) == Err::<(u128, u128), OtherErrorView>(
            OtherErrorView::CliffNotPassed,
        ),
{
}

/// Once the cliff has passed, a payment is due this month and a whole monthly payment
/// (`share / vests`) is still unpaid, the stakeholder is paid exactly one monthly payment, plus
/// what floor division left over when this is the last one.
pub proof fn law_payout_is_monthly_share(s: StakeholderData, monthspassed: u16, vests: u8, cliffs: u8)
    requires
        cliffs <= monthspassed,
        vests >= 1,
        s.share / (vests as u128) > 0,
        s.paid + s.share / (vests as u128) <= s.share,
        s.paid / (s.share / (vests as u128)) < monthspassed,
    ensures
        ({
            let monthly = s.share / (vests as u128);
            payout_rule(s, monthspassed, vests, cliffs) == if s.share - s.paid - monthly < monthly {
                Ok::<(u128, u128), OtherErrorView>(((s.share - s.paid) as u128, s.share))
            } else {
                Ok((monthly, (s.paid + monthly) as u128))
            }
        }),
{
}

/// The stakeholder has not been paid ahead of its schedule: where the monthly payment is at
/// least one unit, what it was paid is a whole number of monthly payments (or its whole share),
/// and no more monthly payments than months have passed.
pub open spec fn paid_on_time(s: StakeholderData, vests: u8, monthspassed: u16) -> bool {
    vests >= 1 && s.share / (vests as u128) > 0 ==> {
        let payout = s.share / (vests as u128);
        &&& s.paid / payout <= monthspassed
        &&& (s.paid == s.share || s.paid % payout == 0)
    }
}

/// One monthly payment past a whole number of payments, plus less than a payment, counts one
/// payment more.
proof fn lemma_next_payment(a: int, p: int, r: int)
    requires
        p > 0,
        a >= 0,
        a % p == 0,
        0 <= r < p,
    ensures
        (a + p + r) / p == a / p + 1,
        (a + p) / p == a / p + 1,
        (a + p) % p == 0,
{
    let q = a / p;
    vstd::arithmetic::div_mod::lemma_fundamental_div_mod(a, p);
    assert(a + p + r == p * (q + 1) + r && a + p == p * (q + 1) + 0) by (nonlinear_arith)
        requires
            a == p * q + a % p,
            a % p == 0,
    ;
    vstd::arithmetic::div_mod::lemma_div_multiples_vanish_fancy(q + 1, r, p);
    vstd::arithmetic::div_mod::lemma_div_multiples_vanish_fancy(q + 1, 0, p);
    vstd::arithmetic::div_mod::lemma_mod_multiples_vanish(q + 1, 0, p);
}

/// A payment by the vesting schedule never runs ahead of the months passed: a stakeholder paid
/// on time before it is paid on time after it.
pub proof fn law_payout_on_time(s: StakeholderData, monthspassed: u16, vests: u8, cliffs: u8)
    requires
        paid_on_time(s, vests, monthspassed),
    ensures
        payout_rule(s, monthspassed, vests, cliffs) matches Ok((payout, paid)) ==> paid_on_time(
            StakeholderData { paid, ..s },
            vests,
            monthspassed,
        ),
{
    if let Ok((payout, paid)) = payout_rule(s, monthspassed, vests, cliffs) {
        let p = s.share / (vests as u128);
        let remaining = s.share - (s.paid + p);
        if remaining < p {
            lemma_next_payment(s.paid as int, p as int, remaining);
        } else {
            lemma_next_payment(s.paid as int, p as int, 0);
        }
    }
}

/// The sum of the first `n` entries of `s`.
pub open spec fn sum_first(s: Seq<u128>, n: nat) -> int
    decreases n,
{
    if n == 0 {
        0
    } else {
        sum_first(s, (n - 1) as nat) + s[n - 1]
    }
}

/// Computes `payout_rule`.
pub fn plan_payout(s: StakeholderData, monthspassed: u16, vests: u8, cliffs: u8) -> (r: Result<
    (u128, u128),
    OtherError,
>)
    ensures
        other_result(r) == payout_rule(s, monthspassed, vests, cliffs),
{
    if monthspassed < cliffs as u16 {
        return Err(OtherError::CliffNotPassed);
    }
    if s.paid == s.share {
        return Err(OtherError::StakeholderSharePaid);
    }
    let mut payout: u128 = match s.share.checked_div(vests as u128) {
        Some(quotient) => quotient,
        None => return Err(OtherError::DivError),
    };
    let payments = match s.paid.checked_div(payout) {
        Some(quotient) => quotient,
        None => return Err(OtherError::DivError),
    };
    if payments >= monthspassed as u128 {
        return Err(OtherError::PayoutTooEarly);
    }
    let mut newpaidtotal: u128 = match s.paid.checked_add(payout) {
        Some(sum) => sum,
        None => return Err(OtherError::Overflow),
    };
    let remainingshare: u128 = match s.share.checked_sub(newpaidtotal) {
        Some(difference) => difference,
        None => return Err(OtherError::Underflow),
    };
    if remainingshare < payout {
        payout = payout + remainingshare;
        newpaidtotal = s.share;
    }
    Ok((payout, newpaidtotal))
}

/// Pool accounting of a move of `value` tokens from `from` to `to`, as (circulating, rewards):
/// tokens leaving the owner enter circulation; tokens reaching the owner leave circulation
/// and go to the rewards pool.
pub open spec fn transfer_pool_rule(
    circulating: u128,
    rewards: u128,
    owner: AccountId,
    from: AccountId,
    to: AccountId,
    value: u128,
) -> Result<(u128, u128), OtherErrorView> {
    if from == owner && circulating + value > u128::MAX {
        Err(OtherErrorView::Overflow)
    } else {
        let c = if from == owner {
            (circulating + value) as u128
        } else {
            circulating
        };
        if to == owner {
            if rewards + value > u128::MAX {
                Err(OtherErrorView::Overflow)
            } else if c < value {
                Err(OtherErrorView::Underflow)
            } else {
                Ok(((c - value) as u128, (rewards + value) as u128))
            }
        } else {
            Ok((c, rewards))
        }
    }
}

/// The pool accounting of a move: tokens leaving the owner enter circulation, tokens reaching
/// the owner leave circulation into the rewards pool, and nothing else changes them.
pub proof fn law_transfer_pool_accounting(
    circulating: u128,
    rewards: u128,
    owner: AccountId,
    from: AccountId,
    to: AccountId,
    value: u128,
)
    requires
        transfer_pool_rule(circulating, rewards, owner, from, to, value) is Ok,
    ensures
        transfer_pool_rule(circulating, rewards, owner, from, to, value)->Ok_0.0 == circulating + (
        if from == owner {
            value as int
        } else {
            0
        }) - (if to == owner {
            value as int
        } else {
            0
        }),
        transfer_pool_rule(circulating, rewards, owner, from, to, value)->Ok_0.1 == rewards + (
        if to == owner {
            value as int
        } else {
            0
        }),
{
}

/// A move with the owner's pool accounting changes the circulating supply by exactly what the
/// owner's balance loses, so that circulation keeps counting the tokens outside the owner.
pub proof fn law_move_keeps_circulation(
    d: Psp22Data,
    owner: AccountId,
    from: AccountId,
    to: AccountId,
    value: u128,
    circulating: u128,
    rewards: u128,
)
    requires
        d.wf(),
        d.balance(from) >= value,
        transfer_pool_rule(circulating, rewards, owner, from, to, value) is Ok,
    ensures
        transfer_pool_rule(circulating, rewards, owner, from, to, value)->Ok_0.0 + amount_or_zero(
            moved(d.balances(), from, to, value),
            owner,
        ) == circulating + d.balance(owner),
{
    if from != to {
        d.lemma_two_balances_le_held(from, to);
    }
    law_transfer_moves_balance(d.balances(), from, to, value, owner);
}

/// Vesting state: stakeholders and the month counter of the vesting schedule.
pub struct VestData {
    /// Stakeholder account address to stakeholder data.
    pub stakeholder: Table<AccountId, StakeholderData>,
    /// How many months have passed along the vesting schedule.
    pub monthspassed: u16,
    /// The timestamp one month ahead of the last increment of `monthspassed`.
    pub nextpayout: u64,
    pub _reserved: Option<()>,
}

impl VestData {
    /// No stakeholder has been paid more than its share.
    pub open spec fn payouts_within_shares(&self) -> bool {
        forall|a: AccountId|
            #[trigger] self.stakeholder@.contains_key(a) ==> self.stakeholder@[a].paid
                <= self.stakeholder@[a].share
    }

    pub fn new(nextpayout: u64) -> (v: VestData)
        ensures
            v.stakeholder@ == Map::<AccountId, StakeholderData>::empty(),
            v.payouts_within_shares(),
            v.monthspassed == 0,
            v.nextpayout == nextpayout,
    {
        VestData { stakeholder: Table::new(), monthspassed: 0, nextpayout, _reserved: None }
    }

    /// Advances the schedule by one month if `now` lies past the next payout time; answers
    /// whether it did.
    pub fn check_time(&mut self, now: u64) -> (advanced: bool)
        requires
            now > old(self).nextpayout ==> old(self).nextpayout + ONE_MONTH <= u64::MAX
                && old(self).monthspassed < u16::MAX,
        ensures
            advanced == (now > old(self).nextpayout),
            advanced ==> final(self).nextpayout == old(self).nextpayout + ONE_MONTH
                && final(self).monthspassed == old(self).monthspassed + 1,
            !advanced ==> final(self).nextpayout == old(self).nextpayout
                && final(self).monthspassed == old(self).monthspassed,
            final(self).stakeholder == old(self).stakeholder,
    {
        if now > self.nextpayout {
            self.nextpayout = self.nextpayout + ONE_MONTH;
            self.monthspassed = self.monthspassed + 1;
            true
        } else {
            false
        }
    }

    /// Time until the next payout, or zero when it has come.
    pub fn remaining_time(&self, now: u64) -> (r: u64)
        ensures
            r == (if self.nextpayout >= now { self.nextpayout - now } else { 0 }),
    {
        match self.nextpayout.checked_sub(now) {
            Some(difference) => difference,
            None => 0,
        }
    }
}

/// Rewards paid to Interlockers.
pub struct RewardData {
    /// How much ILOCK has been rewarded to each Interlocker.
    pub interlocker: Table<AccountId, u128>,
    /// How much ILOCK has been rewarded in total.
    pub total: u128,
    pub _reserved: Option<()>,
}

impl RewardData {
    /// The rewarded total is the sum of what each Interlocker has been rewarded.
    pub open spec fn totals_agree(&self) -> bool {
        self.total == map_total(self.interlocker@)
    }

    pub fn new() -> (r: RewardData)
        ensures
            r.interlocker@ == Map::<AccountId, u128>::empty(),
            r.total == 0,
            r.totals_agree(),
    {
        let r = RewardData { interlocker: Table::new(), total: 0, _reserved: None };
        assert(r.interlocker@.dom() =~= Set::<AccountId>::empty());
        r
    }

    /// How much has been rewarded to `interlocker` (zero if nothing).
    pub fn rewarded(&self, interlocker: AccountId) -> (r: u128)
        ensures
            r == amount_or_zero(self.interlocker@, interlocker),
    {
        match self.interlocker.get(&interlocker) {
            Some(total) => total,
            None => 0,
        }
    }
}

/// Who owns the contract.
pub struct OwnableData {
    pub owner: AccountId,
    pub _reserved: Option<()>,
}

/// Name, symbol and decimals of the token.
pub struct MetadataData {
    pub name: Option<Vec<u8>>,
    pub symbol: Option<Vec<u8>>,
    pub decimals: u8,
    pub _reserved: Option<()>,
}

} // verus!
