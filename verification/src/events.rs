use vstd::prelude::*;

use crate::account::AccountId;

verus! {

/// Tokens moved: `from` is `None` for newly minted tokens, `to` is `None` for burned ones.
#[derive(Debug, Clone, Copy, PartialEq, Eq)]
pub struct Transfer {
    pub from: Option<AccountId>,
    pub to: Option<AccountId>,
    pub amount: u128,
}

/// An allowance was set.
#[derive(Debug, Clone, Copy, PartialEq, Eq)]
pub struct Approval {
    pub owner: Option<AccountId>,
    pub spender: Option<AccountId>,
    pub amount: u128,
}

/// An Interlocker was rewarded.
#[derive(Debug, Clone, Copy, PartialEq, Eq)]
pub struct Reward {
    pub to: Option<AccountId>,
    pub amount: u128,
}

/// The events that the token contracts emit.
#[derive(Debug, Clone, Copy, PartialEq, Eq)]
pub enum Event {
    Transfer(Transfer),
    Approval(Approval),
    Reward(Reward),
}

/// The event for `amount` tokens moving from `from` to `to`.
pub open spec fn transfer_event(from: AccountId, to: AccountId, amount: u128) -> Event {
    Event::Transfer(Transfer { from: Some(from), to: Some(to), amount })
}

/// The event for `owner` letting `spender` spend `amount`.
pub open spec fn approval_event(owner: AccountId, spender: AccountId, amount: u128) -> Event {
    Event::Approval(Approval { owner: Some(owner), spender: Some(spender), amount })
}

pub fn make_transfer_event(from: Option<AccountId>, to: Option<AccountId>, amount: u128) -> (e:
    Event)
    ensures
        e == Event::Transfer(Transfer { from, to, amount }),
{
    Event::Transfer(Transfer { from, to, amount })
}

pub fn make_approval_event(owner: AccountId, spender: AccountId, amount: u128) -> (e: Event)
    ensures
        e == approval_event(owner, spender, amount),
{
    Event::Approval(Approval { owner: Some(owner), spender: Some(spender), amount })
}

} // verus!
