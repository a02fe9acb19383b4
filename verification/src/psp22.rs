use vstd::prelude::*;

use crate::account::{is_zero_address, AccountId};
use crate::table::{lemma_map_total_bounds, lemma_map_total_insert, map_total, Table};
use crate::text::bytes_debug;

verus! {

/// Errors of the PSP22 token standard.
#[derive(Debug, Clone, PartialEq, Eq)]
pub enum PSP22Error {
    /// Custom error type for cases where a contract adds its own restrictions.
    Custom(Vec<u8>),
    /// Returned if not enough balance to fulfill a request is available.
    InsufficientBalance,
    /// Returned if not enough allowance to fulfill a request is available.
    InsufficientAllowance,
    /// Returned if recipient's address is zero.
    ZeroRecipientAddress,
    /// Returned if sender's address is zero.
    ZeroSenderAddress,
    /// Returned if safe transfer check fails.
    SafeTransferCheckFailed(Vec<u8>),
}

/// What a PSP22 error says, with byte payloads as sequences.
pub enum PSP22ErrorView {
    Custom(Seq<u8>),
    InsufficientBalance,
    InsufficientAllowance,
    ZeroRecipientAddress,
    ZeroSenderAddress,
    SafeTransferCheckFailed(Seq<u8>),
}

impl View for PSP22Error {
    type V = PSP22ErrorView;

    open spec fn view(&self) -> PSP22ErrorView {
        match self {
            PSP22Error::Custom(b) => PSP22ErrorView::Custom(b@),
            PSP22Error::InsufficientBalance => PSP22ErrorView::InsufficientBalance,
            PSP22Error::InsufficientAllowance => PSP22ErrorView::InsufficientAllowance,
            PSP22Error::ZeroRecipientAddress => PSP22ErrorView::ZeroRecipientAddress,
            PSP22Error::ZeroSenderAddress => PSP22ErrorView::ZeroSenderAddress,
            PSP22Error::SafeTransferCheckFailed(b) => PSP22ErrorView::SafeTransferCheckFailed(b@),
        }
    }
}

/// A PSP22 result with its error taken by its view.
pub open spec fn psp22_result<T>(r: Result<T, PSP22Error>) -> Result<T, PSP22ErrorView> {
    match r {
        Ok(v) => Ok(v),
        Err(e) => Err(e@),
    }
}

/// The `Debug` text of a PSP22 error.
pub open spec fn psp22_error_debug(e: PSP22ErrorView) -> Seq<char> {
    match e {
        PSP22ErrorView::Custom(b) => "Custom("@ + bytes_debug(b) + ")"@,
        PSP22ErrorView::InsufficientBalance => "InsufficientBalance"@,
        PSP22ErrorView::InsufficientAllowance => "InsufficientAllowance"@,
        PSP22ErrorView::ZeroRecipientAddress => "ZeroRecipientAddress"@,
        PSP22ErrorView::ZeroSenderAddress => "ZeroSenderAddress"@,
        PSP22ErrorView::SafeTransferCheckFailed(b) => "SafeTransferCheckFailed("@ + bytes_debug(b)
            + ")"@,
    }
}

/// The PSP22 error that a caller who is not the owner gets.
pub open spec fn not_owner_error() -> PSP22ErrorView {
    crate::errors::other_to_psp22(crate::errors::OtherErrorView::CallerNotOwner)
}

/// Errors of the ownership extension.
#[derive(Debug, Clone, Copy, PartialEq, Eq)]
pub enum OwnableError {
    CallerIsNotOwner,
    NewOwnerIsZero,
}

/// The bytes of an ASCII string, one per character.
pub open spec fn ascii_bytes(s: Seq<char>) -> Seq<u8> {
    s.map_values(|c: char| c as u8)
}

/// Copies the bytes of an ASCII string literal into a vector.
pub fn ascii_to_vec(s: &str) -> (v: Vec<u8>)
    requires
        s.is_ascii(),
    ensures
        v@ == ascii_bytes(s@),
{
    let n = s.unicode_len();
    let mut v: Vec<u8> = Vec::new();
    let mut i: usize = 0;
    while i < n
        invariant
            n == s@.len(),
            s.is_ascii(),
            0 <= i <= n,
            v@ =~= ascii_bytes(s@.subrange(0, i as int)),
        decreases n - i,
    {
        let b = s.get_ascii(i);
        v.push(b);
        proof {
            assert(ascii_bytes(s@.subrange(0, i + 1)) =~= ascii_bytes(s@.subrange(0, i as int)).push(
                s@[i as int] as u8,
            ));
        }
        i = i + 1;
    }
    proof {
        assert(s@.subrange(0, n as int) =~= s@);
    }
    v
}

/// How a transfer on someone's behalf reports a refused move: a sender whose balance falls
/// short is reported as `InsufficientAllowance` (a short allowance is reported as
/// `InsufficientBalance`); other errors stay as they are.
pub open spec fn spent_error(e: PSP22ErrorView) -> PSP22ErrorView {
    if e == PSP22ErrorView::InsufficientBalance {
        PSP22ErrorView::InsufficientAllowance
    } else {
        e
    }
}

/// The amount stored for `k` in `m`, or zero when nothing is stored.
pub open spec fn amount_or_zero<K>(m: Map<K, u128>, k: K) -> u128 {
    if m.contains_key(k) {
        m[k]
    } else {
        0
    }
}

/// The token ledger of a PSP22 contract: supply, balances and allowances.
pub struct Psp22Data {
    supply: u128,
    balances: Table<AccountId, u128>,
    allowances: Table<(AccountId, AccountId), u128>,
}

impl Psp22Data {
    /// The number of tokens minted and not burned.
    pub closed spec fn supply(&self) -> u128 {
        self.supply
    }

    /// The stored balances.
    pub closed spec fn balances(&self) -> Map<AccountId, u128> {
        self.balances@
    }

    /// The stored allowances, keyed by (owner, spender).
    pub closed spec fn allowances(&self) -> Map<(AccountId, AccountId), u128> {
        self.allowances@
    }

    /// The sum of all balances.
    pub open spec fn held(&self) -> int {
        map_total(self.balances())
    }

    /// The balance of `a` (zero when nothing is stored).
    pub open spec fn balance(&self, a: AccountId) -> u128 {
        amount_or_zero(self.balances(), a)
    }

    /// The allowance that `owner` gave `spender` (zero when nothing is stored).
    pub open spec fn allowance_of(&self, owner: AccountId, spender: AccountId) -> u128 {
        amount_or_zero(self.allowances(), (owner, spender))
    }

    /// The accounts together never hold more tokens than the supply.
    pub open spec fn wf(&self) -> bool {
        self.held() <= self.supply()
    }

    /// Every single balance is at most the sum of all balances, which is not negative.
    pub proof fn lemma_balance_le_held(&self, a: AccountId)
        ensures
            0 <= self.balance(a) <= self.held(),
            0 <= self.held(),
    {
        self.balances.lemma_finite();
        lemma_map_total_bounds(self.balances(), a, a);
    }

    /// The balances of two different accounts add up to at most the sum of all balances.
    pub proof fn lemma_two_balances_le_held(&self, a: AccountId, b: AccountId)
        requires
            a != b,
        ensures
            self.balance(a) + self.balance(b) <= self.held(),
    {
        self.balances.lemma_finite();
        lemma_map_total_bounds(self.balances(), a, b);
        lemma_map_total_bounds(self.balances(), b, a);
    }

    /// An empty ledger.
    pub fn new() -> (d: Psp22Data)
        ensures
            d.wf(),
            d.supply() == 0,
            d.held() == 0,
            d.balances() == Map::<AccountId, u128>::empty(),
            d.allowances() == Map::<(AccountId, AccountId), u128>::empty(),
    {
        let d = Psp22Data { supply: 0, balances: Table::new(), allowances: Table::new() };
        assert(d.balances().dom() =~= Set::<AccountId>::empty());
        d
    }

    /// The number of tokens minted and not burned.
    pub fn total_supply(&self) -> (r: u128)
        ensures
            r == self.supply(),
    {
        self.supply
    }

    /// The balance of `owner`.
    pub fn balance_of(&self, owner: AccountId) -> (r: u128)
        ensures
            r == self.balance(owner),
    {
        match self.balances.get(&owner) {
            Some(b) => b,
            None => 0,
        }
    }

    /// The allowance that `owner` gave `spender`.
    pub fn allowance(&self, owner: AccountId, spender: AccountId) -> (r: u128)
        ensures
            r == self.allowance_of(owner, spender),
    {
        match self.allowances.get(&(owner, spender)) {
            Some(b) => b,
            None => 0,
        }
    }

    /// Writes the balance of `account` directly.
    pub fn set_balance(&mut self, account: AccountId, value: u128)
        ensures
            final(self).balances() == old(self).balances().insert(account, value),
            final(self).held() == old(self).held() - old(self).balance(account) + value,
            final(self).supply() == old(self).supply(),
            final(self).allowances() == old(self).allowances(),
    {
        proof {
            self.balances.lemma_finite();
            lemma_map_total_insert(self.balances(), account, value);
        }
        self.balances.insert(account, value);
    }

    /// Writes the allowance that `owner` gives `spender` directly.
    pub fn set_allowance(&mut self, owner: AccountId, spender: AccountId, value: u128)
        ensures
            final(self).allowances() == old(self).allowances().insert((owner, spender), value),
            final(self).balances() == old(self).balances(),
            final(self).held() == old(self).held(),
            final(self).supply() == old(self).supply(),
    {
        self.allowances.insert((owner, spender), value);
    }

    /// What a transfer of `amount` from `from` to `to` would answer, without making it.
    pub fn check_transfer(&self, from: AccountId, to: AccountId, amount: u128) -> (r: Result<
        (),
        PSP22Error,
    >)
        ensures
            r == transfer_outcome(*self, from, to, amount),
    {
        if from.is_zero() {
            return Err(PSP22Error::ZeroSenderAddress);
        }
        if to.is_zero() {
            return Err(PSP22Error::ZeroRecipientAddress);
        }
        if self.balance_of(from) < amount {
            return Err(PSP22Error::InsufficientBalance);
        }
        Ok(())
    }

    /// What burning `amount` tokens of `account` would answer, without doing it.
    pub fn check_burn(&self, account: AccountId, amount: u128) -> (r: Result<(), PSP22Error>)
        ensures
            r == burn_outcome(*self, account, amount),
    {
        if account.is_zero() {
            return Err(PSP22Error::ZeroRecipientAddress);
        }
        if self.balance_of(account) < amount {
            return Err(PSP22Error::InsufficientBalance);
        }
        Ok(())
    }

    /// Moves `amount` tokens from `from` to `to`.
    pub fn transfer_from_to(&mut self, from: AccountId, to: AccountId, amount: u128) -> (r: Result<
        (),
        PSP22Error,
    >)
        requires
            old(self).wf(),
        ensures
            final(self).wf(),
            r == transfer_outcome(*old(self), from, to, amount),
            r is Err ==> *final(self) == *old(self),
            r is Ok ==> {
                &&& final(self).balances() == moved(old(self).balances(), from, to, amount)
                &&& final(self).held() == old(self).held()
                &&& final(self).supply() == old(self).supply()
                &&& final(self).allowances() == old(self).allowances()
            },
    {
        if from.is_zero() {
            return Err(PSP22Error::ZeroSenderAddress);
        }
        if to.is_zero() {
            return Err(PSP22Error::ZeroRecipientAddress);
        }
        let from_balance = self.balance_of(from);
        if from_balance < amount {
            return Err(PSP22Error::InsufficientBalance);
        }
        self.set_balance(from, from_balance - amount);
        let to_balance = self.balance_of(to);
        proof {
            self.lemma_balance_le_held(to);
        }
        self.set_balance(to, to_balance + amount);
        Ok(())
    }

    /// Sets the allowance that `owner` gives `spender` to `amount`.
    pub fn approve_from_to(&mut self, owner: AccountId, spender: AccountId, amount: u128) -> (r:
        Result<(), PSP22Error>)
        ensures
            r == approve_outcome(owner, spender),
            r is Err ==> *final(self) == *old(self),
            r is Ok ==> final(self).allowances() == old(self).allowances().insert(
                (owner, spender),
                amount,
            ),
            final(self).balances() == old(self).balances(),
            final(self).held() == old(self).held(),
            final(self).supply() == old(self).supply(),
    {
        if owner.is_zero() {
            return Err(PSP22Error::ZeroSenderAddress);
        }
        if spender.is_zero() {
            return Err(PSP22Error::ZeroRecipientAddress);
        }
        self.allowances.insert((owner, spender), amount);
        Ok(())
    }

    /// Creates `amount` new tokens held by `account`.
    pub fn mint_to(&mut self, account: AccountId, amount: u128) -> (r: Result<(), PSP22Error>)
        requires
            old(self).wf(),
            old(self).supply() + amount <= u128::MAX,
        ensures
            final(self).wf(),
            r == (if is_zero_address(account) {
                Err::<(), PSP22Error>(PSP22Error::ZeroRecipientAddress)
            } else {
                Ok(())
            }),
            r is Err ==> *final(self) == *old(self),
            r is Ok ==> {
                &&& final(self).balances() == old(self).balances().insert(
                    account,
                    (old(self).balance(account) + amount) as u128,
                )
                &&& final(self).supply() == old(self).supply() + amount
                &&& final(self).held() == old(self).held() + amount
                &&& final(self).allowances() == old(self).allowances()
            },
    {
        if account.is_zero() {
            return Err(PSP22Error::ZeroRecipientAddress);
        }
        let balance = self.balance_of(account);
        proof {
            self.lemma_balance_le_held(account);
        }
        self.set_balance(account, balance + amount);
        self.supply = self.supply + amount;
        Ok(())
    }

    /// Destroys `amount` tokens held by `account`.
    pub fn burn_from(&mut self, account: AccountId, amount: u128) -> (r: Result<(), PSP22Error>)
        requires
            old(self).wf(),
        ensures
            final(self).wf(),
            r == burn_outcome(*old(self), account, amount),
            r is Err ==> *final(self) == *old(self),
            r is Ok ==> {
                &&& final(self).balances() == old(self).balances().insert(
                    account,
                    (old(self).balance(account) - amount) as u128,
                )
                &&& final(self).supply() == old(self).supply() - amount
                &&& final(self).held() == old(self).held() - amount
                &&& final(self).allowances() == old(self).allowances()
            },
    {
        if account.is_zero() {
            return Err(PSP22Error::ZeroRecipientAddress);
        }
        let balance = self.balance_of(account);
        if balance < amount {
            return Err(PSP22Error::InsufficientBalance);
        }
        proof {
            self.lemma_balance_le_held(account);
        }
        self.set_balance(account, balance - amount);
        self.supply = self.supply - amount;
        Ok(())
    }
}

/// The balances after `amount` moves from `from` to `to`: `from` is debited first, then `to`
/// is credited from what it holds at that point.
pub open spec fn moved(m: Map<AccountId, u128>, from: AccountId, to: AccountId, amount: u128) -> Map<
    AccountId,
    u128,
> {
    let debited = m.insert(from, (amount_or_zero(m, from) - amount) as u128);
    debited.insert(to, (amount_or_zero(debited, to) + amount) as u128)
}

/// A transfer between two different accounts takes `amount` from the sender and gives it to
/// the recipient, and leaves every other balance as it was; a transfer to oneself changes no
/// balance at all.
pub proof fn law_transfer_moves_balance(
    m: Map<AccountId, u128>,
    from: AccountId,
    to: AccountId,
    amount: u128,
    other: AccountId,
)
    requires
        amount <= amount_or_zero(m, from),
        from != to ==> amount_or_zero(m, to) + amount <= u128::MAX,
    ensures
        from != to ==> amount_or_zero(moved(m, from, to, amount), from) == amount_or_zero(m, from)
            - amount,
        from != to ==> amount_or_zero(moved(m, from, to, amount), to) == amount_or_zero(m, to)
            + amount,
        other != from && other != to ==> amount_or_zero(moved(m, from, to, amount), other)
            == amount_or_zero(m, other),
        from == to ==> amount_or_zero(moved(m, from, to, amount), other) == amount_or_zero(
            m,
            other,
        ),
{
}

/// A read of an allowance gives back what was last approved for that pair, and approving one
/// pair leaves every other allowance as it was.
pub proof fn law_allowance_read_after_approve(
    m: Map<(AccountId, AccountId), u128>,
    owner: AccountId,
    spender: AccountId,
    amount: u128,
    other: (AccountId, AccountId),
)
    ensures
        amount_or_zero(m.insert((owner, spender), amount), (owner, spender)) == amount,
        other != (owner, spender) ==> amount_or_zero(m.insert((owner, spender), amount), other)
            == amount_or_zero(m, other),
{
}

/// The balances after `amount` is paid from `payer` to `payee` by writing both balances:
/// `payee` is credited first, then `payer` is debited from what it holds at that point.
pub open spec fn paid_out(m: Map<AccountId, u128>, payer: AccountId, payee: AccountId, amount: u128) -> Map<
    AccountId,
    u128,
> {
    let credited = m.insert(payee, (amount_or_zero(m, payee) + amount) as u128);
    credited.insert(payer, (amount_or_zero(credited, payer) - amount) as u128)
}

/// What a transfer of `amount` from `from` to `to` answers on the ledger `d`.
pub open spec fn transfer_outcome(d: Psp22Data, from: AccountId, to: AccountId, amount: u128) -> Result<
    (),
    PSP22Error,
> {
    if is_zero_address(from) {
        Err(PSP22Error::ZeroSenderAddress)
    } else if is_zero_address(to) {
        Err(PSP22Error::ZeroRecipientAddress)
    } else if d.balance(from) < amount {
        Err(PSP22Error::InsufficientBalance)
    } else {
        Ok(())
    }
}

/// What burning `amount` tokens of `account` answers on the ledger `d`.
pub open spec fn burn_outcome(d: Psp22Data, account: AccountId, amount: u128) -> Result<(), PSP22Error> {
    if is_zero_address(account) {
        Err(PSP22Error::ZeroRecipientAddress)
    } else if d.balance(account) < amount {
        Err(PSP22Error::InsufficientBalance)
    } else {
        Ok(())
    }
}

/// What setting an allowance from `owner` to `spender` answers.
pub open spec fn approve_outcome(owner: AccountId, spender: AccountId) -> Result<(), PSP22Error> {
    if is_zero_address(owner) {
        Err(PSP22Error::ZeroSenderAddress)
    } else if is_zero_address(spender) {
        Err(PSP22Error::ZeroRecipientAddress)
    } else {
        Ok(())
    }
}

} // verus!

