use ilockmvp::account::AccountId;
use ilockmvp::errors::OtherError;
use ilockmvp::ilockmvp_pools::{
    pool_info, ILOCKmvp, CIRCULATING, DECIMALS_POWER10, PARTNERS,
    POOL_COUNT, PRESALE_1, REWARDS, SUPPLY_CAP, TOKEN_CAP,
};
use ilockmvp::psp22::{OwnableError, PSP22Error};

fn alice() -> AccountId {
    AccountId([1u8; 32])
}

fn bob() -> AccountId {
    AccountId([2u8; 32])
}

fn charlie() -> AccountId {
    AccountId([3u8; 32])
}

fn not_owner() -> OtherError {
    OtherError::CallerNotOwner
}

#[test]
fn pools_new_token_holds_whole_supply() {
    let contract = ILOCKmvp::new_token(alice(), 0);

    let mut pooled: u128 = 0;
    let mut allocated: u128 = 0;
    for pool in 0..POOL_COUNT {
        pooled += contract.pool_balance(pool as u8).1;
        allocated += pool_info(pool as u8).tokens;
    }
    assert_eq!(allocated, TOKEN_CAP);
    assert_eq!(pooled, SUPPLY_CAP);
    assert_eq!(contract.balance_of(alice()), SUPPLY_CAP);
    assert_eq!(contract.total_supply(), 0);
    assert_eq!(contract.pool_balance(CIRCULATING).1, 0);
    assert_eq!(contract.cap(), SUPPLY_CAP);
}

#[test]
fn pools_owner_cannot_transfer() {
    let mut contract = ILOCKmvp::new_token(alice(), 0);

    assert_eq!(
        contract.transfer(alice(), bob(), 1, Vec::new()),
        Err(PSP22Error::Custom(b"CallerIsOwner".to_vec()))
    );
    assert_eq!(contract.balance_of(bob()), 0);
}

#[test]
fn pools_payout_moves_tokens_into_circulation() {
    let mut contract = ILOCKmvp::new_token(alice(), 0);

    assert_eq!(contract.payout_tokens(alice(), bob(), 1000, "PARTNERS".to_string()), Ok(()));
    assert_eq!(contract.balance_of(bob()), 1000);
    assert_eq!(contract.balance_of(alice()), SUPPLY_CAP - 1000);
    assert_eq!(
        contract.pool_balance(PARTNERS).1,
        pool_info(PARTNERS).tokens * DECIMALS_POWER10 - 1000
    );
    assert_eq!(contract.total_supply(), 1000);
    assert_eq!(contract.events.len(), 1);

    assert_eq!(
        contract.payout_tokens(alice(), bob(), 1000, "WHITELIST".to_string()),
        Err(OtherError::InvalidPool)
    );
    assert_eq!(
        contract.payout_tokens(bob(), bob(), 1000, "PARTNERS".to_string()),
        Err(not_owner())
    );
    assert_eq!(
        contract.payout_tokens(alice(), bob(), 1, "PROCEEDS".to_string()),
        Err(OtherError::PaymentTooLarge)
    );
}

#[test]
fn pools_transfer_to_owner_feeds_rewards() {
    let mut contract = ILOCKmvp::new_token(alice(), 0);
    let rewards = contract.pool_balance(REWARDS).1;

    assert_eq!(contract.payout_tokens(alice(), bob(), 1000, "PUBLIC".to_string()), Ok(()));
    assert_eq!(contract.transfer(bob(), alice(), 400, Vec::new()), Ok(()));
    assert_eq!(contract.total_supply(), 600);
    assert_eq!(contract.pool_balance(REWARDS).1, rewards + 400);
    assert_eq!(contract.balance_of(bob()), 600);

    assert_eq!(contract.transfer(bob(), charlie(), 601, Vec::new()), Err(PSP22Error::InsufficientBalance));
}

#[test]
fn pools_transfer_from_spends_allowance() {
    let mut contract = ILOCKmvp::new_token(alice(), 0);
    assert_eq!(contract.payout_tokens(alice(), bob(), 1000, "COMMUNITY".to_string()), Ok(()));

    assert_eq!(contract.approve(bob(), charlie(), 300), Ok(()));
    assert_eq!(contract.transfer_from(charlie(), bob(), charlie(), 300, Vec::new()), Ok(()));
    assert_eq!(contract.allowance(bob(), charlie()), 0);
    assert_eq!(contract.balance_of(charlie()), 300);
    assert_eq!(contract.balance_of(bob()), 700);
}

#[test]
fn pools_transfer_ownership_moves_owner_tokens() {
    let mut contract = ILOCKmvp::new_token(alice(), 0);

    assert_eq!(contract.transfer_ownership(bob(), charlie()), Err(OwnableError::CallerIsNotOwner));
    assert_eq!(contract.transfer_ownership(alice(), charlie()), Ok(()));
    assert_eq!(contract.owner(), charlie());
    assert_eq!(contract.balance_of(charlie()), SUPPLY_CAP);
    assert_eq!(contract.balance_of(alice()), 0);
}

#[test]
fn pools_reward_interlocker() {
    let mut contract = ILOCKmvp::new_token(alice(), 0);
    let rewards = contract.pool_balance(REWARDS).1;

    assert_eq!(contract.reward_interlocker(alice(), 1000, bob(), false), Ok(1000));
    assert_eq!(contract.balance_of(bob()), 1000);
    assert_eq!(contract.pool_balance(REWARDS).1, rewards - 1000);
    assert_eq!(contract.total_supply(), 1000);
    assert_eq!(contract.rewarded_total(), 1000);
    assert_eq!(contract.rewarded_interlocker_total(bob()), 1000);

    assert_eq!(
        contract.reward_interlocker(alice(), 1000, bob(), true),
        Err(OtherError::CannotRewardContract)
    );
    let monthly = rewards / pool_info(REWARDS).vests as u128;
    assert_eq!(
        contract.reward_interlocker(alice(), monthly, bob(), false),
        Err(OtherError::PayoutTooEarly)
    );
    assert_eq!(contract.reward_interlocker(bob(), 1, bob(), false), Err(not_owner()));
    assert_eq!(contract.rewarded_total(), 1000);
}

#[test]
fn pools_distribute_tokens() {
    let mut contract = ILOCKmvp::new_token(alice(), 0);
    let pool_start = contract.pool_balance(PRESALE_1).1;

    assert_eq!(contract.register_stakeholder(alice(), bob(), 1_800_000, PRESALE_1), Ok(()));
    assert_eq!(contract.distribute_tokens(alice(), bob()), Err(OtherError::CliffNotPassed));
    assert_eq!(contract.TESTING_increment_month(alice()), Ok(true));
    assert_eq!(contract.distribute_tokens(alice(), bob()), Ok(()));
    assert_eq!(contract.balance_of(bob()), 100_000);
    assert_eq!(contract.pool_balance(PRESALE_1).1, pool_start - 100_000);
    assert_eq!(contract.total_supply(), 100_000);
    assert_eq!(contract.stakeholder_data(bob()).0.paid, 100_000);
    assert_eq!(contract.distribute_tokens(alice(), bob()), Err(OtherError::PayoutTooEarly));
    assert_eq!(contract.distribute_tokens(alice(), charlie()), Err(OtherError::StakeholderNotFound));
}

#[test]
fn pools_allocation_law_holds_on_the_table() {
    let mut total: u128 = 0;
    for pool in 0..POOL_COUNT {
        total += pool_info(pool as u8).tokens;
    }
    assert_eq!(total * DECIMALS_POWER10, SUPPLY_CAP);
}

#[test]
fn pools_transfer_ownership_to_self_keeps_balance() {
    let mut contract = ILOCKmvp::new_token(alice(), 0);
    assert_eq!(contract.transfer_ownership(alice(), alice()), Ok(()));
    assert_eq!(contract.owner(), alice());
    assert_eq!(contract.balance_of(alice()), SUPPLY_CAP);
}

#[test]
fn pools_transfer_from_refuses_short_allowance() {
    let mut contract = ILOCKmvp::new_token(alice(), 0);
    assert_eq!(contract.payout_tokens(alice(), bob(), 1000, "PARTNERS".to_string()), Ok(()));
    assert_eq!(contract.approve(bob(), charlie(), 5), Ok(()));
    assert_eq!(
        contract.transfer_from(charlie(), bob(), charlie(), 6, Vec::new()),
        Err(PSP22Error::InsufficientBalance)
    );
    assert_eq!(contract.allowance(bob(), charlie()), 5);
    assert_eq!(contract.balance_of(bob()), 1000);
}

#[test]
fn pools_distribute_tokens_refuses_share_below_vests() {
    let mut contract = ILOCKmvp::new_token(alice(), 0);
    assert_eq!(contract.register_stakeholder(alice(), bob(), 5, PRESALE_1), Ok(()));
    assert_eq!(contract.TESTING_increment_month(alice()), Ok(true));
    assert_eq!(contract.distribute_tokens(alice(), bob()), Err(OtherError::DivError));
    assert_eq!(contract.balance_of(bob()), 0);
}

#[test]
fn pools_call_socket_port_zero_pays_the_owner() {
    let mut contract = ILOCKmvp::new_token(alice(), 0);
    let app = AccountId([9u8; 32]);
    let code = ilockmvp::account::CodeHash([4u8; 32]);
    assert_eq!(contract.create_port(alice(), code, 0, 0, true, 0, alice()), Ok(()));
    assert_eq!(contract.create_socket(app, Some(code), alice(), 0), Ok(()));
    assert_eq!(contract.payout_tokens(alice(), bob(), 1000, "PARTNERS".to_string()), Ok(()));
    let rewards = contract.pool_balance(REWARDS).1;

    assert_eq!(contract.call_socket(app, true, bob(), 400, Vec::new()), Ok(()));
    assert_eq!(contract.balance_of(bob()), 600);
    assert_eq!(contract.balance_of(alice()), SUPPLY_CAP - 1000 + 400);
    assert_eq!(contract.pool_balance(REWARDS).1, rewards + 400);
    assert_eq!(contract.total_supply(), 600);
}

#[test]
fn pools_tax_port_transfer_keeps_steps_taken() {
    let mut contract = ILOCKmvp::new_token(alice(), 0);
    let code = ilockmvp::account::CodeHash([0u8; 32]);
    let _ = contract.create_port(alice(), code, 1_000, 0, true, 2, bob());
    let port = contract.port(2);
    let socket = ilockmvp::ports::Socket { operator: charlie(), portnumber: 2 };

    assert_eq!(contract.tax_port_transfer(socket, port, 1_000_000), Err(OtherError::Underflow));
    assert_eq!(contract.pool_balance(ilockmvp::ilockmvp_pools::PROCEEDS).1, 1_000);
    assert_eq!(contract.total_supply(), 0);
    assert_eq!(contract.balance_of(alice()), SUPPLY_CAP);
}
