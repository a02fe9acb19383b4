use ilockmvp::account::{AccountId, CodeHash};
use ilockmvp::errors::OtherError;
use ilockmvp::events::{Approval, Event, Reward, Transfer};
use ilockmvp::ilockmvp::{
    pool_info, ILOCKmvp, DECIMALS_POWER10, PARTNERS, POOL_COUNT, PRESALE_1, PUBLIC_SALE, REWARDS,
    SUPPLY_CAP, TEAM_FOUNDERS, WHITELIST,
};
use ilockmvp::ports::{Port, Socket};
use ilockmvp::psp22::{OwnableError, PSP22Error};
use ilockmvp::storage::ONE_MONTH;

fn alice() -> AccountId {
    AccountId([1u8; 32])
}

fn bob() -> AccountId {
    AccountId([2u8; 32])
}

fn charlie() -> AccountId {
    AccountId([3u8; 32])
}

fn eve() -> AccountId {
    AccountId([5u8; 32])
}

fn zero() -> AccountId {
    AccountId([0u8; 32])
}

fn rewards_pool_start() -> u128 {
    pool_info(REWARDS).tokens * DECIMALS_POWER10
}

#[test]
fn happye2e_transfer() {
    let mut contract = ILOCKmvp::new_token(alice(), 0);

    assert_eq!(contract.transfer(alice(), bob(), 1000, Vec::new()), Ok(()));
    assert_eq!(
        contract.events.last(),
        Some(&Event::Transfer(Transfer { from: Some(alice()), to: Some(bob()), amount: 1000 }))
    );
    assert_eq!(contract.balance_of(bob()), 0 + 1000);
    assert_eq!(contract.balance_of(alice()), SUPPLY_CAP - 1000);
    assert_eq!(contract.total_supply(), 0 + 1000);

    let _ = contract.transfer(bob(), alice(), 500, Vec::new());
    assert_eq!(contract.total_supply(), 1000 - 500);
    assert_eq!(contract.pool_balance(REWARDS).1, rewards_pool_start() + 500);
}

#[test]
fn sade2e_transfer() {
    let mut contract = ILOCKmvp::new_token(alice(), 0);

    assert_eq!(
        contract.transfer(bob(), charlie(), 1, Vec::new()),
        Err(PSP22Error::InsufficientBalance)
    );
    assert_eq!(
        contract.transfer(alice(), zero(), 1, Vec::new()),
        Err(PSP22Error::ZeroRecipientAddress)
    );
    assert_eq!(
        contract.transfer(zero(), alice(), 1, Vec::new()),
        Err(PSP22Error::ZeroSenderAddress)
    );
    assert_eq!(contract.balance_of(alice()), SUPPLY_CAP);
    assert_eq!(contract.total_supply(), 0);
    assert_eq!(contract.events.len(), 1);
}

#[test]
fn happye2e_transfer_from() {
    let mut contract = ILOCKmvp::new_token(alice(), 0);

    assert_eq!(contract.approve(alice(), bob(), 1000), Ok(()));
    let before = contract.events.len();
    assert_eq!(contract.transfer_from(bob(), alice(), charlie(), 1000, Vec::new()), Ok(()));
    let emitted = &contract.events[before..];
    assert!(emitted.contains(&Event::Approval(Approval {
        owner: Some(alice()),
        spender: Some(bob()),
        amount: 1000 - 1000,
    })));
    assert!(emitted.contains(&Event::Transfer(Transfer {
        from: Some(alice()),
        to: Some(charlie()),
        amount: 1000,
    })));

    assert_eq!(contract.balance_of(charlie()), 0 + 1000);
    assert_eq!(contract.total_supply(), 0 + 1000);
    assert_eq!(contract.allowance(alice(), bob()), 1000 - 1000);

    assert_eq!(contract.approve(charlie(), bob(), 1000), Ok(()));
    let _ = contract.transfer_from(bob(), charlie(), alice(), 1000, Vec::new());
    assert_eq!(contract.total_supply(), 1000 - 1000);
    assert_eq!(contract.pool_balance(REWARDS).1, rewards_pool_start() + 1000);
}

#[test]
fn sade2e_transfer_from() {
    let mut contract = ILOCKmvp::new_token(alice(), 0);

    assert_eq!(contract.approve(bob(), charlie(), 10), Ok(()));
    assert_eq!(
        contract.transfer_from(charlie(), bob(), alice(), 10, Vec::new()),
        Err(PSP22Error::InsufficientAllowance)
    );
    assert_eq!(
        contract.transfer_from(charlie(), bob(), alice(), 11, Vec::new()),
        Err(PSP22Error::InsufficientBalance)
    );
    assert_eq!(contract.approve(alice(), bob(), 10), Ok(()));
    assert_eq!(
        contract.transfer_from(bob(), alice(), zero(), 10, Vec::new()),
        Err(PSP22Error::ZeroRecipientAddress)
    );
    assert_eq!(contract.allowance(alice(), bob()), 10);
}

#[test]
fn happye2e_burn() {
    let mut contract = ILOCKmvp::new_token(alice(), 0);

    let _ = contract.transfer(alice(), bob(), 1000, Vec::new());
    assert_eq!(contract.burn(alice(), alice(), 1000), Ok(()));
    assert_eq!(
        contract.events.last(),
        Some(&Event::Transfer(Transfer { from: Some(alice()), to: None, amount: 1000 }))
    );
    assert_eq!(contract.balance_of(alice()), SUPPLY_CAP - 1000 - 1000);
    assert_eq!(contract.pool_balance(REWARDS).1, rewards_pool_start() - 1000);

    let _ = contract.burn(alice(), bob(), 500);
    assert_eq!(contract.total_supply(), 1000 - 500);
    assert_eq!(contract.balance_of(bob()), 1000 - 500);
}

#[test]
fn sade2e_burn() {
    let mut contract = ILOCKmvp::new_token(alice(), 0);
    let _ = contract.transfer(alice(), bob(), 1000, Vec::new());

    assert_eq!(contract.burn(bob(), bob(), 1), Err(PSP22Error::Custom(b"CallerNotOwner".to_vec())));
    assert_eq!(contract.burn(alice(), bob(), 1001), Err(PSP22Error::InsufficientBalance));
    assert_eq!(contract.balance_of(bob()), 1000);
    assert_eq!(contract.total_supply(), 1000);
}

#[test]
fn happye2e_distribute_tokens() {
    let mut contract = ILOCKmvp::new_token(alice(), 0);

    let stakeholder = bob();
    let stakeholder_share: u128 = 1_000_000_000;
    let pool_size = pool_info(TEAM_FOUNDERS).tokens * DECIMALS_POWER10;

    assert_eq!(
        contract.register_stakeholder(alice(), stakeholder, stakeholder_share, TEAM_FOUNDERS),
        Ok(())
    );

    let cliff = pool_info(TEAM_FOUNDERS).cliffs;
    let vests = pool_info(TEAM_FOUNDERS).vests;
    let schedule_end = vests + cliff - 1;
    let schedule_period = vests;
    let payout = 1_000_000_000 / vests as u128;
    let last_payout = payout + 1_000_000_000 % vests as u128;
    assert_eq!(payout, 27_777_777);
    assert_eq!(last_payout, 27_777_805);

    let stakeholder_data = contract.stakeholder_data(stakeholder);
    assert_eq!(stakeholder_data.0.share, stakeholder_share);
    assert_eq!(stakeholder_data.1, stakeholder_data.0.share);
    assert_eq!(stakeholder_data.2, payout);
    assert_eq!(stakeholder_data.3, "team+founders".to_string());

    for month in 0..(schedule_end + 2) {
        if month >= cliff && month <= schedule_end {
            assert_eq!(contract.distribute_tokens(alice(), stakeholder), Ok(()));
        }

        let stakeholder_paid = contract.stakeholder_data(stakeholder).0.paid;
        let stakeholder_balance = contract.balance_of(stakeholder);
        let pool_balance = contract.pool_balance(TEAM_FOUNDERS).1;
        let owner_balance = contract.balance_of(alice());

        assert_eq!(contract.TESTING_increment_month(alice()), Ok(true));

        if month < cliff {
            assert_eq!(stakeholder_paid, 0);
            assert_eq!(stakeholder_balance, 0);
            assert_eq!(owner_balance, SUPPLY_CAP);
            assert_eq!(pool_balance, pool_size);
        } else if month >= cliff && month < schedule_end {
            let paid = (month - cliff + 1) as u128 * payout;
            assert_eq!(stakeholder_paid, paid);
            assert_eq!(stakeholder_balance, paid);
            assert_eq!(owner_balance, SUPPLY_CAP - paid);
            assert_eq!(pool_balance, pool_size - paid);
        } else if month >= schedule_end {
            let paid = (schedule_period - 1) as u128 * payout + last_payout;
            assert_eq!(stakeholder_paid, paid);
            assert_eq!(stakeholder_balance, paid);
            assert_eq!(owner_balance, SUPPLY_CAP - paid);
            assert_eq!(pool_balance, pool_size - paid);
        }
    }
}

#[test]
fn sade2e_distribute_tokens() {
    let mut contract = ILOCKmvp::new_token(alice(), 0);
    assert_eq!(contract.register_stakeholder(alice(), bob(), 1_000_000_000, TEAM_FOUNDERS), Ok(()));

    assert_eq!(
        contract.distribute_tokens(bob(), bob()),
        Err(PSP22Error::Custom(b"CallerNotOwner".to_vec()))
    );
    assert_eq!(
        contract.distribute_tokens(alice(), charlie()),
        Err(PSP22Error::Custom(b"StakeholderNotFound".to_vec()))
    );
    assert_eq!(
        contract.distribute_tokens(alice(), bob()),
        Err(PSP22Error::Custom(b"CliffNotPassed".to_vec()))
    );
    for _ in 0..6 {
        assert_eq!(contract.TESTING_increment_month(alice()), Ok(true));
    }
    for _ in 0..6 {
        assert_eq!(contract.distribute_tokens(alice(), bob()), Ok(()));
    }
    assert_eq!(
        contract.distribute_tokens(alice(), bob()),
        Err(PSP22Error::Custom(b"PayoutTooEarly".to_vec()))
    );
    assert_eq!(contract.balance_of(bob()), 6 * 27_777_777);
}

#[test]
fn happye2e_payout_tokens() {
    let mut contract = ILOCKmvp::new_token(alice(), 0);

    assert_eq!(contract.payout_tokens(alice(), bob(), 1000, "PARTNERS".to_string()), Ok(()));
    assert_eq!(contract.balance_of(alice()), SUPPLY_CAP - 1000);
    assert_eq!(contract.balance_of(bob()), 0 + 1000);
    assert_eq!(
        contract.pool_balance(PARTNERS).1,
        pool_info(PARTNERS).tokens * DECIMALS_POWER10 - 1000
    );

    assert_eq!(contract.payout_tokens(alice(), bob(), 1000, "WHITELIST".to_string()), Ok(()));
    assert_eq!(contract.balance_of(alice()), SUPPLY_CAP - 1000 - 1000);
    assert_eq!(contract.balance_of(bob()), 0 + 1000 + 1000);
    assert_eq!(
        contract.pool_balance(WHITELIST).1,
        pool_info(WHITELIST).tokens * DECIMALS_POWER10 - 1000
    );

    assert_eq!(contract.payout_tokens(alice(), bob(), 1000, "PUBLIC_SALE".to_string()), Ok(()));
    assert_eq!(contract.balance_of(alice()), SUPPLY_CAP - 1000 - 1000 - 1000);
    assert_eq!(contract.balance_of(bob()), 0 + 1000 + 1000 + 1000);
    assert_eq!(
        contract.pool_balance(PUBLIC_SALE).1,
        pool_info(PUBLIC_SALE).tokens * DECIMALS_POWER10 - 1000
    );
}

#[test]
fn sade2e_payout_tokens() {
    let mut contract = ILOCKmvp::new_token(alice(), 0);

    assert_eq!(
        contract.payout_tokens(bob(), bob(), 1000, "PARTNERS".to_string()),
        Err(PSP22Error::Custom(b"CallerNotOwner".to_vec()))
    );
    assert_eq!(
        contract.payout_tokens(alice(), bob(), 1000, "REWARDS".to_string()),
        Err(PSP22Error::Custom(b"InvalidPool".to_vec()))
    );
    assert_eq!(
        contract.payout_tokens(
            alice(),
            bob(),
            pool_info(PARTNERS).tokens * DECIMALS_POWER10 + 1,
            "PARTNERS".to_string()
        ),
        Err(PSP22Error::Custom(b"PaymentTooLarge".to_vec()))
    );
    assert_eq!(
        contract.payout_tokens(alice(), bob(), 1, "PROCEEDS".to_string()),
        Err(PSP22Error::Custom(b"PaymentTooLarge".to_vec()))
    );
    assert_eq!(contract.balance_of(bob()), 0);
}

#[test]
fn happye2e_reward_interlocker() {
    let mut contract = ILOCKmvp::new_token(alice(), 0);

    assert_eq!(contract.reward_interlocker(alice(), 1000, bob()), Ok(1000));
    assert_eq!(
        contract.events.last(),
        Some(&Event::Reward(Reward { to: Some(bob()), amount: 1000 }))
    );
    assert_eq!(contract.balance_of(alice()), SUPPLY_CAP - 1000);
    assert_eq!(contract.pool_balance(REWARDS).1, rewards_pool_start() - 1000);
    assert_eq!(contract.balance_of(bob()), 0 + 1000);
    assert_eq!(contract.total_supply(), 0 + 1000);
    assert_eq!(contract.rewarded_total(), 0 + 1000);
    assert_eq!(contract.rewarded_interlocker_total(bob()), 0 + 1000);
}

#[test]
fn sade2e_reward_interlocker() {
    let mut contract = ILOCKmvp::new_token(alice(), 0);

    assert_eq!(
        contract.reward_interlocker(bob(), 1000, bob()),
        Err(PSP22Error::Custom(b"CallerNotOwner".to_vec()))
    );
    assert_eq!(
        contract.reward_interlocker(alice(), rewards_pool_start() + 1, bob()),
        Err(PSP22Error::Custom(b"PaymentTooLarge".to_vec()))
    );
    assert_eq!(contract.rewarded_total(), 0);
}

#[test]
fn new_token_works() {
    let contract = ILOCKmvp::new_token(alice(), 0);

    assert_eq!(contract.vest.monthspassed, contract.months_passed());
    assert_eq!(contract.vest.nextpayout, 0 + ONE_MONTH);
    assert_eq!(contract.total_supply(), 0);
    assert_eq!(contract.metadata.name, Some("Interlock Network".as_bytes().to_vec()));
    assert_eq!(contract.metadata.symbol, Some("ILOCK".as_bytes().to_vec()));
    assert_eq!(contract.metadata.decimals, 18);

    let mut total_tokens: u128 = 0;
    for pool in 0..POOL_COUNT {
        total_tokens += pool_info(pool as u8).tokens * DECIMALS_POWER10;
    }
    assert_eq!(total_tokens, contract.cap());
    assert_eq!(contract.ownable.owner, alice());
}

#[test]
fn happyunit_register_stakeholder_data() {
    let mut contract = ILOCKmvp::new_token(alice(), 0);

    assert_eq!(contract.register_stakeholder(alice(), bob(), 1_800_000, PRESALE_1), Ok(()));
    let data = contract.stakeholder_data(bob());
    assert_eq!(data.0.paid, 0);
    assert_eq!(data.0.share, 1_800_000);
    assert_eq!(data.0.pool, PRESALE_1);
    assert_eq!(data.1, 1_800_000);
    assert_eq!(data.2, 100_000);
    assert_eq!(data.3, "presale_1".to_string());

    assert_eq!(
        contract.register_stakeholder(alice(), charlie(), 0, PRESALE_1),
        Err(PSP22Error::Custom(b"ShareTooSmall".to_vec()))
    );
    assert_eq!(
        contract.register_stakeholder(bob(), charlie(), 10, PRESALE_1),
        Err(PSP22Error::Custom(b"CallerNotOwner".to_vec()))
    );
}

#[test]
fn happyunit_pool_data_and_balance() {
    let contract = ILOCKmvp::new_token(alice(), 0);
    let pool = pool_info(1);
    assert_eq!(
        contract.pool_data(1),
        (
            format!("pool: {:?} ", pool.name.to_string()),
            format!("tokens alotted: {:?} ", pool.tokens),
            format!("number of vests: {:?} ", pool.vests),
            format!("vesting cliff: {:?} ", pool.cliffs),
        )
    );
    assert_eq!(contract.pool_data(1).0, "pool: \"presale_1\" ".to_string());
    assert_eq!(contract.pool_data(1).1, "tokens alotted: 48622222 ".to_string());
    assert_eq!(
        contract.pool_balance(1),
        (format!("pool: {:?}, balance: {:?}", pool.name.to_string(), 48_622_222 * DECIMALS_POWER10), 48_622_222 * DECIMALS_POWER10)
    );
}

#[test]
fn happyunit_create_get_port_tax_transfer() {
    let mut contract = ILOCKmvp::new_token(alice(), 0);

    let codehash = CodeHash([0u8; 32]);
    let tax: u128 = 1_000;
    let cap: u128 = 1_000_000;
    let locked: bool = true;
    let number: u16 = 2;
    let owner = bob();

    let _ = contract.create_port(alice(), codehash, tax, cap, locked, number, owner);

    let mut port: Port = contract.port(number);
    assert_eq!(
        port,
        Port { application: codehash, tax, cap, locked, paid: 0, collected: 0, owner }
    );

    contract.pool.circulating += 1_000_000;

    let test_socket = Socket { operator: eve(), portnumber: 2 };
    let _ = contract.tax_port_transfer(test_socket, port, cap);

    port = contract.app.ports.get(&number).unwrap();
    assert_eq!(port.paid, 1_000_000 - 1_000);
    assert_eq!(port.collected, 0 + 1_000);
    assert_eq!(contract.proceeds_available(), 0 + 1_000);
    assert_eq!(contract.total_supply(), 1_000_000 - 1_000);
}

#[test]
fn sadunit_tax_port_transfer() {
    let mut contract = ILOCKmvp::new_token(alice(), 0);
    let _ = contract.create_port(alice(), CodeHash([0u8; 32]), 0, 1_000, true, 3, bob());
    let port = contract.port(3);
    let socket = Socket { operator: eve(), portnumber: 3 };

    assert_eq!(contract.tax_port_transfer(socket, port, 1_000), Err(OtherError::DivError));
    assert_eq!(contract.port(3).collected, 0);
    assert_eq!(contract.proceeds_available(), 0);
}

#[test]
fn ownership_transfer_and_renounce() {
    let mut contract = ILOCKmvp::new_token(alice(), 0);

    assert_eq!(contract.transfer_ownership(bob(), charlie()), Err(OwnableError::CallerIsNotOwner));
    assert_eq!(contract.transfer_ownership(alice(), zero()), Err(OwnableError::NewOwnerIsZero));
    assert_eq!(contract.owner(), alice());
    assert_eq!(contract.renounce_ownership(bob()), Err(OwnableError::CallerIsNotOwner));
}

#[test]
fn allowances_increase_and_decrease() {
    let mut contract = ILOCKmvp::new_token(alice(), 0);

    assert_eq!(contract.increase_allowance(alice(), bob(), 30), Ok(()));
    assert_eq!(contract.allowance(alice(), bob()), 30);
    assert_eq!(contract.decrease_allowance(alice(), bob(), 10), Ok(()));
    assert_eq!(contract.allowance(alice(), bob()), 20);
    assert_eq!(
        contract.decrease_allowance(alice(), bob(), 21),
        Err(PSP22Error::InsufficientAllowance)
    );
    assert_eq!(contract.allowance(alice(), bob()), 20);
}

#[test]
fn port_and_socket_defaults() {
    let contract = ILOCKmvp::new_token(alice(), 0);
    assert_eq!(contract.port(9), Port::default());
    assert_eq!(contract.socket(charlie()), Socket::default());
    assert_eq!(contract.token_decimals(), 18);
    assert_eq!(contract.token_name(), Some(b"Interlock Network".to_vec()));
    assert_eq!(contract.token_symbol(), Some(b"ILOCK".to_vec()));
}

#[test]
fn month_counter_follows_time() {
    let mut contract = ILOCKmvp::new_token(alice(), 0);
    assert_eq!(contract.remaining_time(10), ONE_MONTH - 10);
    assert_eq!(contract.check_time(alice(), 10), Err(PSP22Error::Custom(b"PayoutTooEarly".to_vec())));
    assert_eq!(contract.months_passed(), 0);
    assert_eq!(contract.check_time(alice(), ONE_MONTH + 1), Ok(()));
    assert_eq!(contract.months_passed(), 1);
    assert_eq!(contract.remaining_time(5 * ONE_MONTH), 0);
}

fn app() -> AccountId {
    AccountId([9u8; 32])
}

#[test]
fn transfer_from_refuses_short_allowance() {
    let mut contract = ILOCKmvp::new_token(alice(), 0);
    assert_eq!(contract.approve(alice(), bob(), 10), Ok(()));

    assert_eq!(
        contract.transfer_from(bob(), alice(), charlie(), 11, Vec::new()),
        Err(PSP22Error::InsufficientBalance)
    );
    assert_eq!(contract.allowance(alice(), bob()), 10);
    assert_eq!(contract.balance_of(charlie()), 0);
    assert_eq!(contract.total_supply(), 0);
}

#[test]
fn distribute_tokens_refuses_share_below_vests() {
    let mut contract = ILOCKmvp::new_token(alice(), 0);
    assert_eq!(contract.register_stakeholder(alice(), bob(), 10, TEAM_FOUNDERS), Ok(()));
    for _ in 0..6 {
        assert_eq!(contract.TESTING_increment_month(alice()), Ok(true));
    }
    assert_eq!(
        contract.distribute_tokens(alice(), bob()),
        Err(PSP22Error::Custom(b"DivError".to_vec()))
    );
    assert_eq!(contract.balance_of(bob()), 0);
    assert_eq!(contract.stakeholder_data(bob()).0.paid, 0);
}

#[test]
fn call_socket_port_zero_pays_the_owner() {
    let mut contract = ILOCKmvp::new_token(alice(), 0);
    let code = CodeHash([4u8; 32]);
    assert_eq!(contract.create_port(alice(), code, 0, 0, true, 0, alice()), Ok(()));
    assert_eq!(contract.create_socket(app(), Some(code), alice(), 0), Ok(()));
    assert_eq!(contract.transfer(alice(), bob(), 1000, Vec::new()), Ok(()));
    let rewards = contract.pool_balance(REWARDS).1;

    assert_eq!(contract.call_socket(app(), bob(), false, 400, Vec::new()), Ok(()));
    assert_eq!(contract.balance_of(bob()), 600);
    assert_eq!(contract.balance_of(alice()), SUPPLY_CAP - 1000 + 400);
    assert_eq!(contract.pool_balance(REWARDS).1, rewards + 400);
    assert_eq!(contract.total_supply(), 600);
    assert_eq!(contract.port(0).paid, 400);

    assert_eq!(
        contract.call_socket(app(), bob(), true, 1, Vec::new()),
        Err(OtherError::CannotRewardContract)
    );
    assert_eq!(
        contract.call_socket(bob(), bob(), false, 1, Vec::new()),
        Err(OtherError::NoSocket)
    );
}

#[test]
fn call_socket_port_one_splits_price_and_tax() {
    let mut contract = ILOCKmvp::new_token(alice(), 0);
    let code = CodeHash([4u8; 32]);
    assert_eq!(contract.create_port(alice(), code, 1_000, 0, false, 1, alice()), Ok(()));
    assert_eq!(contract.create_socket(app(), Some(code), eve(), 1), Ok(()));
    assert_eq!(contract.transfer(alice(), bob(), 1_000_000, Vec::new()), Ok(()));

    assert_eq!(contract.call_socket(app(), bob(), false, 1_000_000, Vec::new()), Ok(()));
    assert_eq!(contract.balance_of(bob()), 0);
    assert_eq!(contract.balance_of(eve()), 999_000);
    assert_eq!(contract.balance_of(alice()), SUPPLY_CAP - 1_000_000 + 1_000);
    assert_eq!(contract.proceeds_available(), 1_000);
    assert_eq!(contract.total_supply(), 999_000);
    assert_eq!(contract.port(1).collected, 1_000);
    assert_eq!(contract.port(1).paid, 999_000);
}

#[test]
fn tax_port_transfer_keeps_raised_proceeds_on_underflow() {
    let mut contract = ILOCKmvp::new_token(alice(), 0);
    let _ = contract.create_port(alice(), CodeHash([0u8; 32]), 1_000, 0, true, 4, bob());
    let port = contract.port(4);
    let socket = Socket { operator: eve(), portnumber: 4 };

    assert_eq!(contract.tax_port_transfer(socket, port, 1_000_000), Err(OtherError::Underflow));
    assert_eq!(contract.proceeds_available(), 1_000);
    assert_eq!(contract.total_supply(), 0);
    assert_eq!(contract.port(4).collected, 0);
}
