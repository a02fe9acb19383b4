use ilockmvp::account::AccountId;
use ilockmvp::global::{pack_flags, unpack_flags, AccountRef, GlobalState, Processor, UpdateGlobalError};

fn owner() -> AccountId {
    AccountId([7u8; 32])
}

fn state() -> GlobalState {
    GlobalState { owner: owner(), flags: 0, values: [5u64; 64] }
}

fn signer(key: AccountId) -> AccountRef {
    AccountRef { key, is_signer: true }
}

#[test]
fn flags_round_trip() {
    for word in [0u64, 1, 0x8000_0000_0000_0000, 0xdead_beef_0123_4567, u64::MAX] {
        assert_eq!(pack_flags(&unpack_flags(word)), word);
    }
    let flags = unpack_flags(0x8000_0000_0000_0001);
    assert_eq!(flags.get(0), Some(true));
    assert_eq!(flags.get(1), Some(false));
    assert_eq!(flags.get(63), Some(true));
    assert_eq!(flags.len(), 64);
}

#[test]
fn update_global_sets_flagged_values() {
    let mut global = state();
    let mut values = [0u64; 64];
    values[0] = 11;
    values[1] = 12;
    values[63] = 13;
    let accounts = [signer(owner()), signer(AccountId([8u8; 32])), signer(owner())];
    let r = Processor::process_update_global(&owner(), &accounts, &mut global, 0x8000_0000_0000_0001, values);
    assert_eq!(r, Ok(()));
    assert_eq!(global.values[0], 11);
    assert_eq!(global.values[1], 5);
    assert_eq!(global.values[63], 13);
    assert_eq!(global.flags, 0x8000_0000_0000_0001);
    assert_eq!(global.owner, owner());
}

#[test]
fn update_global_changes_owner_only() {
    let mut global = state();
    let new_owner = AccountId([9u8; 32]);
    let accounts = [signer(owner()), signer(AccountId([8u8; 32])), signer(new_owner)];
    let r = Processor::process_update_global(&owner(), &accounts, &mut global, u64::MAX, [1u64; 64]);
    assert_eq!(r, Ok(()));
    assert_eq!(global, GlobalState { owner: new_owner, ..state() });
}

#[test]
fn update_global_refusals() {
    let mut global = state();
    let accounts = [signer(owner()), signer(owner())];
    assert_eq!(
        Processor::process_update_global(&owner(), &accounts, &mut global, u64::MAX, [1u64; 64]),
        Err(UpdateGlobalError::NotEnoughAccountKeys)
    );
    let unsigned = [AccountRef { key: owner(), is_signer: false }, signer(owner()), signer(owner())];
    assert_eq!(
        Processor::process_update_global(&owner(), &unsigned, &mut global, u64::MAX, [1u64; 64]),
        Err(UpdateGlobalError::MissingRequiredSignature)
    );
    let imposter = AccountId([6u8; 32]);
    let accounts = [signer(imposter), signer(owner()), signer(imposter)];
    assert_eq!(
        Processor::process_update_global(&owner(), &accounts, &mut global, u64::MAX, [1u64; 64]),
        Err(UpdateGlobalError::OwnerImposterError)
    );
    assert_eq!(global, state());
}
