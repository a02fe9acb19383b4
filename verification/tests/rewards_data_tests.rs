use ilockmvp::account::AccountId;
use ilockmvp::rewards_data::ILOCKrewardsData;

#[test]
fn rewards_data_starts_empty() {
    let caller = AccountId([1u8; 32]);
    let data = ILOCKrewardsData::new_ilockrewardsdata(caller);
    assert_eq!(data.rewardedTotal(), 0);
    assert_eq!(data.rewardFactor(), 0);
    assert_eq!(data.rewardedUser(caller), 0);
    assert_eq!(data.rewardedUser(AccountId([9u8; 32])), 0);
}

#[test]
fn rewards_data_reads_what_was_set() {
    let caller = AccountId([1u8; 32]);
    let user = AccountId([2u8; 32]);
    let other = AccountId([3u8; 32]);
    let mut data = ILOCKrewardsData::new_ilockrewardsdata(caller);

    assert!(data.set_rewardedUser(user, 500));
    assert_eq!(data.rewardedUser(user), 500);
    assert_eq!(data.rewardedUser(other), 0);
    assert!(data.set_rewardedUser(user, 7));
    assert_eq!(data.rewardedUser(user), 7);
    assert_eq!(data.rewardedTotal(), 0);
}
