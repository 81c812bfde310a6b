use nft_staking::address::Address;
use nft_staking::authority::{AuthoritySeeds, SeedLabel};
use nft_staking::errors::StakeError;
use nft_staking::instructions::stake::{FreezeRequest, Stake, StakeBumps};
use nft_staking::state::{LedgerAccount, StakeAccount, StakeConfig, UserAccount};

fn user() -> Address {
    Address::new([1u8; 32])
}

fn asset() -> Address {
    Address::new([2u8; 32])
}

fn collection() -> Address {
    Address::new([3u8; 32])
}

fn registry() -> Address {
    Address::new([4u8; 32])
}

fn stranger() -> Address {
    Address::new([9u8; 32])
}

fn bumps() -> StakeBumps {
    StakeBumps { user_account: 200, stake_account: 201 }
}

fn stake_of(account: Option<UserAccount>) -> Stake {
    Stake {
        user: user(),
        asset: LedgerAccount { key: asset(), owner: registry(), initialized: true },
        collection: LedgerAccount { key: collection(), owner: registry(), initialized: true },
        config: StakeConfig { bump: 255, rewards_bump: 254, points_per_stake: 10, freeze_period: 0 },
        user_account: account,
        stake_account: None,
        core_program: registry(),
    }
}

fn assert_refused(mut records: Stake, error: StakeError) {
    let before = records;
    assert_eq!(records.stake_at(1_000, bumps()), Err(error));
    assert_eq!(records, before);
}

#[test]
fn a_stake_makes_the_record_and_counts_the_asset() {
    let mut records = stake_of(Some(UserAccount { bump: 253, points: 7, amount_staked: 3 }));
    let before = records;
    let request = records.stake_at(1_000, bumps()).unwrap();
    assert_eq!(
        records.stake_account,
        Some(StakeAccount { bump: 201, owner: user(), mint: asset(), staked_at: 1_000 })
    );
    assert_eq!(
        records.user_account,
        Some(UserAccount { bump: 253, points: 7, amount_staked: 4 })
    );
    assert_eq!(
        request,
        FreezeRequest {
            program: registry(),
            asset: asset(),
            collection: collection(),
            payer: user(),
            delegate: AuthoritySeeds { label: SeedLabel::Stake, context: Some(asset()), bump: 201 },
        }
    );
    assert_eq!(records.config, before.config);
    assert_eq!(records.asset, before.asset);
    assert_eq!(records.collection, before.collection);
    assert_eq!(records.user, before.user);
    assert_eq!(records.core_program, before.core_program);
}

#[test]
fn the_first_stake_makes_the_user_account() {
    let mut records = stake_of(None);
    assert!(records.stake_at(-5, bumps()).is_ok());
    assert_eq!(
        records.user_account,
        Some(UserAccount { bump: 200, points: 0, amount_staked: 1 })
    );
    assert_eq!(
        records.stake_account,
        Some(StakeAccount { bump: 201, owner: user(), mint: asset(), staked_at: -5 })
    );
}

#[test]
fn a_staked_asset_is_not_staked_again() {
    let mut records = stake_of(None);
    assert!(records.stake_at(1_000, bumps()).is_ok());
    let after = records;
    assert_eq!(records.stake_at(2_000, bumps()), Err(StakeError::InvalidAsset));
    assert_eq!(records, after);
}

#[test]
fn a_stake_with_accounts_out_of_order_is_refused() {
    let mut records = stake_of(None);
    records.asset.owner = stranger();
    assert_refused(records, StakeError::InvalidAsset);
    let mut records = stake_of(None);
    records.asset.initialized = false;
    assert_refused(records, StakeError::AssetNotInitialized);
    let mut records = stake_of(None);
    records.collection.owner = stranger();
    assert_refused(records, StakeError::InvalidCollection);
    let mut records = stake_of(None);
    records.collection.initialized = false;
    assert_refused(records, StakeError::CollectionNotInitialized);
}

#[test]
fn a_full_counter_is_refused() {
    assert_refused(
        stake_of(Some(UserAccount { bump: 253, points: 7, amount_staked: u32::MAX })),
        StakeError::Overflow,
    );
    let mut records =
        stake_of(Some(UserAccount { bump: 253, points: 7, amount_staked: u32::MAX - 1 }));
    assert!(records.stake_at(0, bumps()).is_ok());
    assert_eq!(records.user_account.unwrap().amount_staked, u32::MAX);
}

#[test]
fn off_the_ledger_there_is_no_clock_to_stake_by() {
    let mut records = stake_of(None);
    let before = records;
    assert_eq!(records.stake(bumps()), Err(StakeError::ClockUnavailable));
    assert_eq!(records, before);
}

#[test]
fn a_stake_is_examined_before_the_clock_is_read() {
    let mut records = stake_of(None);
    records.collection.owner = stranger();
    let before = records;
    assert_eq!(records.stake(bumps()), Err(StakeError::InvalidCollection));
    assert_eq!(records, before);
    let mut records = stake_of(Some(UserAccount { bump: 1, points: 0, amount_staked: u32::MAX }));
    let before = records;
    assert_eq!(records.stake(bumps()), Err(StakeError::Overflow));
    assert_eq!(records, before);
    assert_eq!(records.check_records(), Some(StakeError::Overflow));
    assert_eq!(stake_of(None).check_records(), None);
}
