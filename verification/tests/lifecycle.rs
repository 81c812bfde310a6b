use nft_staking::address::Address;
use nft_staking::instructions::claim::Claim;
use nft_staking::errors::StakeError;
use nft_staking::instructions::stake::{Stake, StakeBumps};
use nft_staking::state::{LedgerAccount, StakeConfig, UserAccount};
use nft_staking::instructions::unstake::Unstake;

fn ledger_account(key: u8, owner: u8) -> LedgerAccount {
    LedgerAccount {
        key: Address::new([key; 32]),
        owner: Address::new([owner; 32]),
        initialized: true,
    }
}

fn config(freeze_period: u32) -> StakeConfig {
    StakeConfig { bump: 255, rewards_bump: 254, points_per_stake: 10, freeze_period }
}

fn stake_at(account: Option<UserAccount>, asset: u8, config: StakeConfig, now: i64) -> Stake {
    let mut records = Stake {
        user: Address::new([1u8; 32]),
        asset: ledger_account(asset, 4),
        collection: ledger_account(3, 4),
        config,
        user_account: account,
        stake_account: None,
        core_program: Address::new([4u8; 32]),
    };
    records.stake_at(now, StakeBumps { user_account: 200, stake_account: asset }).unwrap();
    records
}

fn release_of(stake: &Stake, account: UserAccount) -> Unstake {
    Unstake {
        user: stake.user,
        asset: stake.asset,
        collection: stake.collection,
        config: stake.config,
        user_account: account,
        stake_account: stake.stake_account,
        core_program: stake.core_program,
    }
}

#[test]
fn stake_at_zero_and_release_after_a_day() {
    let stake = stake_at(None, 2, config(0), 0);
    let account = stake.user_account.unwrap();
    assert_eq!(account.amount_staked, 1);
    let mut release = release_of(&stake, account);
    let receipt = release.unstake_at(86_400).unwrap();
    assert_eq!(receipt.points_earned, 10);
    assert_eq!(release.user_account.points, 10);
    assert_eq!(release.user_account.amount_staked, 0);
    assert_eq!(release.stake_account, None);
}

#[test]
fn the_release_signs_as_the_stake_delegated() {
    let mut stake = Stake {
        user: Address::new([1u8; 32]),
        asset: ledger_account(2, 4),
        collection: ledger_account(3, 4),
        config: config(0),
        user_account: None,
        stake_account: None,
        core_program: Address::new([4u8; 32]),
    };
    let frozen = stake.stake_at(0, StakeBumps { user_account: 200, stake_account: 77 }).unwrap();
    let mut release = release_of(&stake, stake.user_account.unwrap());
    let receipt = release.unstake_at(86_400).unwrap();
    assert_eq!(receipt.unfreeze.authority, frozen.delegate);
    assert_eq!(receipt.unfreeze.authority.bump, 77);
    assert_eq!(receipt.unfreeze.asset, frozen.asset);
    assert_eq!(receipt.unfreeze.collection, frozen.collection);
    assert_eq!(receipt.unfreeze.program, frozen.program);
}

#[test]
fn another_user_cannot_release_the_asset() {
    let stake = stake_at(None, 2, config(0), 0);
    let mut release = release_of(&stake, stake.user_account.unwrap());
    release.user = Address::new([9u8; 32]);
    assert_eq!(release.unstake_at(86_400), Err(StakeError::InvalidAsset));
    assert!(release.stake_account.is_some());
}

#[test]
fn a_stake_record_releases_its_own_asset_only() {
    let stake = stake_at(None, 2, config(0), 0);
    let mut release = release_of(&stake, stake.user_account.unwrap());
    release.asset = ledger_account(8, 4);
    assert_eq!(release.unstake_at(86_400), Err(StakeError::InvalidAsset));
}

#[test]
fn points_fall_only_at_a_claim() {
    let cfg = config(3_600);
    // Two assets staked, at 0 and at 100.
    let first = stake_at(None, 2, cfg, 0);
    let mut account = first.user_account.unwrap();
    let second = stake_at(Some(account), 6, cfg, 100);
    account = second.user_account.unwrap();
    assert_eq!(account, UserAccount { bump: 200, points: 0, amount_staked: 2 });

    // Too early for the first: refused, nothing changes.
    let mut release = release_of(&first, account);
    assert_eq!(release.unstake_at(3_599), Err(StakeError::FreezePeriodNotPassed));
    assert_eq!(release.user_account, account);

    // Two days and a bit for the first.
    let mut release = release_of(&first, account);
    assert_eq!(release.unstake_at(2 * 86_400 + 5).unwrap().points_earned, 20);
    assert!(release.user_account.points >= account.points);
    account = release.user_account;
    assert_eq!(account, UserAccount { bump: 200, points: 20, amount_staked: 1 });

    // A claim takes the balance to zero.
    let mut claim = Claim {
        user: first.user,
        user_account: account,
        config: cfg,
        rewards_mint: Address::new([5u8; 32]),
        user_rewards_ata: ledger_account(6, 7),
    };
    assert_eq!(claim.claim().unwrap().mint.amount, 20_000_000);
    account = claim.user_account;
    assert_eq!(account, UserAccount { bump: 200, points: 0, amount_staked: 1 });

    // Three days for the second, counted from its own time of staking.
    let mut release = release_of(&second, account);
    assert_eq!(release.unstake_at(100 + 3 * 86_400).unwrap().points_earned, 30);
    account = release.user_account;
    assert_eq!(account, UserAccount { bump: 200, points: 30, amount_staked: 0 });

    // Nothing is left to release; the balance stays.
    let mut release = release_of(&second, account);
    release.stake_account = None;
    assert_eq!(release.unstake_at(100 + 4 * 86_400), Err(StakeError::InvalidAsset));
    assert_eq!(release.user_account, account);
}

#[test]
fn a_release_with_a_counter_at_zero_is_refused() {
    let stake = stake_at(None, 2, config(0), 0);
    let mut release =
        release_of(&stake, UserAccount { bump: 200, points: 0, amount_staked: 0 });
    let before = release;
    assert_eq!(release.unstake_at(86_400), Err(StakeError::Underflow));
    assert_eq!(release, before);
}
