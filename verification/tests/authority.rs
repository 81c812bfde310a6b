use anchor_lang::prelude::Pubkey;
use nft_staking::address::Address;
use nft_staking::authority::{AuthoritySeeds, SeedLabel, MAX_SEEDS, MAX_SEED_LEN};
use nft_staking::state::StakeConfig;

fn config() -> StakeConfig {
    StakeConfig { bump: 251, rewards_bump: 17, points_per_stake: 10, freeze_period: 0 }
}

#[test]
fn labels_are_their_names() {
    assert_eq!(SeedLabel::Config.to_vec(), b"config".to_vec());
    assert_eq!(SeedLabel::User.to_vec(), b"user".to_vec());
    assert_eq!(SeedLabel::Stake.to_vec(), b"stake".to_vec());
    assert_eq!(SeedLabel::Rewards.to_vec(), b"rewards".to_vec());
}

#[test]
fn config_seeds_are_label_and_bump() {
    let seeds = AuthoritySeeds::config(&config());
    assert_eq!(seeds, AuthoritySeeds { label: SeedLabel::Config, context: None, bump: 251 });
    assert_eq!(seeds.signer_seeds(), vec![b"config".to_vec(), vec![251u8]]);
}

#[test]
fn reward_seeds_take_the_reward_bump() {
    let at = Address::new([8u8; 32]);
    let seeds = AuthoritySeeds::rewards(at, &config());
    assert_eq!(seeds, AuthoritySeeds { label: SeedLabel::Rewards, context: Some(at), bump: 17 });
    assert_eq!(seeds.signer_seeds(), vec![b"rewards".to_vec(), vec![8u8; 32], vec![17u8]]);
}

#[test]
fn user_seeds_name_the_user() {
    let user = Address::new([1u8; 32]);
    let seeds = AuthoritySeeds::user(user, 0);
    assert_eq!(seeds, AuthoritySeeds { label: SeedLabel::User, context: Some(user), bump: 0 });
    assert_eq!(seeds.signer_seeds(), vec![b"user".to_vec(), vec![1u8; 32], vec![0u8]]);
}

#[test]
fn stake_seeds_name_the_asset() {
    let mut bytes = [0u8; 32];
    for (i, b) in bytes.iter_mut().enumerate() {
        *b = i as u8;
    }
    let asset = Address::new(bytes);
    let seeds = AuthoritySeeds::stake(asset, 255);
    assert_eq!(seeds, AuthoritySeeds { label: SeedLabel::Stake, context: Some(asset), bump: 255 });
    assert_eq!(seeds.signer_seeds(), vec![b"stake".to_vec(), bytes.to_vec(), vec![255u8]]);
}

#[test]
fn seeds_stay_within_the_limits_of_a_derivation() {
    assert_eq!(MAX_SEEDS, 16);
    assert_eq!(MAX_SEED_LEN, 32);
    let a = Address::new([5u8; 32]);
    let all = [
        AuthoritySeeds::config(&config()),
        AuthoritySeeds::rewards(a, &config()),
        AuthoritySeeds::user(a, 3),
        AuthoritySeeds::stake(a, 4),
    ];
    for seeds in all.iter() {
        let v = seeds.signer_seeds();
        assert!(v.len() == 2 || v.len() == 3);
        assert!(v.len() <= MAX_SEEDS);
        assert!(v.iter().all(|seed| seed.len() <= MAX_SEED_LEN));
        assert_eq!(v[0], seeds.label.to_vec());
        assert_eq!(v[v.len() - 1], vec![seeds.bump]);
    }
}

/// Derives the address of `seeds` without their bump as the ledger does,
/// and checks that the seeds with the bump found lead to the same address.
fn assert_derivable(label: &[u8], context: Option<Address>, program: &Pubkey) {
    let found = match context {
        Some(a) => Pubkey::find_program_address(&[label, &a.bytes], program),
        None => Pubkey::find_program_address(&[label], program),
    };
    let mine = match (label, context) {
        (b"config", None) => AuthoritySeeds::config(&StakeConfig {
            bump: found.1,
            rewards_bump: 0,
            points_per_stake: 0,
            freeze_period: 0,
        }),
        (b"rewards", Some(a)) => AuthoritySeeds::rewards(
            a,
            &StakeConfig { bump: 0, rewards_bump: found.1, points_per_stake: 0, freeze_period: 0 },
        ),
        (b"user", Some(a)) => AuthoritySeeds::user(a, found.1),
        (b"stake", Some(a)) => AuthoritySeeds::stake(a, found.1),
        _ => unreachable!(),
    };
    let seeds = mine.signer_seeds();
    let slices: Vec<&[u8]> = seeds.iter().map(|seed| seed.as_slice()).collect();
    assert_eq!(Pubkey::create_program_address(&slices, program), Ok(found.0));
}

#[test]
fn the_ledger_derives_the_same_addresses() {
    let program = Pubkey::new_from_array([42u8; 32]);
    let a = Address::new([7u8; 32]);
    let b = Address::new([200u8; 32]);
    assert_derivable(b"config", None, &program);
    assert_derivable(b"rewards", Some(a), &program);
    assert_derivable(b"user", Some(a), &program);
    assert_derivable(b"user", Some(b), &program);
    assert_derivable(b"stake", Some(a), &program);
    assert_derivable(b"stake", Some(b), &program);
}

#[test]
fn another_bump_leads_elsewhere() {
    let program = Pubkey::new_from_array([42u8; 32]);
    let asset = Address::new([7u8; 32]);
    let (address, bump) = Pubkey::find_program_address(&[b"stake", &asset.bytes], &program);
    let stale = AuthoritySeeds::stake(asset, bump.wrapping_sub(1)).signer_seeds();
    let slices: Vec<&[u8]> = stale.iter().map(|seed| seed.as_slice()).collect();
    assert_ne!(Pubkey::create_program_address(&slices, &program), Ok(address));
}
